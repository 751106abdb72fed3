//! Session-level configuration and failure kinds: the input-mode setting
//! handed to the driver, and the named ways initialization can fail.

use vstd::prelude::*;

verus! {

/// How the driver resolves an ambiguous ESC sequence in its input
/// buffer. Applied at session initialization or later by an explicit
/// call; `Current` leaves the driver's present setting untouched (and is
/// how the setting is queried).
#[derive(Clone, Copy, PartialEq, Eq, Debug)]
pub enum InputMode {
    /// Keep the driver's present setting.
    Current,
    /// An unmatched ESC sequence means the ESC key itself.
    Esc,
    /// An unmatched ESC sequence sets the Alt modifier on the next key.
    Alt,
}

/// The wire value of an input mode in the driver's select-input-mode
/// call.
pub open spec fn spec_input_mode_code(mode: InputMode) -> i32 {
    match mode {
        InputMode::Current => 0,
        InputMode::Esc => 1,
        InputMode::Alt => 2,
    }
}

impl InputMode {
    /// The wire value handed to the driver's select-input-mode call.
    pub fn code(self) -> (r: i32)
        ensures
            r == spec_input_mode_code(self),
    {
        match self {
            InputMode::Current => 0,
            InputMode::Esc => 1,
            InputMode::Alt => 2,
        }
    }

    /// Whether this mode leaves the driver's present setting as it is —
    /// a session applies a mode at initialization only when it does not.
    pub fn is_current(self) -> (r: bool)
        ensures
            r <==> self is Current,
    {
        match self {
            InputMode::Current => true,
            _ => false,
        }
    }
}

/// Why a session could not be opened. `AlreadyOpen` is decided before
/// any driver call; the other three name the driver's documented
/// negative init statuses.
#[derive(Clone, Copy, PartialEq, Eq, Debug)]
pub enum InitError {
    /// A session was already open in this process.
    AlreadyOpen,
    /// The driver does not support this terminal.
    UnsupportedTerminal,
    /// The driver could not open the terminal control device.
    FailedToOpenTty,
    /// The driver could not install its pipe trap.
    PipeTrapError,
}

/// The failure kind a negative driver init status names, if it is one of
/// the three documented ones.
pub open spec fn spec_init_error_of_status(res: i32) -> Option<InitError> {
    if res == -1 {
        Some(InitError::UnsupportedTerminal)
    } else if res == -2 {
        Some(InitError::FailedToOpenTty)
    } else if res == -3 {
        Some(InitError::PipeTrapError)
    } else {
        None
    }
}

impl InitError {
    /// Maps a failing driver init status to its named failure kind.
    ///
    /// Defined exactly for the driver's three documented init failure
    /// statuses, `-1..=-3`. Any other status is a contract violation by
    /// the driver and yields `None`, on which the caller must stop
    /// rather than guess a kind.
    pub fn from_termbox_error(res: i32) -> (r: Option<InitError>)
        ensures
            r == spec_init_error_of_status(res),
            r is Some <==> -3 <= res <= -1,
    {
        if res == -1 {
            Some(InitError::UnsupportedTerminal)
        } else if res == -2 {
            Some(InitError::FailedToOpenTty)
        } else if res == -3 {
            Some(InitError::PipeTrapError)
        } else {
            None
        }
    }

    /// A human-readable description of the failure.
    pub fn description(&self) -> (r: &'static str)
        ensures
            self is AlreadyOpen ==> r@ == "RustBox is already open."@,
            self is UnsupportedTerminal ==> r@ == "Unsupported terminal."@,
            self is FailedToOpenTty ==> r@ == "Failed to open TTY."@,
            self is PipeTrapError ==> r@ == "Pipe trap error."@,
    {
        match self {
            InitError::AlreadyOpen => "RustBox is already open.",
            InitError::UnsupportedTerminal => "Unsupported terminal.",
            InitError::FailedToOpenTty => "Failed to open TTY.",
            InitError::PipeTrapError => "Pipe trap error.",
        }
    }
}

/// The outcome of opening a session, decided from the two facts the
/// attempt gathers: whether this process's session flag was won, and —
/// only if it was — the driver's init status.
///
/// A losing attempt is `AlreadyOpen` and must not have called the driver
/// at all, which is why the status is absent from that arm. A won flag
/// with a driver status of `0` is an open session; a documented failure
/// status names its kind; any other status is a driver contract
/// violation and yields `None`.
pub open spec fn spec_init_outcome(acquired: bool, status: i32) -> Option<
    Result<(), InitError>,
> {
    if !acquired {
        Some(Err(InitError::AlreadyOpen))
    } else if status == 0 {
        Some(Ok(()))
    } else {
        match spec_init_error_of_status(status) {
            Some(e) => Some(Err(e)),
            None => None,
        }
    }
}

/// Decides the outcome of a session-open attempt.
///
/// `acquired` says whether the attempt won the session flag; `status` is
/// the driver's init status, gathered only after a won flag (a losing
/// attempt never calls the driver, so its outcome here ignores
/// `status`). `None` means the driver returned an undocumented status:
/// the caller must stop rather than guess.
pub fn init_outcome(acquired: bool, status: i32) -> (r: Option<Result<(), InitError>>)
    ensures
        r == spec_init_outcome(acquired, status),
{
    if !acquired {
        Some(Err(InitError::AlreadyOpen))
    } else if status == 0 {
        Some(Ok(()))
    } else {
        match InitError::from_termbox_error(status) {
            Some(e) => Some(Err(e)),
            None => None,
        }
    }
}

} // verus!
