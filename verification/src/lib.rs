//! A typed model of a character-cell terminal session.
//!
//! The crate covers the four parts of such a session that carry real
//! invariants: the key-code space and its derivation rules
//! ([`keyboard`], [`key`]), the packed style/color encoding ([`style`]),
//! the translation of raw driver records into structured events
//! ([`event`]), and the process-wide single-session guard ([`running`]).
//! The terminal driver itself is an external collaborator: a thin facade
//! around its primitive calls lives outside this library and feeds these
//! modules plain values.

pub mod event;
pub mod key;
pub mod keyboard;
pub mod running;
pub mod session;
pub mod style;

pub use event::Event;
pub use event::EventError;
pub use event::Modifier;
pub use event::RawEvent;
pub use keyboard::Key;
pub use running::RunningGuard;
pub use running::SessionFlag;
pub use session::InitError;
pub use session::InputMode;
pub use style::CellWrite;
pub use style::Color;
pub use style::Style;
pub use style::RB_BOLD;
pub use style::RB_NORMAL;
pub use style::RB_REVERSE;
pub use style::RB_UNDERLINE;
