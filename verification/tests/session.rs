use rustbox::running::release;
use rustbox::running::run;
use rustbox::running::running;
use rustbox::running::SessionFlag;
use rustbox::session::init_outcome;
use rustbox::session::InitError;
use rustbox::session::InputMode;

#[test]
fn exactly_one_of_two_acquisitions_succeeds() {
    let mut flag = SessionFlag::new();
    let first = run(&mut flag);
    let second = run(&mut flag);
    assert!(first.is_some());
    assert!(second.is_none());
}

#[test]
fn running_reports_the_flag_state() {
    let mut flag = SessionFlag::new();
    assert!(!running(&flag));
    let guard = run(&mut flag).unwrap();
    assert!(running(&flag));
    release(&mut flag, guard);
    assert!(!running(&flag));
}

#[test]
fn release_permits_a_new_acquisition() {
    let mut flag = SessionFlag::new();
    let guard = run(&mut flag).unwrap();
    release(&mut flag, guard);
    let again = run(&mut flag);
    assert!(again.is_some());
}

#[test]
fn losing_attempt_reports_already_open_without_a_driver_status() {
    // The outcome of a lost flag is decided before any driver call, so
    // the driver status handed in here must be irrelevant to it.
    assert_eq!(init_outcome(false, 0), Some(Err(InitError::AlreadyOpen)));
    assert_eq!(init_outcome(false, -1), Some(Err(InitError::AlreadyOpen)));
    assert_eq!(init_outcome(false, 99), Some(Err(InitError::AlreadyOpen)));
}

#[test]
fn won_flag_outcome_follows_the_driver_status() {
    assert_eq!(init_outcome(true, 0), Some(Ok(())));
    assert_eq!(init_outcome(true, -1), Some(Err(InitError::UnsupportedTerminal)));
    assert_eq!(init_outcome(true, -2), Some(Err(InitError::FailedToOpenTty)));
    assert_eq!(init_outcome(true, -3), Some(Err(InitError::PipeTrapError)));
    assert_eq!(init_outcome(true, -4), None);
    assert_eq!(init_outcome(true, 1), None);
}

#[test]
fn init_statuses_map_to_named_failure_kinds() {
    assert_eq!(InitError::from_termbox_error(-1), Some(InitError::UnsupportedTerminal));
    assert_eq!(InitError::from_termbox_error(-2), Some(InitError::FailedToOpenTty));
    assert_eq!(InitError::from_termbox_error(-3), Some(InitError::PipeTrapError));
    assert_eq!(InitError::from_termbox_error(-4), None);
    assert_eq!(InitError::from_termbox_error(0), None);
    assert_eq!(InitError::from_termbox_error(1), None);
}

#[test]
fn descriptions_name_each_failure() {
    assert_eq!(InitError::AlreadyOpen.description(), "RustBox is already open.");
    assert_eq!(InitError::UnsupportedTerminal.description(), "Unsupported terminal.");
    assert_eq!(InitError::FailedToOpenTty.description(), "Failed to open TTY.");
    assert_eq!(InitError::PipeTrapError.description(), "Pipe trap error.");
}

#[test]
fn input_mode_wire_values() {
    assert_eq!(InputMode::Current.code(), 0);
    assert_eq!(InputMode::Esc.code(), 1);
    assert_eq!(InputMode::Alt.code(), 2);
}

#[test]
fn only_the_current_mode_is_left_as_is() {
    assert!(InputMode::Current.is_current());
    assert!(!InputMode::Esc.is_current());
    assert!(!InputMode::Alt.is_current());
}
