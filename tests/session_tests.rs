use cerebro::session::{SessionController, StartDecision};

#[test]
fn start_twice_launches_once() {
    let mut c = SessionController::new();
    assert_eq!(c.start(true), StartDecision::Launch);
    assert_eq!(c.start(false), StartDecision::AlreadyRunning);
    assert!(c.reader_held);
    assert!(!c.stop_requested);
}

#[test]
fn start_after_reader_ended_launches_again() {
    let mut c = SessionController::new();
    assert_eq!(c.start(false), StartDecision::Launch);
    assert_eq!(c.start(true), StartDecision::Launch);
}

#[test]
fn stop_when_stopped_is_noop() {
    let mut c = SessionController::new();
    c.stop();
    assert!(!c.reader_held);
    let once = c;
    c.stop();
    assert_eq!(c, once);
}

#[test]
fn stop_then_start_gets_fresh_flag() {
    let mut c = SessionController::new();
    c.start(true);
    c.stop();
    assert!(c.stop_requested);
    assert!(!c.reader_held);
    assert_eq!(c.start(false), StartDecision::Launch);
    assert!(!c.stop_requested);
}
