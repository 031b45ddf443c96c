use ssd1680::interface::{BUSY_POLL_ATTEMPTS, BUSY_POLL_INTERVAL_MS, BUSY_TIMEOUT_MS};
use ssd1680::{BusyAction, BusyWait};

#[test]
fn busy_wait_times_out_after_the_budget() {
    assert_eq!(BUSY_POLL_ATTEMPTS, 500);
    assert_eq!(BUSY_POLL_ATTEMPTS * BUSY_POLL_INTERVAL_MS, BUSY_TIMEOUT_MS);
    let mut wait = BusyWait::new();
    let mut sleeps = 0;
    loop {
        match wait.poll(true) {
            BusyAction::Sleep => sleeps += 1,
            BusyAction::TimedOut => break,
            BusyAction::Done => panic!("the line never clears"),
        }
        assert!(sleeps <= 500);
    }
    assert_eq!(sleeps, 500);
    assert_eq!(wait.attempts(), 500);
    assert_eq!(wait.poll(true), BusyAction::TimedOut);
}

#[test]
fn busy_wait_ends_when_the_line_clears() {
    let mut wait = BusyWait::new();
    assert_eq!(wait.poll(true), BusyAction::Sleep);
    assert_eq!(wait.poll(true), BusyAction::Sleep);
    assert_eq!(wait.poll(false), BusyAction::Done);
    assert_eq!(wait.attempts(), 2);
    assert_eq!(BusyWait::new().poll(false), BusyAction::Done);
}
