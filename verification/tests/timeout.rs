use puty_proxy::timeout::{timer_verdict, TimedOut, TimeoutState, TimeoutStream, TimerAction};
use std::time::Duration;

const LIMIT: Duration = Duration::from_secs(30);

#[test]
fn new_stream_is_not_timed() {
    let mut s = TimeoutStream::new("stream");
    assert_eq!(s.stream, "stream");
    assert_eq!(s.state.timeout(), None);
    assert_eq!(s.after_poll(false), TimerAction::Leave);
    assert_eq!(s.after_poll(false), TimerAction::Leave);
    assert_eq!(s.after_poll(true), TimerAction::Leave);
    assert_eq!(s.state, TimeoutState::new());
}

#[test]
fn timer_follows_the_stalls() {
    let mut s = TimeoutStream::new(());
    s.set_timeout(Some(LIMIT));
    assert_eq!(s.state.timeout(), Some(LIMIT));
    assert_eq!(s.after_poll(true), TimerAction::Leave);
    assert_eq!(s.after_poll(false), TimerAction::Start(LIMIT));
    assert_eq!(s.after_poll(false), TimerAction::Watch);
    assert_eq!(s.after_poll(false), TimerAction::Watch);
    assert_eq!(s.after_poll(true), TimerAction::Rewind);
    assert_eq!(s.after_poll(true), TimerAction::Leave);
    assert_eq!(s.after_poll(false), TimerAction::Start(LIMIT));
}

#[test]
fn only_a_watched_timer_fails_the_poll() {
    assert_eq!(timer_verdict(&TimerAction::Watch, true), Err(TimedOut));
    assert_eq!(timer_verdict(&TimerAction::Start(LIMIT), true), Err(TimedOut));
    assert_eq!(timer_verdict(&TimerAction::Watch, false), Ok(()));
    assert_eq!(timer_verdict(&TimerAction::Start(LIMIT), false), Ok(()));
    assert_eq!(timer_verdict(&TimerAction::Leave, true), Ok(()));
    assert_eq!(timer_verdict(&TimerAction::Rewind, true), Ok(()));
}

#[test]
fn pinned_timeout_stops_the_timer() {
    let mut s = TimeoutState::new();
    s.set_timeout(Some(LIMIT));
    assert_eq!(s.poll_check(), TimerAction::Start(LIMIT));
    assert_eq!(s.set_timeout_pinned(None), TimerAction::Rewind);
    assert_eq!(s, TimeoutState { timeout: None, active: false });
    assert_eq!(s.set_timeout_pinned(Some(LIMIT)), TimerAction::Leave);
    assert_eq!(s.reset(), TimerAction::Leave);
}

/// Polls a stream at the times given, in seconds, with a timer that is set as the stream asks.
/// Returns the time of the poll that failed.
fn first_failure(polls: &[(u64, bool)]) -> Option<u64> {
    let mut s = TimeoutStream::new(());
    s.set_timeout(Some(LIMIT));
    let mut due: u64 = 0;
    for (now, ready) in polls {
        let action = s.after_poll(*ready);
        let fired = match action {
            TimerAction::Leave => false,
            TimerAction::Rewind => {
                due = *now;
                false
            }
            TimerAction::Start(limit) => {
                due = *now + limit.as_secs();
                *now >= due
            }
            TimerAction::Watch => *now >= due,
        };
        if timer_verdict(&action, fired).is_err() {
            return Some(*now);
        }
    }
    None
}

#[test]
fn stream_fails_after_one_timeout_of_stall() {
    assert_eq!(first_failure(&[(5, false), (20, false), (34, false), (35, false)]), Some(35));
    assert_eq!(first_failure(&[(5, false), (34, true), (35, false), (64, false)]), None);
    assert_eq!(first_failure(&[(5, false), (34, true), (35, false), (65, false)]), Some(65));
    assert_eq!(first_failure(&[(100, true), (200, true), (300, false), (329, false)]), None);
}
