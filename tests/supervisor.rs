use yt_feeds::error::Error;
use yt_feeds::progress::{duration_request, position_request, progress_from_seconds, property_request};
use yt_feeds::supervisor::{start, Flags, SupervisorEvent, WatchAction};
use yt_feeds::video::WatchProgress;

fn progress(current: u32) -> Option<WatchProgress> {
    Some(WatchProgress::new(current, 600))
}

#[test]
fn a_failed_launch_is_reported_before_anything_runs() {
    let r = start::<WatchProgress>(Err("no such file".to_string()));
    assert_eq!(r.err(), Some(Error::CommandFailed("no such file".to_string())));
    let f = start::<WatchProgress>(Ok(())).ok().unwrap();
    assert!(f.running() && !f.detached() && f.result.is_none());
}

#[test]
fn cancel_terminates_the_command_and_ends_the_run() {
    let mut f: Flags<WatchProgress> = Flags::atomic();
    f.handle(SupervisorEvent::Polled(progress(5)));
    assert_eq!(f.outcome(), None);
    assert_eq!(f.watch(false), WatchAction::Continue);
    f.handle(SupervisorEvent::Key('c'));
    assert!(f.deny_use());
    assert_eq!(f.watch(false), WatchAction::Terminate);
    assert_eq!(f.outcome(), Some(progress(5)));
}

#[test]
fn detach_leaves_the_command_running_and_keeps_the_earlier_value() {
    let mut f: Flags<WatchProgress> = Flags::atomic();
    f.handle(SupervisorEvent::Polled(progress(7)));
    f.handle(SupervisorEvent::Key('d'));
    assert_eq!(f.watch(false), WatchAction::Release);
    f.handle(SupervisorEvent::Polled(progress(99)));
    f.set_result(progress(123));
    f.handle(SupervisorEvent::ChildExited);
    assert_eq!(f.outcome(), Some(progress(7)));
    assert_eq!(f.watch(true), WatchAction::Release);
}

#[test]
fn detach_before_any_poll_hands_back_nothing() {
    let mut f: Flags<WatchProgress> = Flags::atomic();
    f.handle(SupervisorEvent::Key('d'));
    f.handle(SupervisorEvent::Polled(progress(1)));
    assert_eq!(f.outcome(), Some(None));
}

#[test]
fn command_exiting_by_itself_ends_the_run_with_the_last_value() {
    let mut f: Flags<WatchProgress> = Flags::atomic();
    f.handle(SupervisorEvent::Polled(progress(1)));
    f.handle(SupervisorEvent::Polled(None));
    f.handle(SupervisorEvent::Polled(progress(2)));
    f.handle(SupervisorEvent::Key('x'));
    assert_eq!(f.watch(true), WatchAction::Finished);
    assert!(!f.running());
    assert_eq!(f.outcome(), Some(progress(2)));
}

#[test]
fn flags_setters() {
    let mut f: Flags<u32> = Flags::atomic();
    f.set_result(Some(3));
    assert_eq!(f.result, Some(3));
    f.set_detached(true);
    assert!(f.detached());
    f.set_running(false);
    assert!(!f.running());
}

#[test]
fn progress_requests_are_one_line_json() {
    assert_eq!(position_request(), "{\"command\":[\"get_property\",\"playback-time\"]}");
    assert_eq!(duration_request(), "{\"command\":[\"get_property\",\"duration\"]}");
    assert_eq!(property_request("x"), "{\"command\":[\"get_property\",\"x\"]}");
}

#[test]
fn a_missing_answer_gives_no_progress() {
    assert_eq!(progress_from_seconds(Some(3), Some(9)), Some(WatchProgress { current: 3, duration: 9 }));
    assert_eq!(progress_from_seconds(None, Some(9)), None);
    assert_eq!(progress_from_seconds(Some(3), None), None);
    assert_eq!(progress_from_seconds(None, None), None);
}

#[test]
fn progress_is_shown_as_clock_readings() {
    assert_eq!(WatchProgress::new(65, 3725).formatted(), "1:05 / 1:02:05");
    assert_eq!(WatchProgress::new(0, 9).formatted(), "0:00 / 0:09");
}
