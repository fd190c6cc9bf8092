use playback::timestamp::Timestamp;
use playback::transport::{
    frame_reached_target, Action, InputEvent, State, Transport, POLL_FLOOR_MILLIS,
};

fn ms(v: u64) -> Timestamp {
    Timestamp::from_millis(v)
}

fn key(ch: char) -> InputEvent {
    InputEvent::Key { ch, ctrl: false }
}

#[test]
fn quit_key_exits() {
    let mut t = Transport::new(ms(0));
    let a = t.handle_event(key('q'), ms(0), ms(0));
    assert_eq!(a, None);
    assert_eq!(t.state, State::Exited);
}

#[test]
fn ctrl_c_exits() {
    let mut t = Transport::new(ms(0));
    let a = t.handle_event(InputEvent::Key { ch: 'c', ctrl: true }, ms(0), ms(0));
    assert_eq!(a, None);
    assert_eq!(t.state, State::Exited);
}

#[test]
fn plain_c_does_not_exit() {
    let mut t = Transport::new(ms(0));
    let a = t.handle_event(key('c'), ms(0), ms(0));
    assert_eq!(a, None);
    assert_eq!(t.state, State::Playing);
}

#[test]
fn pause_key_toggles() {
    let mut t = Transport::new(ms(0));
    let a = t.handle_event(key('k'), ms(500), ms(1000));
    assert_eq!(a, Some(Action::Pause));
    assert_eq!(t.state, State::Paused);
    // The clock froze at the live position, one second in.
    assert_eq!(t.clock.now(ms(9999)).millis, 1000);

    let b = t.handle_event(key('k'), ms(500), ms(4000));
    assert_eq!(b, Some(Action::Resume));
    assert_eq!(t.state, State::Playing);
    // Resume continues from the frozen position.
    assert_eq!(t.clock.now(ms(4000)).millis, 1000);
}

#[test]
fn seek_forward_steps_from_displayed_frame() {
    let mut t = Transport::new(ms(0));
    let a = t.handle_event(key('l'), ms(500), ms(2000));
    assert_eq!(a, Some(Action::Seek(ms(5500))));
    assert_eq!(t.state, State::Playing);
    assert_eq!(t.clock.now(ms(2000)).millis, 5500);
}

#[test]
fn seek_backward_saturates_at_start() {
    let mut t = Transport::new(ms(0));
    let a = t.handle_event(key('j'), ms(2000), ms(2000));
    assert_eq!(a, Some(Action::Seek(ms(0))));
    let b = t.handle_event(key('j'), ms(8000), ms(2000));
    assert_eq!(b, Some(Action::Seek(ms(3000))));
}

#[test]
fn seek_while_paused_resumes() {
    let mut t = Transport::new(ms(0));
    t.apply_action(Action::Pause, ms(1000));
    let a = t.handle_event(key('l'), ms(1000), ms(6000));
    assert_eq!(a, Some(Action::Seek(ms(6000))));
    assert_eq!(t.state, State::Playing);
}

#[test]
fn resize_keeps_state() {
    let mut t = Transport::new(ms(0));
    t.apply_action(Action::Pause, ms(100));
    let a = t.handle_event(InputEvent::Resize { width: 80, height: 24 }, ms(0), ms(200));
    assert_eq!(a, Some(Action::Resize(80, 24)));
    assert_eq!(t.state, State::Paused);
    assert_eq!(t.clock.now(ms(999)).millis, 100);
}

#[test]
fn unmapped_events_are_ignored() {
    let mut t = Transport::new(ms(0));
    assert_eq!(t.handle_event(key('x'), ms(0), ms(0)), None);
    assert_eq!(t.handle_event(InputEvent::Other, ms(0), ms(0)), None);
    assert_eq!(t.state, State::Playing);
}

#[test]
fn decode_failure_degrades_to_paused() {
    let mut t = Transport::new(ms(0));
    let a = t.on_video_decode(false, ms(700));
    assert_eq!(a, Some(Action::Pause));
    assert_eq!(t.state, State::Paused);
    // The loop is not terminated: the transport did not exit.
    assert_ne!(t.state, State::Exited);
    assert_eq!(t.clock.now(ms(5000)).millis, 700);
}

#[test]
fn decode_success_keeps_playing() {
    let mut t = Transport::new(ms(0));
    let a = t.on_video_decode(true, ms(700));
    assert_eq!(a, None);
    assert_eq!(t.state, State::Playing);
}

#[test]
fn decode_failure_while_paused_changes_nothing() {
    let mut t = Transport::new(ms(0));
    t.apply_action(Action::Pause, ms(100));
    let frozen = t.clock;
    let a = t.on_video_decode(false, ms(700));
    assert_eq!(a, None);
    assert_eq!(t.state, State::Paused);
    assert_eq!(t.clock, frozen);
}

#[test]
fn pause_burst_is_idempotent() {
    let mut once = Transport::new(ms(0));
    once.apply_action(Action::Pause, ms(400));
    let mut twice = Transport::new(ms(0));
    twice.apply_action(Action::Pause, ms(400));
    twice.apply_action(Action::Pause, ms(450));
    assert_eq!(once.state, twice.state);
    assert_eq!(once.clock, twice.clock);
}

#[test]
fn resume_burst_is_idempotent() {
    let mut once = Transport::new(ms(0));
    once.apply_action(Action::Pause, ms(400));
    once.apply_action(Action::Resume, ms(600));
    let mut twice = Transport::new(ms(0));
    twice.apply_action(Action::Pause, ms(400));
    twice.apply_action(Action::Resume, ms(600));
    twice.apply_action(Action::Resume, ms(600));
    assert_eq!(once.state, twice.state);
    assert_eq!(once.clock, twice.clock);
}

#[test]
fn wait_budget_runs_until_frame_is_due() {
    let t = Transport::new(ms(0));
    assert_eq!(t.wait_budget(ms(120), ms(100)).unwrap().millis, 20);
}

#[test]
fn wait_budget_has_a_floor() {
    let t = Transport::new(ms(0));
    // The frame is already overdue: wait the floor, not zero.
    assert_eq!(t.wait_budget(ms(50), ms(100)).unwrap().millis, POLL_FLOOR_MILLIS);
    assert_eq!(t.wait_budget(ms(103), ms(100)).unwrap().millis, POLL_FLOOR_MILLIS);
}

#[test]
fn wait_budget_is_indefinite_while_paused() {
    let mut t = Transport::new(ms(0));
    t.apply_action(Action::Pause, ms(100));
    assert_eq!(t.wait_budget(ms(50), ms(100)), None);
}

#[test]
fn display_timestamp_prefers_decoded_frame() {
    let t = Transport::new(ms(0));
    assert_eq!(t.display_timestamp(Some(ms(42)), ms(1000)).millis, 42);
    assert_eq!(t.display_timestamp(None, ms(1000)).millis, 1000);
}

#[test]
fn frame_reached_target_compares_pts() {
    assert!(frame_reached_target(Some(5), 4));
    assert!(!frame_reached_target(Some(4), 4));
    assert!(!frame_reached_target(None, 0));
    assert!(frame_reached_target(None, -1));
}
