use vstd::prelude::*;

use crate::clock::PlaybackClock;
use crate::timestamp::{sat_add, sat_sub, Timestamp};

verus! {

/// The transport state owned by the control loop. `Exited` is terminal.
#[derive(Clone, Copy, Debug, PartialEq, Eq, Structural)]
pub enum State {
    /// The control loop has been asked to stop.
    Exited,
    /// The clock runs and video frames are pulled.
    Playing,
    /// The clock is frozen and the loop waits for input.
    Paused,
}

/// A transport command, generated by the control loop and delivered both
/// to its own video path and, over a channel, to the audio render path.
#[derive(Clone, Copy, Debug, PartialEq, Eq, Structural)]
pub enum Action {
    /// Freeze playback.
    Pause,
    /// Continue playback from the frozen position.
    Resume,
    /// Jump both pipelines and the clock to the given position.
    Seek(Timestamp),
    /// The terminal was resized to the given width and height.
    Resize(u16, u16),
}

/// An input event, as the control loop classifies it. The terminal layer
/// reduces its own event type to this before handing it over.
#[derive(Clone, Copy, Debug, PartialEq, Eq, Structural)]
pub enum InputEvent {
    /// A key press, with the pressed character and the control modifier.
    Key { ch: char, ctrl: bool },
    /// The terminal was resized to the given width and height.
    Resize { width: u16, height: u16 },
    /// Anything else; ignored.
    Other,
}

/// How far a single seek key press jumps, in milliseconds.
pub const SEEK_STEP_MILLIS: u64 = 5000;

/// The least time the control loop waits on input while playing, in
/// milliseconds; keeps a decode backlog from starving input handling.
pub const POLL_FLOOR_MILLIS: u64 = 5;

/// The transport controller's own state: the playback state machine and
/// the logical clock it owns.
#[derive(Clone, Copy, Debug, PartialEq, Eq, Structural)]
pub struct Transport {
    /// The current playback state.
    pub state: State,
    /// The logical clock mapping wall instants to media positions.
    pub clock: PlaybackClock,
}

impl Transport {
    /// The transport after applying `action` at wall instant `wall`:
    /// `Pause` freezes state and clock, `Resume` and `Seek` enter
    /// `Playing` and re-anchor the clock, `Resize` changes nothing here.
    pub open spec fn apply_action_spec(self, action: Action, wall: int) -> Transport {
        match action {
            Action::Pause => Transport { state: State::Paused, clock: self.clock.pause_spec(wall) },
            Action::Resume => Transport {
                state: State::Playing,
                clock: self.clock.resume_spec(wall),
            },
            Action::Seek(target) => Transport {
                state: State::Playing,
                clock: self.clock.seek_spec(wall, target),
            },
            Action::Resize(_, _) => self,
        }
    }

    /// The command a key press or resize event maps to, given the current
    /// state and the position of the frame on screen:
    /// `k` toggles pause, `l` and `j` seek one step forwards or
    /// backwards from that frame, a resize reports the new geometry.
    /// `q` and ctrl-`c` exit and map to no command.
    pub open spec fn classify_spec(self, ev: InputEvent, frame_ts: Timestamp) -> Option<Action> {
        match ev {
            InputEvent::Key { ch, ctrl } => {
                if ch == 'q' || (ch == 'c' && ctrl) {
                    None
                } else if ch == 'k' {
                    if self.state is Paused {
                        Some(Action::Resume)
                    } else {
                        Some(Action::Pause)
                    }
                } else if ch == 'l' {
                    Some(
                        Action::Seek(
                            Timestamp {
                                millis: sat_add(
                                    frame_ts.as_millis(),
                                    SEEK_STEP_MILLIS as int,
                                ) as u64,
                            },
                        ),
                    )
                } else if ch == 'j' {
                    Some(
                        Action::Seek(
                            Timestamp {
                                millis: sat_sub(
                                    frame_ts.as_millis(),
                                    SEEK_STEP_MILLIS as int,
                                ) as u64,
                            },
                        ),
                    )
                } else {
                    None
                }
            },
            InputEvent::Resize { width, height } => Some(Action::Resize(width, height)),
            InputEvent::Other => None,
        }
    }

    /// Whether `ev` asks the player to exit.
    pub open spec fn is_exit_spec(ev: InputEvent) -> bool {
        ev matches InputEvent::Key { ch, ctrl } && (ch == 'q' || (ch == 'c' && ctrl))
    }

    /// The transport after handling `ev`, and the command to forward to
    /// the audio side (and to the video decode path), if any.
    pub open spec fn handle_event_spec(self, ev: InputEvent, frame_ts: Timestamp, wall: int) -> (
        Transport,
        Option<Action>,
    ) {
        if Self::is_exit_spec(ev) {
            (Transport { state: State::Exited, clock: self.clock }, None)
        } else {
            match self.classify_spec(ev, frame_ts) {
                Some(action) => (self.apply_action_spec(action, wall), Some(action)),
                None => (self, None),
            }
        }
    }

    /// A transport that has just opened a media session: playing, with the
    /// clock anchored at wall instant `wall` at media position 0.
    pub fn new(wall: Timestamp) -> (r: Self)
        ensures
            r.state is Playing,
            r.clock == (PlaybackClock {
                anchor_instant: wall,
                anchor_media_time: Timestamp { millis: 0 },
                paused: false,
            }),
    {
        Transport { state: State::Playing, clock: PlaybackClock::new(wall) }
    }

    /// Apply a transport command at wall instant `wall`: update the state
    /// machine and re-anchor or freeze the clock as the command asks.
    pub fn apply_action(&mut self, action: Action, wall: Timestamp)
        ensures
            *final(self) == old(self).apply_action_spec(action, wall.as_millis()),
    {
        match action {
            Action::Pause => {
                self.state = State::Paused;
                self.clock.pause(wall);
            },
            Action::Resume => {
                self.state = State::Playing;
                self.clock.resume(wall);
            },
            Action::Seek(target) => {
                self.state = State::Playing;
                self.clock.seek(wall, target);
            },
            Action::Resize(_, _) => {},
        }
    }

    /// Handle one classified input event at wall instant `wall`, given the
    /// timestamp of the frame on screen. Returns the command to forward,
    /// if the event produced one.
    pub fn handle_event(&mut self, ev: InputEvent, frame_ts: Timestamp, wall: Timestamp) -> (r:
        Option<Action>)
        ensures
            *final(self) == old(self).handle_event_spec(ev, frame_ts, wall.as_millis()).0,
            r == old(self).handle_event_spec(ev, frame_ts, wall.as_millis()).1,
    {
        match ev {
            InputEvent::Key { ch, ctrl } => {
                if ch == 'q' || (ch == 'c' && ctrl) {
                    self.state = State::Exited;
                    None
                } else if ch == 'k' {
                    let action = if self.state == State::Paused {
                        Action::Resume
                    } else {
                        Action::Pause
                    };
                    self.apply_action(action, wall);
                    Some(action)
                } else if ch == 'l' {
                    let action = Action::Seek(
                        frame_ts.saturating_add(Timestamp { millis: SEEK_STEP_MILLIS }),
                    );
                    self.apply_action(action, wall);
                    Some(action)
                } else if ch == 'j' {
                    let action = Action::Seek(
                        frame_ts.saturating_sub(Timestamp { millis: SEEK_STEP_MILLIS }),
                    );
                    self.apply_action(action, wall);
                    Some(action)
                } else {
                    None
                }
            },
            InputEvent::Resize { width, height } => {
                let action = Action::Resize(width, height);
                self.apply_action(action, wall);
                Some(action)
            },
            InputEvent::Other => None,
        }
    }

    /// Record the outcome of one video decode pull. A failed pull while
    /// `Playing` is not fatal: the transport degrades to `Paused` (and the
    /// returned `Pause` command is forwarded to the audio side) and the
    /// control loop goes on. A successful pull, or any pull outside
    /// `Playing`, changes nothing.
    pub fn on_video_decode(&mut self, ok: bool, wall: Timestamp) -> (r: Option<Action>)
        ensures
            old(self).state is Playing && !ok ==> *final(self) == old(self).apply_action_spec(
                Action::Pause,
                wall.as_millis(),
            ) && r == Some(Action::Pause),
            !(old(self).state is Playing && !ok) ==> *final(self) == *old(self) && r is None,
            final(self).state is Playing <==> old(self).state is Playing && ok,
            final(self).state is Exited <==> old(self).state is Exited,
    {
        if self.state == State::Playing && !ok {
            self.apply_action(Action::Pause, wall);
            Some(Action::Pause)
        } else {
            None
        }
    }

    /// How long the control loop may wait for input at wall instant
    /// `wall`, given the timestamp of the next pulled frame: while
    /// `Playing`, until that frame is due but at least the poll floor
    /// (the wait doubles as the frame-pacing sleep); otherwise `None`,
    /// meaning wait indefinitely for an event.
    pub fn wait_budget(&self, frame_ts: Timestamp, wall: Timestamp) -> (r: Option<Timestamp>)
        ensures
            self.state is Playing ==> (r matches Some(w) && w.as_millis() == ({
                let until_due = sat_sub(frame_ts.as_millis(), self.clock.now_spec(wall.as_millis()));
                if until_due >= POLL_FLOOR_MILLIS { until_due } else { POLL_FLOOR_MILLIS as int }
            })),
            !(self.state is Playing) ==> r is None,
    {
        if self.state == State::Playing {
            let now = self.clock.now(wall);
            Some(frame_ts.saturating_sub(now).max(Timestamp { millis: POLL_FLOOR_MILLIS }))
        } else {
            None
        }
    }

    /// The position to show and to seek from: the timestamp of the frame
    /// on screen if one is decoded, else the clock's own position.
    pub fn display_timestamp(&self, frame_ts: Option<Timestamp>, wall: Timestamp) -> (r: Timestamp)
        ensures
            frame_ts matches Some(t) ==> r == t,
            frame_ts is None ==> r.as_millis() == self.clock.now_spec(wall.as_millis()),
    {
        match frame_ts {
            Some(t) => t,
            None => self.clock.now(wall),
        }
    }
}

/// Whether a decoded frame with presentation timestamp `pts` (in stream
/// ticks; a missing timestamp counts as zero) has passed the decode
/// target `target_pts` and should be kept rather than discarded as late.
pub fn frame_reached_target(pts: Option<i64>, target_pts: i64) -> (r: bool)
    ensures
        r == ((match pts {
            Some(p) => p,
            None => 0,
        }) > target_pts),
{
    let p = match pts {
        Some(p) => p,
        None => 0,
    };
    p > target_pts
}

/// Command idempotence under burst, transport side: a doubled `Pause`
/// (at any two instants) or a doubled `Resume` (within one instant)
/// leaves the transport exactly as the single command does.
pub proof fn lemma_transport_burst_idempotent(t: Transport, w1: int, w2: int)
    ensures
        t.apply_action_spec(Action::Pause, w1).apply_action_spec(Action::Pause, w2)
            == t.apply_action_spec(Action::Pause, w1),
        t.apply_action_spec(Action::Resume, w1).apply_action_spec(Action::Resume, w1)
            == t.apply_action_spec(Action::Resume, w1),
{
}

} // verus!
