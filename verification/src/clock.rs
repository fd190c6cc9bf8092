use vstd::prelude::*;

use crate::timestamp::{sat_add, sat_sub, Timestamp};

verus! {

/// The logical playback clock: maps wall-clock instants to media-timeline
/// positions.
///
/// While running, the position at wall instant `w` is
/// `anchor_media_time + (w - anchor_instant)`; while paused, the clock
/// reports the frozen `anchor_media_time` and ignores the wall clock
/// entirely. Re-anchoring happens exactly on `resume` (to the frozen
/// position) and on `seek` (to the seek target).
///
/// No wall-clock source is hidden inside: every query and transition takes
/// the current wall instant as a parameter, so the clock is pure logic.
///
/// Policy: `seek` unpauses the clock — seeking always resumes playback.
#[derive(Clone, Copy, Debug, PartialEq, Eq, Structural)]
pub struct PlaybackClock {
    /// Wall-clock instant (in milliseconds) of the last re-anchoring.
    /// Meaningful only while the clock is running.
    pub anchor_instant: Timestamp,
    /// Media position at the last re-anchoring; while paused, this is the
    /// frozen position that `now` reports.
    pub anchor_media_time: Timestamp,
    /// Whether the clock is frozen.
    pub paused: bool,
}

impl PlaybackClock {
    /// The media position this clock reports at wall instant `wall`.
    pub open spec fn now_spec(self, wall: int) -> int {
        if self.paused {
            self.anchor_media_time.as_millis()
        } else {
            sat_add(self.anchor_media_time.as_millis(), sat_sub(wall, self.anchor_instant.as_millis()))
        }
    }

    /// The clock after freezing at the position it reports at `wall`.
    pub open spec fn pause_spec(self, wall: int) -> PlaybackClock {
        PlaybackClock {
            anchor_instant: self.anchor_instant,
            anchor_media_time: Timestamp { millis: self.now_spec(wall) as u64 },
            paused: true,
        }
    }

    /// The clock after resuming at wall instant `wall`: re-anchored to the
    /// wall, with the media position left where it was.
    pub open spec fn resume_spec(self, wall: int) -> PlaybackClock {
        PlaybackClock {
            anchor_instant: Timestamp { millis: wall as u64 },
            anchor_media_time: self.anchor_media_time,
            paused: false,
        }
    }

    /// The clock after seeking to `target` at wall instant `wall`:
    /// re-anchored to the wall and the target, running.
    pub open spec fn seek_spec(self, wall: int, target: Timestamp) -> PlaybackClock {
        PlaybackClock {
            anchor_instant: Timestamp { millis: wall as u64 },
            anchor_media_time: target,
            paused: false,
        }
    }

    /// A running clock anchored at wall instant `wall`, at media position 0.
    pub fn new(wall: Timestamp) -> (r: Self)
        ensures
            r == (PlaybackClock {
                anchor_instant: wall,
                anchor_media_time: Timestamp { millis: 0 },
                paused: false,
            }),
    {
        PlaybackClock { anchor_instant: wall, anchor_media_time: Timestamp { millis: 0 }, paused: false }
    }

    /// The current media position at wall instant `wall`: live while
    /// running, frozen while paused.
    pub fn now(&self, wall: Timestamp) -> (r: Timestamp)
        ensures
            r.as_millis() == self.now_spec(wall.as_millis()),
    {
        if self.paused {
            self.anchor_media_time
        } else {
            self.anchor_media_time.saturating_add(wall.saturating_sub(self.anchor_instant))
        }
    }

    /// Freeze the clock at the position it reports at `wall`.
    /// Freezing an already frozen clock changes nothing.
    pub fn pause(&mut self, wall: Timestamp)
        ensures
            *final(self) == old(self).pause_spec(wall.as_millis()),
    {
        let frozen = self.now(wall);
        self.anchor_media_time = frozen;
        self.paused = true;
    }

    /// Resume the clock at wall instant `wall`, continuing from the
    /// current media position with no discontinuity.
    pub fn resume(&mut self, wall: Timestamp)
        ensures
            *final(self) == old(self).resume_spec(wall.as_millis()),
    {
        self.anchor_instant = wall;
        self.paused = false;
    }

    /// Re-anchor the clock to `target` at wall instant `wall`,
    /// unconditionally, whatever the prior state; the clock runs afterwards.
    pub fn seek(&mut self, wall: Timestamp, target: Timestamp)
        ensures
            *final(self) == old(self).seek_spec(wall.as_millis(), target),
    {
        self.anchor_instant = wall;
        self.anchor_media_time = target;
        self.paused = false;
    }
}

/// Clock monotonicity: while running, the reported position never
/// decreases as the wall clock advances.
pub proof fn lemma_clock_monotonic(c: PlaybackClock, w1: int, w2: int)
    requires
        !c.paused,
        w1 <= w2,
    ensures
        c.now_spec(w1) <= c.now_spec(w2),
{
}

/// Pause freezes: after a pause at `wp`, the clock reports the position it
/// had at `wp`, at every later query instant — the wall clock is ignored.
pub proof fn lemma_pause_freezes(c: PlaybackClock, wp: int, w1: int, w2: int)
    ensures
        c.pause_spec(wp).now_spec(w1) == c.now_spec(wp),
        c.pause_spec(wp).now_spec(w1) == c.pause_spec(wp).now_spec(w2),
{
}

/// Resume continuity: the position right after a resume equals the
/// position right before the preceding pause.
pub proof fn lemma_resume_continuity(c: PlaybackClock, wp: int, wr: int)
    requires
        0 <= wr <= u64::MAX,
    ensures
        c.pause_spec(wp).resume_spec(wr).now_spec(wr) == c.now_spec(wp),
{
}

/// Seek re-anchor: right after a seek to `target`, the clock reports
/// exactly `target`, whatever its prior state.
pub proof fn lemma_seek_reanchors(c: PlaybackClock, ws: int, target: Timestamp)
    requires
        0 <= ws <= u64::MAX,
    ensures
        c.seek_spec(ws, target).now_spec(ws) == target.as_millis(),
{
}

/// Pausing twice, at any two instants, leaves the clock exactly as a
/// single pause at the first instant does.
pub proof fn lemma_pause_idempotent(c: PlaybackClock, w1: int, w2: int)
    ensures
        c.pause_spec(w1).pause_spec(w2) == c.pause_spec(w1),
{
}

/// Resuming twice at the same instant leaves the clock exactly as a
/// single resume does.
pub proof fn lemma_resume_idempotent(c: PlaybackClock, w: int)
    ensures
        c.resume_spec(w).resume_spec(w) == c.resume_spec(w),
{
}

} // verus!
