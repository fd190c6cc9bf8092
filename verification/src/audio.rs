use vstd::prelude::*;

use crate::timestamp::Timestamp;
use crate::transport::{Action, Transport};
use vstd::pervasive::VecAdditionalExecFns;

verus! {

/// What one fill step asks the caller to do next.
#[derive(Clone, Copy, Debug, PartialEq, Eq, Structural)]
pub enum FillStatus {
    /// The requested span is complete; the callback may return.
    Done,
    /// The cursor is empty and the span is not full: pull one decoded
    /// audio frame and hand it to `set_frame`, or report the failure
    /// with `on_decode_failure`, then step again.
    NeedFrame,
}

/// The mathematical model of the renderer state: the mute flag, the bytes
/// of the buffered decoded frame, and how many of them are already spent.
#[verifier::ext_equal]
pub struct StreamModel {
    /// Whether the fill path writes silence.
    pub paused: bool,
    /// The bytes of the partially consumed decoded frame, if one is held.
    pub frame: Option<Seq<u8>>,
    /// How many bytes of `frame` have been emitted.
    pub index: int,
}

impl StreamModel {
    /// The cursor is well formed: the spent count stays inside the held
    /// frame, and is zero when no frame is held.
    pub open spec fn wf(self) -> bool {
        match self.frame {
            Some(f) => 0 <= self.index < f.len(),
            None => self.index == 0,
        }
    }
}

/// `out` with every byte from `pos` on replaced by silence.
pub open spec fn zero_fill(out: Seq<u8>, pos: int) -> Seq<u8> {
    Seq::new(out.len(), |i: int| if i < pos { out[i] } else { 0u8 })
}

/// The smaller of two counts.
pub open spec fn min_int(a: int, b: int) -> int {
    if a <= b {
        a
    } else {
        b
    }
}

/// One step of the fill path on the span `out`, whose bytes up to `pos`
/// are already written. Returns the new renderer state, the new span
/// contents, the new write position, and what the caller must do next.
///
/// Muted: the rest of the span becomes silence and the step is the whole
/// remaining fill. Otherwise the step copies from the buffered frame,
/// releasing it exactly when its last byte is emitted, or asks for a
/// frame when none is buffered.
pub open spec fn fill_step_spec(m: StreamModel, out: Seq<u8>, pos: int) -> (
    StreamModel,
    Seq<u8>,
    int,
    FillStatus,
) {
    if m.paused {
        (m, zero_fill(out, pos), out.len() as int, FillStatus::Done)
    } else {
        match m.frame {
            None => (m, out, pos, FillStatus::NeedFrame),
            Some(f) => {
                if pos == out.len() {
                    (m, out, pos, FillStatus::Done)
                } else {
                    let k = min_int(out.len() - pos, f.len() - m.index);
                    let written = Seq::new(
                        out.len(),
                        |i: int|
                            if pos <= i < pos + k {
                                f[m.index + (i - pos)]
                            } else {
                                out[i]
                            },
                    );
                    let next = if m.index + k == f.len() {
                        StreamModel { paused: false, frame: None, index: 0 }
                    } else {
                        StreamModel { paused: false, frame: Some(f), index: m.index + k }
                    };
                    let status = if pos + k == out.len() {
                        FillStatus::Done
                    } else {
                        FillStatus::NeedFrame
                    };
                    (next, written, pos + k, status)
                }
            },
        }
    }
}

/// The audio render path's replica of the transport state, kept
/// convergent with the control thread's by applying the same command
/// stream, plus the cursor over the buffered decoded audio frame.
///
/// The real-time callback drives it without ever blocking: it drains
/// pending commands through `apply_action`, then alternates `fill_step`
/// with decoder pulls until the span is full.
pub struct StreamState {
    /// The mute mirror of the transport's pause state: while set, the
    /// fill path writes silence.
    pub paused: bool,
    /// The partially consumed decoded audio frame, if one is buffered.
    pub current_frame: Option<Vec<u8>>,
    /// How many bytes of `current_frame` are already emitted.
    pub frame_data_index: usize,
}

impl View for StreamState {
    type V = StreamModel;

    open spec fn view(&self) -> StreamModel {
        StreamModel {
            paused: self.paused,
            frame: match self.current_frame {
                Some(f) => Some(f@),
                None => None,
            },
            index: self.frame_data_index as int,
        }
    }
}

impl StreamState {
    /// A fresh renderer: unmuted, with no buffered frame.
    pub fn new() -> (r: Self)
        ensures
            r@ == (StreamModel { paused: false, frame: None, index: 0 }),
    {
        StreamState { paused: false, current_frame: None, frame_data_index: 0 }
    }

    /// Whether the fill path currently writes silence.
    pub fn muted(&self) -> (r: bool)
        ensures
            r == self@.paused,
    {
        self.paused
    }

    /// The renderer after one command: `Pause` mutes, `Resume` unmutes,
    /// `Seek` unmutes and drops any buffered partial frame, `Resize` is
    /// not for this side. The second component is the position the caller
    /// must seek-and-flush its decoder to, if the command was a seek.
    pub open spec fn apply_action_spec(m: StreamModel, action: Action) -> (
        StreamModel,
        Option<Timestamp>,
    ) {
        match action {
            Action::Pause => (StreamModel { paused: true, frame: m.frame, index: m.index }, None),
            Action::Resume => (StreamModel { paused: false, frame: m.frame, index: m.index }, None),
            Action::Seek(target) => (
                StreamModel { paused: false, frame: None, index: 0 },
                Some(target),
            ),
            Action::Resize(_, _) => (m, None),
        }
    }

    /// Apply one drained command to the replica. Returns the seek target
    /// the caller must re-anchor its decoder to, if the command was a
    /// seek.
    pub fn apply_action(&mut self, action: Action) -> (r: Option<Timestamp>)
        requires
            old(self)@.wf(),
        ensures
            final(self)@ == Self::apply_action_spec(old(self)@, action).0,
            r == Self::apply_action_spec(old(self)@, action).1,
            final(self)@.wf(),
    {
        match action {
            Action::Pause => {
                self.paused = true;
                None
            },
            Action::Resume => {
                self.paused = false;
                None
            },
            Action::Seek(target) => {
                self.paused = false;
                self.current_frame = None;
                self.frame_data_index = 0;
                Some(target)
            },
            Action::Resize(_, _) => None,
        }
    }

    /// Buffer one freshly decoded audio frame; the cursor starts at its
    /// first byte. A decoded frame is never empty.
    pub fn set_frame(&mut self, data: Vec<u8>)
        requires
            old(self)@.wf(),
            data.len() > 0,
        ensures
            final(self)@ == (StreamModel { paused: old(self)@.paused, frame: Some(data@), index: 0 }),
            final(self)@.wf(),
    {
        self.current_frame = Some(data);
        self.frame_data_index = 0;
    }

    /// Record that a decoder pull failed (end of stream or decode error):
    /// the renderer mutes itself, so this and every later invocation
    /// write silence until a `Resume` or `Seek` command clears the flag.
    pub fn on_decode_failure(&mut self)
        ensures
            final(self)@ == (StreamModel {
                paused: true,
                frame: old(self)@.frame,
                index: old(self)@.index,
            }),
    {
        self.paused = true;
    }

    /// One non-blocking step of the fill path on `out`, whose bytes up to
    /// `pos` are already written in this invocation. Exactly the model
    /// transition `fill_step_spec`: silence for the whole rest of the
    /// span when muted, otherwise a bulk copy out of the buffered frame,
    /// which is released precisely when its last byte is emitted.
    pub fn fill_step(&mut self, out: &mut Vec<u8>, pos: usize) -> (r: (usize, FillStatus))
        requires
            old(self)@.wf(),
            pos <= old(out).len(),
        ensures
            final(self)@ == fill_step_spec(old(self)@, old(out)@, pos as int).0,
            final(out)@ == fill_step_spec(old(self)@, old(out)@, pos as int).1,
            r.0 == fill_step_spec(old(self)@, old(out)@, pos as int).2,
            r.1 == fill_step_spec(old(self)@, old(out)@, pos as int).3,
            final(self)@.wf(),
            r.0 <= final(out).len(),
            final(out).len() == old(out).len(),
    {
        if self.paused {
            let mut i = pos;
            while i < out.len()
                invariant
                    pos <= i <= out.len(),
                    out@.len() == old(out)@.len(),
                    forall|j: int| 0 <= j < pos ==> out@[j] == old(out)@[j],
                    forall|j: int| pos <= j < i ==> out@[j] == 0u8,
                    forall|j: int| i <= j < out@.len() ==> out@[j] == old(out)@[j],
                decreases out@.len() - i,
            {
                out.set(i, 0u8);
                i = i + 1;
            }
            proof {
                assert(out@ =~= zero_fill(old(out)@, pos as int));
            }
            return (out.len(), FillStatus::Done);
        }
        if self.current_frame.is_none() {
            return (pos, FillStatus::NeedFrame);
        }
        if pos == out.len() {
            return (pos, FillStatus::Done);
        }
        let ghost m0 = self@;
        let ghost f = m0.frame.unwrap();
        let ghost idx0 = m0.index;
        let flen = match &self.current_frame {
            Some(frame) => frame.len(),
            None => 0,
        };
        let mut i = pos;
        while i < out.len() && self.frame_data_index < flen
            invariant
                pos <= i <= out.len(),
                out@.len() == old(out)@.len(),
                pos < out@.len(),
                !self.paused,
                self.current_frame matches Some(frame) && frame@ == f,
                flen == f.len(),
                idx0 + (i - pos) == self.frame_data_index,
                self.frame_data_index <= flen,
                0 <= idx0 < flen,
                forall|j: int| 0 <= j < pos ==> out@[j] == old(out)@[j],
                forall|j: int| pos <= j < i ==> out@[j] == f[idx0 + (j - pos)],
                forall|j: int| i <= j < out@.len() ==> out@[j] == old(out)@[j],
            decreases out@.len() - i,
        {
            let b = match &self.current_frame {
                Some(frame) => frame[self.frame_data_index],
                None => 0,
            };
            out.set(i, b);
            self.frame_data_index = self.frame_data_index + 1;
            i = i + 1;
        }
        proof {
            assert(i - pos == min_int(old(out)@.len() - pos as int, f.len() - idx0));
            assert(out@ =~= fill_step_spec(m0, old(out)@, pos as int).1);
        }
        if self.frame_data_index == flen {
            self.current_frame = None;
            self.frame_data_index = 0;
        }
        let status = if i == out.len() {
            FillStatus::Done
        } else {
            FillStatus::NeedFrame
        };
        (i, status)
    }
}

/// Mute fill correctness: one step of a muted renderer writes silence
/// across the full requested span, leaves the span's length and the
/// renderer untouched, completes the invocation, and does this for spans
/// of every size.
pub proof fn lemma_mute_fills_silence(m: StreamModel, out: Seq<u8>)
    requires
        m.paused,
    ensures
        ({
            let (m2, written, p2, status) = fill_step_spec(m, out, 0);
            &&& written.len() == out.len()
            &&& forall|i: int| 0 <= i < written.len() ==> written[i] == 0u8
            &&& p2 == out.len()
            &&& status is Done
            &&& m2 == m
        }),
{
    assert forall|i: int| 0 <= i < out.len() implies zero_fill(out, 0)[i] == 0u8 by {}
}

/// Command idempotence under burst, renderer side: a doubled `Pause` or a
/// doubled `Resume` leaves the replica exactly as the single command does.
pub proof fn lemma_renderer_burst_idempotent(m: StreamModel)
    ensures
        StreamState::apply_action_spec(
            StreamState::apply_action_spec(m, Action::Pause).0,
            Action::Pause,
        ) == StreamState::apply_action_spec(m, Action::Pause),
        StreamState::apply_action_spec(
            StreamState::apply_action_spec(m, Action::Resume).0,
            Action::Resume,
        ) == StreamState::apply_action_spec(m, Action::Resume),
{
}

/// The transport's pause state and the renderer's mute flag are separate
/// replicas, kept convergent only by delivering every command to both:
/// if they agree before a command, they agree after it, whatever the
/// command and whatever wall instant the transport applies it at. So
/// they agree after any command sequence delivered to both.
pub proof fn lemma_replicas_converge(t: Transport, m: StreamModel, action: Action, wall: int)
    requires
        (t.state is Paused) == m.paused,
    ensures
        (t.apply_action_spec(action, wall).state is Paused) == StreamState::apply_action_spec(
            m,
            action,
        ).0.paused,
{
}

/// Partial-frame cursor: a buffered frame of `f.len()` bytes served
/// through a first request of `a.len()` bytes (smaller than the frame)
/// and a second of `b.len()` bytes (together at least the frame) is
/// emitted exactly once, in order, with no byte skipped or duplicated;
/// the cursor spans the two requests and the frame is released precisely
/// when its last byte goes out.
pub proof fn lemma_partial_frame_cursor(f: Seq<u8>, a: Seq<u8>, b: Seq<u8>)
    requires
        0 < a.len() < f.len(),
        f.len() <= a.len() + b.len(),
    ensures
        ({
            let m0 = StreamModel { paused: false, frame: Some(f), index: 0 };
            let (m1, out1, p1, st1) = fill_step_spec(m0, a, 0);
            let (m2, out2, p2, st2) = fill_step_spec(m1, b, 0);
            let rest = f.len() - a.len();
            &&& m1 == (StreamModel { paused: false, frame: Some(f), index: a.len() as int })
            &&& out1 == f.take(a.len() as int)
            &&& p1 == a.len() && st1 is Done
            &&& m2 == (StreamModel { paused: false, frame: None, index: 0 })
            &&& out2.take(rest) == f.skip(a.len() as int)
            &&& (forall|i: int| rest <= i < b.len() ==> out2[i] == b[i])
            &&& p2 == rest
            &&& out1 + out2.take(rest) == f
        }),
{
    let m0 = StreamModel { paused: false, frame: Some(f), index: 0 };
    let (m1, out1, p1, st1) = fill_step_spec(m0, a, 0);
    let (m2, out2, p2, st2) = fill_step_spec(m1, b, 0);
    let rest = f.len() - a.len();
    assert(m1 =~= StreamModel { paused: false, frame: Some(f), index: a.len() as int });
    assert(out1 =~= f.take(a.len() as int));
    assert(m2 =~= StreamModel { paused: false, frame: None, index: 0 });
    assert(out2.take(rest) =~= f.skip(a.len() as int));
    assert(out1 + out2.take(rest) =~= f);
}

} // verus!
