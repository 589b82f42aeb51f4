//! The frame generator: which frame comes next, when the generator stops, and what becomes of
//! a frame that the ingestion point does not take.
//!
//! The generator decides; the thread that runs it pushes the frame it is handed, reports the
//! outcome, and sleeps for the pause it is told.

use vstd::prelude::*;
use crate::error::{optional_error, SessionError, SessionErrorView};
use crate::format::FRAME_INTERVAL_NANOS;
use crate::frame::{frame_at, next_frame, VideoFrame, VideoFrameView};

verus! {

/// What the ingestion point did with a frame.
#[derive(Clone, Copy, Debug, PartialEq, Eq, Structural)]
pub enum PushOutcome {
    /// The frame is on its way through the graph.
    Accepted,
    /// The ingestion point did not take the frame, which is thereby dropped.
    Rejected,
}

impl PushOutcome {
    /// The error that stands for this outcome, if it is one: a rejected push.
    pub open spec fn error_view(self) -> Option<SessionErrorView> {
        match self {
            PushOutcome::Accepted => None,
            PushOutcome::Rejected => Some(SessionErrorView::PushRejected),
        }
    }

    /// Returns the error that stands for this outcome, if it is one. The error is never fatal.
    pub fn error(&self) -> (error: Option<SessionError>)
        ensures
            optional_error(error) == self.error_view(),
            error matches Some(rejected) ==> !rejected@.is_fatal(),
    {
        match self {
            PushOutcome::Accepted => None,
            PushOutcome::Rejected => Some(SessionError::PushRejected),
        }
    }
}

/// The state of a generator.
pub struct GeneratorView {
    /// Index of the frame that is produced next.
    pub next_index: u64,
    /// Frames that the ingestion point took.
    pub delivered: u64,
    /// Frames that the ingestion point rejected.
    pub dropped: u64,
    /// The generator has seen the shutdown signal, or has no index left to hand out.
    pub stopped: bool,
}

impl GeneratorView {
    /// No more frames were reported than were produced.
    pub open spec fn consistent(self) -> bool {
        self.delivered + self.dropped <= self.next_index
    }

    /// Frames that were produced and whose push was not reported yet.
    pub open spec fn outstanding(self) -> int {
        self.next_index - self.delivered - self.dropped
    }

    /// The generator produces no frame when it is polled: it was stopped before, the shutdown
    /// signal is set, or its index stands at the largest value, from which it cannot go on.
    pub open spec fn halts(self, cancelled: bool) -> bool {
        cancelled || self.stopped || self.next_index == u64::MAX
    }

    /// The index of the frame that a poll hands out, if it hands one out.
    pub open spec fn emits(self, cancelled: bool) -> Option<u64> {
        if self.halts(cancelled) {
            None
        } else {
            Some(self.next_index)
        }
    }

    /// The state after a poll: stopped for good where the generator halts, else one frame on.
    pub open spec fn polled(self, cancelled: bool) -> GeneratorView {
        if self.halts(cancelled) {
            GeneratorView { stopped: true, ..self }
        } else {
            GeneratorView { next_index: (self.next_index + 1) as u64, ..self }
        }
    }

    /// The state after the outcome of a push was reported. A report that no outstanding frame
    /// answers for changes nothing.
    pub open spec fn reported(self, outcome: PushOutcome) -> GeneratorView {
        if self.outstanding() <= 0 {
            self
        } else {
            match outcome {
                PushOutcome::Accepted => GeneratorView {
                    delivered: (self.delivered + 1) as u64,
                    ..self
                },
                PushOutcome::Rejected => GeneratorView {
                    dropped: (self.dropped + 1) as u64,
                    ..self
                },
            }
        }
    }
}

/// The content of an optional frame.
pub open spec fn optional_frame(frame: Option<VideoFrame>) -> Option<VideoFrameView> {
    match frame {
        Some(inner) => Some(inner@),
        None => None,
    }
}

/// The frame of an optional index.
pub open spec fn optional_frame_at(index: Option<u64>) -> Option<VideoFrameView> {
    match index {
        Some(inner) => Some(frame_at(inner)),
        None => None,
    }
}

/// Produces the frames of the test pattern one after the other, from index 0 on. It keeps its
/// place in the sequence itself, and counts what became of the frames it handed out.
#[derive(Debug)]
pub struct FrameGenerator {
    next_index: u64,
    delivered: u64,
    dropped: u64,
    stopped: bool,
}

impl View for FrameGenerator {
    type V = GeneratorView;

    closed spec fn view(&self) -> GeneratorView {
        GeneratorView {
            next_index: self.next_index,
            delivered: self.delivered,
            dropped: self.dropped,
            stopped: self.stopped,
        }
    }
}

impl FrameGenerator {
    /// No more frames are counted as delivered or dropped than were produced.
    #[verifier::type_invariant]
    spec fn counts_agree(&self) -> bool {
        self@.consistent()
    }

    /// Returns a generator that has produced nothing yet.
    pub fn new() -> (generator: FrameGenerator)
        ensures
            generator@ == (GeneratorView {
                next_index: 0,
                delivered: 0,
                dropped: 0,
                stopped: false,
            }),
    {
        FrameGenerator { next_index: 0, delivered: 0, dropped: 0, stopped: false }
    }

    /// Asks for the next frame. `cancelled` is the shutdown signal as it stands now. Where it
    /// is set, the generator stops for good and hands out nothing, now and ever after;
    /// otherwise it hands out the frame of the next index.
    pub fn poll(&mut self, cancelled: bool) -> (frame: Option<VideoFrame>)
        ensures
            final(self)@ == old(self)@.polled(cancelled),
            optional_frame(frame) == optional_frame_at(old(self)@.emits(cancelled)),
            final(self)@.consistent(),
    {
        proof {
            use_type_invariant(&*self);
        }
        if cancelled || self.stopped || self.next_index == u64::MAX {
            self.stopped = true;
            None
        } else {
            let frame = next_frame(self.next_index);
            self.next_index = self.next_index + 1;
            Some(frame)
        }
    }

    /// Takes note of what became of the last frame and returns the pause, in nanoseconds,
    /// before the next poll: one frame interval, whether the frame was taken or dropped.
    pub fn record_push(&mut self, outcome: PushOutcome) -> (pause_nanos: u64)
        ensures
            final(self)@ == old(self)@.reported(outcome),
            pause_nanos == FRAME_INTERVAL_NANOS,
            final(self)@.consistent(),
    {
        proof {
            use_type_invariant(&*self);
        }
        if self.delivered + self.dropped < self.next_index {
            match outcome {
                PushOutcome::Accepted => {
                    self.delivered = self.delivered + 1;
                },
                PushOutcome::Rejected => {
                    self.dropped = self.dropped + 1;
                },
            }
        }
        FRAME_INTERVAL_NANOS
    }

    /// Returns the index of the frame that is produced next, which is also the number of
    /// frames produced so far.
    pub fn frames_produced(&self) -> (count: u64)
        ensures
            count == self@.next_index,
    {
        self.next_index
    }

    /// Returns the number of frames that the ingestion point took.
    pub fn frames_delivered(&self) -> (count: u64)
        ensures
            count == self@.delivered,
    {
        self.delivered
    }

    /// Returns the number of frames that the ingestion point rejected.
    pub fn frames_dropped(&self) -> (count: u64)
        ensures
            count == self@.dropped,
    {
        self.dropped
    }

    /// Tells whether the generator has stopped for good.
    pub fn is_stopped(&self) -> (stopped: bool)
        ensures
            stopped == self@.stopped,
    {
        self.stopped
    }
}

/// One thing that happens to a generator.
pub enum GeneratorInput {
    /// It is polled while the shutdown signal stands as given.
    Poll { cancelled: bool },
    /// The outcome of a push is reported to it.
    Report(PushOutcome),
}

impl GeneratorView {
    /// The state after `input`.
    pub open spec fn after(self, input: GeneratorInput) -> GeneratorView {
        match input {
            GeneratorInput::Poll { cancelled } => self.polled(cancelled),
            GeneratorInput::Report(outcome) => self.reported(outcome),
        }
    }

    /// The index handed out on `input`, if any.
    pub open spec fn output(self, input: GeneratorInput) -> Option<u64> {
        match input {
            GeneratorInput::Poll { cancelled } => self.emits(cancelled),
            GeneratorInput::Report(_) => None,
        }
    }

    /// The state after all of `inputs`, in order.
    pub open spec fn after_all(self, inputs: Seq<GeneratorInput>) -> GeneratorView
        decreases inputs.len(),
    {
        if inputs.len() == 0 {
            self
        } else {
            self.after_all(inputs.drop_last()).after(inputs.last())
        }
    }

    /// The indices handed out over all of `inputs`, in order.
    pub open spec fn emitted(self, inputs: Seq<GeneratorInput>) -> Seq<u64>
        decreases inputs.len(),
    {
        if inputs.len() == 0 {
            Seq::empty()
        } else {
            let before = self.emitted(inputs.drop_last());
            match self.after_all(inputs.drop_last()).output(inputs.last()) {
                Some(index) => before.push(index),
                None => before,
            }
        }
    }
}

/// Whatever happens to a generator, its counts stay consistent, a stopped generator stays
/// stopped, and the frames it hands out carry consecutive indices: the first is the index it
/// was at, and each following one is the index before plus one.
pub proof fn lemma_frames_in_order(start: GeneratorView, inputs: Seq<GeneratorInput>)
    requires
        start.consistent(),
    ensures
        start.after_all(inputs).consistent(),
        start.stopped ==> start.after_all(inputs).stopped,
        start.stopped ==> start.emitted(inputs).len() == 0,
        start.after_all(inputs).next_index == start.next_index + start.emitted(inputs).len(),
        forall|k: int|
            0 <= k < start.emitted(inputs).len() ==> #[trigger] start.emitted(inputs)[k]
                == start.next_index + k,
    decreases inputs.len(),
{
    if inputs.len() > 0 {
        lemma_frames_in_order(start, inputs.drop_last());
    }
}

/// Once the shutdown signal was seen, no poll hands out a frame again, whatever the signal
/// says later.
pub proof fn lemma_cancellation_is_final(
    start: GeneratorView,
    inputs: Seq<GeneratorInput>,
    cancelled: bool,
)
    requires
        start.consistent(),
    ensures
        start.polled(true).after_all(inputs).emits(cancelled) is None,
        start.polled(true).emitted(inputs).len() == 0,
{
    lemma_frames_in_order(start.polled(true), inputs);
}

/// A rejected push costs one frame and nothing else: the generator goes on with the index
/// that it would have gone on with had the frame been taken.
pub proof fn lemma_rejection_does_not_stall(start: GeneratorView, cancelled: bool)
    requires
        start.consistent(),
    ensures
        start.reported(PushOutcome::Rejected).emits(cancelled) == start.reported(
            PushOutcome::Accepted,
        ).emits(cancelled),
        start.reported(PushOutcome::Rejected).emits(cancelled) == start.emits(cancelled),
{
}

} // verus!
