//! The events that a running graph emits, and the loop that watches them until one ends the
//! session.

use vstd::prelude::*;
use crate::error::{optional_text, RuntimeFailure, RuntimeFailureView};

verus! {

/// One notification from the graph.
#[derive(Debug, PartialEq, Eq)]
pub enum SessionEvent {
    /// The stream has run to its end.
    EndOfStream,
    /// An element raised an error.
    Error { source_path: String, message: String, debug_detail: Option<String> },
    /// A status notice that calls for nothing.
    StatusInfo,
    /// Any other notification.
    Other,
}

/// The content of a [`SessionEvent`].
pub enum SessionEventView {
    EndOfStream,
    Error(RuntimeFailureView),
    StatusInfo,
    Other,
}

/// Why the event loop returned.
#[derive(Debug, PartialEq, Eq)]
pub enum Termination {
    /// The stream ended.
    Normal,
    /// An element failed.
    Failed(RuntimeFailure),
}

/// The content of a [`Termination`].
pub enum TerminationView {
    Normal,
    Failed(RuntimeFailureView),
}

impl View for SessionEvent {
    type V = SessionEventView;

    open spec fn view(&self) -> SessionEventView {
        match self {
            SessionEvent::EndOfStream => SessionEventView::EndOfStream,
            SessionEvent::Error { source_path, message, debug_detail } => SessionEventView::Error(
                RuntimeFailureView {
                    source_path: source_path@,
                    message: message@,
                    debug_detail: optional_text(*debug_detail),
                },
            ),
            SessionEvent::StatusInfo => SessionEventView::StatusInfo,
            SessionEvent::Other => SessionEventView::Other,
        }
    }
}

impl View for Termination {
    type V = TerminationView;

    open spec fn view(&self) -> TerminationView {
        match self {
            Termination::Normal => TerminationView::Normal,
            Termination::Failed(failure) => TerminationView::Failed(failure@),
        }
    }
}

/// The content of an optional [`Termination`].
pub open spec fn optional_termination(reason: Option<Termination>) -> Option<TerminationView> {
    match reason {
        Some(inner) => Some(inner@),
        None => None,
    }
}

impl SessionEventView {
    /// The reason for which this event ends the session, if it ends it: the end of the stream
    /// ends it normally, an error ends it with what the element reported, and nothing else
    /// ends it.
    pub open spec fn terminal(self) -> Option<TerminationView> {
        match self {
            SessionEventView::EndOfStream => Some(TerminationView::Normal),
            SessionEventView::Error(failure) => Some(TerminationView::Failed(failure)),
            SessionEventView::StatusInfo => None,
            SessionEventView::Other => None,
        }
    }
}

/// Decides what one event means for the session: the reason to end it, or nothing.
pub fn terminal_reason(event: SessionEvent) -> (reason: Option<Termination>)
    ensures
        optional_termination(reason) == event@.terminal(),
{
    match event {
        SessionEvent::EndOfStream => Some(Termination::Normal),
        SessionEvent::Error { source_path, message, debug_detail } => Some(
            Termination::Failed(RuntimeFailure { source_path, message, debug_detail }),
        ),
        SessionEvent::StatusInfo => None,
        SessionEvent::Other => None,
    }
}

/// What the event loop has to say once it has returned.
#[derive(Debug, PartialEq, Eq)]
pub struct LoopOutcome {
    /// Why the loop returned, or nothing where the events ran out first.
    pub reason: Option<Termination>,
    /// How many events the loop took, the one that ended it included.
    pub consumed: usize,
}

/// The contents of a sequence of events.
pub open spec fn event_views(events: Seq<SessionEvent>) -> Seq<SessionEventView> {
    events.map_values(|event: SessionEvent| event@)
}

/// The reason that the first event of `events` to end the session gives, or nothing where
/// none of them ends it.
pub open spec fn first_reason(events: Seq<SessionEventView>) -> Option<TerminationView>
    decreases events.len(),
{
    if events.len() == 0 {
        None
    } else {
        match first_reason(events.drop_last()) {
            Some(reason) => Some(reason),
            None => events.last().terminal(),
        }
    }
}

/// The number of events up to and with the first that ends the session, or the number of
/// all of them where none ends it.
pub open spec fn events_taken(events: Seq<SessionEventView>) -> nat
    decreases events.len(),
{
    if events.len() == 0 {
        0
    } else if first_reason(events.drop_last()) is Some {
        events_taken(events.drop_last())
    } else {
        events.len()
    }
}

/// Takes the events in order up to the first that ends the session and returns the reason
/// that it gives. Later events are never looked at.
pub fn run_event_loop(events: Vec<SessionEvent>) -> (outcome: LoopOutcome)
    ensures
        optional_termination(outcome.reason) == first_reason(event_views(events@)),
        outcome.consumed == events_taken(event_views(events@)),
{
    let ghost all = event_views(events@);
    let total = events.len();
    let mut consumed: usize = 0;
    for event in pending: events.into_iter()
        invariant
            event_views(pending.seq()) == all,
            all.len() == total,
            consumed == pending.index(),
            first_reason(all.take(consumed as int)) is None,
            events_taken(all.take(consumed as int)) == consumed,
    {
        proof {
            assert(all.take(consumed + 1).drop_last() == all.take(consumed as int));
        }
        consumed += 1;
        match terminal_reason(event) {
            Some(reason) => {
                proof {
                    lemma_decided_prefix(all, consumed as int);
                }
                return LoopOutcome { reason: Some(reason), consumed };
            },
            None => {},
        }
    }
    assert(all.take(consumed as int) == all);
    LoopOutcome { reason: None, consumed }
}

/// Once a prefix of the events holds one that ends the session, nothing that follows changes
/// the reason or the number of events taken.
pub proof fn lemma_decided_prefix(events: Seq<SessionEventView>, count: int)
    requires
        0 <= count <= events.len(),
        first_reason(events.take(count)) is Some,
    ensures
        first_reason(events) == first_reason(events.take(count)),
        events_taken(events) == events_taken(events.take(count)),
    decreases events.len() - count,
{
    if count == events.len() {
        assert(events.take(count) == events);
    } else {
        assert(events.take(count + 1).drop_last() == events.take(count));
        lemma_decided_prefix(events, count + 1);
    }
}

/// The reason that the event loop returns is that of an event before which no event ends
/// the session, and the loop takes the events up to that one and no further. Where it returns
/// no reason, no event ends the session, and the loop has taken them all.
pub proof fn lemma_first_terminal_event_decides(events: Seq<SessionEventView>)
    ensures
        events_taken(events) <= events.len(),
        first_reason(events) is Some ==> events_taken(events) >= 1,
        first_reason(events) is Some ==> events[events_taken(events) - 1].terminal()
            == first_reason(events),
        first_reason(events) is None ==> events_taken(events) == events.len(),
        forall|i: int|
            0 <= i < events_taken(events) - (if first_reason(events) is Some {
                1int
            } else {
                0int
            }) ==> (#[trigger] events[i]).terminal() is None,
    decreases events.len(),
{
    if events.len() > 0 {
        let shorter = events.drop_last();
        lemma_first_terminal_event_decides(shorter);
        let passing = events_taken(events) - (if first_reason(events) is Some {
            1int
        } else {
            0int
        });
        assert forall|i: int| 0 <= i < passing implies (#[trigger] events[i]).terminal()
            is None by {
            if i < shorter.len() {
                assert(events[i] == shorter[i]);
            }
        }
    }
}

} // verus!
