//! The session controller: the lifecycle of one streaming session as a state machine.
//!
//! The controller never touches the media engine. It hands out one [`Command`] at a time; the
//! caller carries it out and comes back with a [`Report`] of how it went, on which the
//! controller decides what is next. Start-up is the way from [`Session::start`] to the command
//! to await events, running is every event awaited, and teardown is the way from the event
//! that ends the session to [`Command::Finish`].

use vstd::prelude::*;
use crate::error::{
    checked_view, RuntimeFailureView, SessionError, SessionErrorView, TargetState,
};
use crate::event::{
    first_reason, terminal_reason, SessionEvent, SessionEventView, Termination, TerminationView,
};
use crate::format::{FrameFormat, FRAME_BYTES, FRAME_INTERVAL_NANOS};
use crate::pipeline::{
    description_text, lemma_complete, pipeline_description, validate_elements, ResolvedGraph,
    SessionConfig,
};

verus! {

/// Frame intervals that teardown waits for the generator to exit.
pub const JOIN_WAIT_INTERVALS: u64 = 4;

/// Nanoseconds that teardown waits for the generator to exit.
pub const JOIN_WAIT_NANOS: u64 = JOIN_WAIT_INTERVALS * FRAME_INTERVAL_NANOS;

/// The lifecycle state of the graph of a session.
#[derive(Clone, Copy, Debug, PartialEq, Eq, Structural)]
pub enum SessionState {
    /// The graph does not play yet.
    Constructed,
    /// The graph plays.
    Playing,
    /// The graph was stopped after the stream had ended.
    StoppedNormal,
    /// The graph was stopped after an element had failed.
    StoppedError,
}

/// How a session that has nothing left to do came to its end.
#[derive(Clone, Copy, Debug, PartialEq, Eq, Structural)]
pub enum Ending {
    /// Start-up failed, and the graph never played.
    NeverPlayed,
    /// The stream ended and the graph was stopped.
    Normal,
    /// An element failed and the graph was stopped.
    Failed,
}

/// How far a session has come.
#[derive(Debug, PartialEq, Eq)]
pub enum Progress {
    /// The engine is building the graph.
    Building,
    /// The ingestion point is being told the media description.
    Declaring,
    /// The graph is entering the playing state.
    Starting,
    /// The graph plays, and the generator is being spawned.
    Spawning,
    /// The graph plays, and the next event is awaited.
    Running,
    /// An event has ended the session, and the generator is being cancelled.
    Cancelling(Termination),
    /// The generator has exited or was given up on, and the graph is being stopped.
    Stopping { reason: Termination, generator_stuck: bool },
    /// Start-up has failed with the given error, and the graph, which never played, is being
    /// put out of use.
    Releasing(SessionError),
    /// Nothing is left to do.
    Finished(Ending),
}

/// The content of a [`Progress`].
pub enum ProgressView {
    Building,
    Declaring,
    Starting,
    Spawning,
    Running,
    Cancelling(TerminationView),
    Stopping { reason: TerminationView, generator_stuck: bool },
    Releasing(SessionErrorView),
    Finished(Ending),
}

impl View for Progress {
    type V = ProgressView;

    open spec fn view(&self) -> ProgressView {
        match self {
            Progress::Building => ProgressView::Building,
            Progress::Declaring => ProgressView::Declaring,
            Progress::Starting => ProgressView::Starting,
            Progress::Spawning => ProgressView::Spawning,
            Progress::Running => ProgressView::Running,
            Progress::Cancelling(reason) => ProgressView::Cancelling(reason@),
            Progress::Stopping { reason, generator_stuck } => ProgressView::Stopping {
                reason: reason@,
                generator_stuck: *generator_stuck,
            },
            Progress::Releasing(error) => ProgressView::Releasing(error@),
            Progress::Finished(ending) => ProgressView::Finished(*ending),
        }
    }
}

/// What the caller reports back after it has carried out a command.
#[derive(Debug, PartialEq, Eq)]
pub enum Report {
    /// The engine built the graph, and the names resolved as given.
    GraphBuilt(ResolvedGraph),
    /// The engine could not build the graph, for want of the element it names.
    BuildFailed(String),
    /// The ingestion point was told the media description. It expects frames of the given
    /// number of bytes, or has refused the description.
    MediaDeclared { frame_bytes: Option<usize> },
    /// The graph entered the state asked for, or not.
    StateChanged { reached: bool },
    /// The generator runs.
    GeneratorSpawned,
    /// The graph emitted an event.
    Event(SessionEvent),
    /// The graph will emit no further event.
    EventsClosed,
    /// The generator exited within the wait, or not.
    GeneratorJoined { exited: bool },
}

/// The content of a [`Report`].
pub enum ReportView {
    GraphBuilt(ResolvedGraph),
    BuildFailed(Seq<char>),
    MediaDeclared { frame_bytes: Option<usize> },
    StateChanged { reached: bool },
    GeneratorSpawned,
    Event(SessionEventView),
    EventsClosed,
    GeneratorJoined { exited: bool },
}

impl View for Report {
    type V = ReportView;

    open spec fn view(&self) -> ReportView {
        match self {
            Report::GraphBuilt(graph) => ReportView::GraphBuilt(*graph),
            Report::BuildFailed(name) => ReportView::BuildFailed(name@),
            Report::MediaDeclared { frame_bytes } => ReportView::MediaDeclared {
                frame_bytes: *frame_bytes,
            },
            Report::StateChanged { reached } => ReportView::StateChanged { reached: *reached },
            Report::GeneratorSpawned => ReportView::GeneratorSpawned,
            Report::Event(event) => ReportView::Event(event@),
            Report::EventsClosed => ReportView::EventsClosed,
            Report::GeneratorJoined { exited } => ReportView::GeneratorJoined { exited: *exited },
        }
    }
}

/// What a session came to.
#[derive(Debug, PartialEq, Eq)]
pub enum SessionOutcome {
    /// Start-up failed with the given error, and the graph never played.
    NotStarted(SessionError),
    /// The session ran until an event ended it, and was torn down.
    Ended {
        /// Why the event loop returned.
        reason: Termination,
        /// The generator did not exit within the wait.
        generator_stuck: bool,
        /// The graph did not enter the stopped state by itself and was forced to.
        stop_failed: bool,
    },
}

/// The content of a [`SessionOutcome`].
pub enum SessionOutcomeView {
    NotStarted(SessionErrorView),
    Ended { reason: TerminationView, generator_stuck: bool, stop_failed: bool },
}

impl View for SessionOutcome {
    type V = SessionOutcomeView;

    open spec fn view(&self) -> SessionOutcomeView {
        match self {
            SessionOutcome::NotStarted(error) => SessionOutcomeView::NotStarted(error@),
            SessionOutcome::Ended { reason, generator_stuck, stop_failed } => {
                SessionOutcomeView::Ended {
                    reason: reason@,
                    generator_stuck: *generator_stuck,
                    stop_failed: *stop_failed,
                }
            },
        }
    }
}

impl SessionOutcomeView {
    /// The error with which the session is reported to have failed, if it failed: the error
    /// of a start-up that failed; else the failure of the element that ended the run; else,
    /// where the run ended normally, the failure of the graph to stop.
    pub open spec fn error(self) -> Option<SessionErrorView> {
        match self {
            SessionOutcomeView::NotStarted(error) => Some(error),
            SessionOutcomeView::Ended { reason: TerminationView::Failed(failure), .. } => Some(
                SessionErrorView::PipelineRuntimeError(failure),
            ),
            SessionOutcomeView::Ended { reason: TerminationView::Normal, stop_failed, .. } => {
                if stop_failed {
                    Some(SessionErrorView::StateChangeFailure(TargetState::Stopped))
                } else {
                    None
                }
            },
        }
    }
}

impl SessionOutcome {
    /// Turns the outcome into the result that the caller of the session sees.
    pub fn into_result(self) -> (result: Result<(), SessionError>)
        ensures
            checked_view(result) == (match self@.error() {
                Some(error) => Err::<(), SessionErrorView>(error),
                None => Ok(()),
            }),
    {
        match self {
            SessionOutcome::NotStarted(error) => Err(error),
            SessionOutcome::Ended { reason: Termination::Failed(failure), .. } => Err(
                SessionError::PipelineRuntimeError(failure),
            ),
            SessionOutcome::Ended { reason: Termination::Normal, stop_failed, .. } => {
                if stop_failed {
                    Err(SessionError::StateChangeFailure(TargetState::Stopped))
                } else {
                    Ok(())
                }
            },
        }
    }
}

/// What the caller is to do next.
#[derive(Debug, PartialEq, Eq)]
pub enum Command {
    /// Have the engine build the graph that the text describes, and look up its named elements.
    BuildGraph(String),
    /// Tell the ingestion point which media description to expect.
    DeclareMedia(FrameFormat),
    /// Ask the graph to play.
    SetPlaying,
    /// Start the frame generator on an execution unit of its own.
    SpawnGenerator,
    /// Wait for the next event of the graph.
    AwaitEvent,
    /// Set the shutdown signal and wait for the generator to exit, at most as long as given.
    CancelGenerator { wait_nanos: u64 },
    /// Ask the graph to stop, and force it where it does not.
    SetStopped,
    /// Return the outcome; the session is over.
    Finish(SessionOutcome),
}

/// The content of a [`Command`].
pub enum CommandView {
    BuildGraph(Seq<char>),
    DeclareMedia(FrameFormat),
    SetPlaying,
    SpawnGenerator,
    AwaitEvent,
    CancelGenerator { wait_nanos: u64 },
    SetStopped,
    Finish(SessionOutcomeView),
}

impl View for Command {
    type V = CommandView;

    open spec fn view(&self) -> CommandView {
        match self {
            Command::BuildGraph(description) => CommandView::BuildGraph(description@),
            Command::DeclareMedia(format) => CommandView::DeclareMedia(*format),
            Command::SetPlaying => CommandView::SetPlaying,
            Command::SpawnGenerator => CommandView::SpawnGenerator,
            Command::AwaitEvent => CommandView::AwaitEvent,
            Command::CancelGenerator { wait_nanos } => CommandView::CancelGenerator {
                wait_nanos: *wait_nanos,
            },
            Command::SetStopped => CommandView::SetStopped,
            Command::Finish(outcome) => CommandView::Finish(outcome@),
        }
    }
}

/// The content of an optional [`Command`].
pub open spec fn optional_command(command: Option<Command>) -> Option<CommandView> {
    match command {
        Some(inner) => Some(inner@),
        None => None,
    }
}

impl TerminationView {
    /// How a session ends that was torn down for this reason.
    pub open spec fn ending(self) -> Ending {
        match self {
            TerminationView::Normal => Ending::Normal,
            TerminationView::Failed(_) => Ending::Failed,
        }
    }
}

impl ProgressView {
    /// The lifecycle state of the graph at this point of a session.
    pub open spec fn state(self) -> SessionState {
        match self {
            ProgressView::Building => SessionState::Constructed,
            ProgressView::Declaring => SessionState::Constructed,
            ProgressView::Starting => SessionState::Constructed,
            ProgressView::Spawning => SessionState::Playing,
            ProgressView::Running => SessionState::Playing,
            ProgressView::Cancelling(_) => SessionState::Playing,
            ProgressView::Stopping { .. } => SessionState::Playing,
            ProgressView::Releasing(_) => SessionState::Constructed,
            ProgressView::Finished(Ending::NeverPlayed) => SessionState::Constructed,
            ProgressView::Finished(Ending::Normal) => SessionState::StoppedNormal,
            ProgressView::Finished(Ending::Failed) => SessionState::StoppedError,
        }
    }

    /// Where the session goes on `report`, and the command that it gives. A report that does
    /// not answer the command that is being carried out changes nothing and gives no command.
    pub open spec fn next(self, report: ReportView) -> (ProgressView, Option<CommandView>) {
        match (self, report) {
            (ProgressView::Building, ReportView::GraphBuilt(graph)) => match graph.verdict() {
                Ok(_) => (
                    ProgressView::Declaring,
                    Some(CommandView::DeclareMedia(FrameFormat::test_pattern())),
                ),
                Err(error) => released(error),
            },
            (ProgressView::Building, ReportView::BuildFailed(name)) => refused(
                SessionErrorView::MissingElement(name),
            ),
            (ProgressView::Declaring, ReportView::MediaDeclared { frame_bytes }) => if frame_bytes
                == Some(FRAME_BYTES) {
                (ProgressView::Starting, Some(CommandView::SetPlaying))
            } else {
                released(SessionErrorView::CapsNegotiationFailure)
            },
            (ProgressView::Starting, ReportView::StateChanged { reached }) => if reached {
                (ProgressView::Spawning, Some(CommandView::SpawnGenerator))
            } else {
                released(SessionErrorView::StateChangeFailure(TargetState::Playing))
            },
            (ProgressView::Spawning, ReportView::GeneratorSpawned) => (
                ProgressView::Running,
                Some(CommandView::AwaitEvent),
            ),
            (ProgressView::Running, ReportView::Event(event)) => match event.terminal() {
                Some(reason) => (
                    ProgressView::Cancelling(reason),
                    Some(CommandView::CancelGenerator { wait_nanos: JOIN_WAIT_NANOS }),
                ),
                None => (ProgressView::Running, Some(CommandView::AwaitEvent)),
            },
            (ProgressView::Running, ReportView::EventsClosed) => (
                ProgressView::Cancelling(TerminationView::Normal),
                Some(CommandView::CancelGenerator { wait_nanos: JOIN_WAIT_NANOS }),
            ),
            (ProgressView::Cancelling(reason), ReportView::GeneratorJoined { exited }) => (
                ProgressView::Stopping { reason, generator_stuck: !exited },
                Some(CommandView::SetStopped),
            ),
            (
                ProgressView::Stopping { reason, generator_stuck },
                ReportView::StateChanged { reached },
            ) => (
                ProgressView::Finished(reason.ending()),
                Some(
                    CommandView::Finish(
                        SessionOutcomeView::Ended {
                            reason,
                            generator_stuck,
                            stop_failed: !reached,
                        },
                    ),
                ),
            ),
            (ProgressView::Releasing(error), ReportView::StateChanged { reached }) => refused(
                error,
            ),
            _ => (self, None),
        }
    }
}

/// Where a session goes when start-up fails with `error` after the engine has built the
/// graph: the graph is put out of use before anything else.
pub open spec fn released(error: SessionErrorView) -> (ProgressView, Option<CommandView>) {
    (ProgressView::Releasing(error), Some(CommandView::SetStopped))
}

/// Where a session goes when start-up has failed with `error` and no graph is left in use:
/// it is over, and its graph never played.
pub open spec fn refused(error: SessionErrorView) -> (ProgressView, Option<CommandView>) {
    (
        ProgressView::Finished(Ending::NeverPlayed),
        Some(CommandView::Finish(SessionOutcomeView::NotStarted(error))),
    )
}

/// One streaming session.
#[derive(Debug)]
pub struct Session {
    progress: Progress,
}

impl View for Session {
    type V = ProgressView;

    closed spec fn view(&self) -> ProgressView {
        self.progress@
    }
}

impl Session {
    /// Begins a session for `config`: the graph is not built yet, and the first command is to
    /// build it from its description.
    pub fn start(config: &SessionConfig) -> (begun: (Session, Command))
        ensures
            begun.0@ == ProgressView::Building,
            begun.1@ == CommandView::BuildGraph(description_text(config@)),
    {
        (
            Session { progress: Progress::Building },
            Command::BuildGraph(pipeline_description(config)),
        )
    }

    /// Takes the report on the command that was given last and decides how the session goes
    /// on. Returns the session as it is then, and the next command; no command where the
    /// report does not answer the command that was given last.
    pub fn step(self, report: Report) -> (next: (Session, Option<Command>))
        ensures
            (next.0@, optional_command(next.1)) == self@.next(report@),
    {
        match (self.progress, report) {
            (Progress::Building, Report::GraphBuilt(graph)) => match validate_elements(&graph) {
                Ok(_) => (
                    Session { progress: Progress::Declaring },
                    Some(Command::DeclareMedia(FrameFormat::standard())),
                ),
                Err(error) => Session::release(error),
            },
            (Progress::Building, Report::BuildFailed(name)) => Session::refuse(
                SessionError::MissingElement(name),
            ),
            (Progress::Declaring, Report::MediaDeclared { frame_bytes }) => if Session::agreed(
                frame_bytes,
            ) {
                (Session { progress: Progress::Starting }, Some(Command::SetPlaying))
            } else {
                Session::release(SessionError::CapsNegotiationFailure)
            },
            (Progress::Starting, Report::StateChanged { reached }) => if reached {
                (Session { progress: Progress::Spawning }, Some(Command::SpawnGenerator))
            } else {
                Session::release(SessionError::StateChangeFailure(TargetState::Playing))
            },
            (Progress::Spawning, Report::GeneratorSpawned) => (
                Session { progress: Progress::Running },
                Some(Command::AwaitEvent),
            ),
            (Progress::Running, Report::Event(event)) => match terminal_reason(event) {
                Some(reason) => (
                    Session { progress: Progress::Cancelling(reason) },
                    Some(Command::CancelGenerator { wait_nanos: JOIN_WAIT_NANOS }),
                ),
                None => (Session { progress: Progress::Running }, Some(Command::AwaitEvent)),
            },
            (Progress::Running, Report::EventsClosed) => (
                Session { progress: Progress::Cancelling(Termination::Normal) },
                Some(Command::CancelGenerator { wait_nanos: JOIN_WAIT_NANOS }),
            ),
            (Progress::Cancelling(reason), Report::GeneratorJoined { exited }) => (
                Session { progress: Progress::Stopping { reason, generator_stuck: !exited } },
                Some(Command::SetStopped),
            ),
            (
                Progress::Stopping { reason, generator_stuck },
                Report::StateChanged { reached },
            ) => {
                let ending = match reason {
                    Termination::Normal => Ending::Normal,
                    Termination::Failed(_) => Ending::Failed,
                };
                (
                    Session { progress: Progress::Finished(ending) },
                    Some(
                        Command::Finish(
                            SessionOutcome::Ended {
                                reason,
                                generator_stuck,
                                stop_failed: !reached,
                            },
                        ),
                    ),
                )
            },
            (Progress::Releasing(error), Report::StateChanged { reached: _ }) => Session::refuse(
                error,
            ),
            (progress, _) => (Session { progress }, None),
        }
    }

    fn agreed(frame_bytes: Option<usize>) -> (agreed: bool)
        ensures
            agreed == (frame_bytes == Some(FRAME_BYTES)),
    {
        match frame_bytes {
            Some(bytes) => bytes == FRAME_BYTES,
            None => false,
        }
    }

    fn release(error: SessionError) -> (next: (Session, Option<Command>))
        ensures
            (next.0@, optional_command(next.1)) == released(error@),
    {
        (Session { progress: Progress::Releasing(error) }, Some(Command::SetStopped))
    }

    fn refuse(error: SessionError) -> (next: (Session, Option<Command>))
        ensures
            (next.0@, optional_command(next.1)) == refused(error@),
    {
        (
            Session { progress: Progress::Finished(Ending::NeverPlayed) },
            Some(Command::Finish(SessionOutcome::NotStarted(error))),
        )
    }

    /// Returns the lifecycle state of the graph.
    pub fn state(&self) -> (state: SessionState)
        ensures
            state == self@.state(),
    {
        match &self.progress {
            Progress::Building => SessionState::Constructed,
            Progress::Declaring => SessionState::Constructed,
            Progress::Starting => SessionState::Constructed,
            Progress::Spawning => SessionState::Playing,
            Progress::Running => SessionState::Playing,
            Progress::Cancelling(_) => SessionState::Playing,
            Progress::Stopping { .. } => SessionState::Playing,
            Progress::Releasing(_) => SessionState::Constructed,
            Progress::Finished(Ending::NeverPlayed) => SessionState::Constructed,
            Progress::Finished(Ending::Normal) => SessionState::StoppedNormal,
            Progress::Finished(Ending::Failed) => SessionState::StoppedError,
        }
    }

    /// Tells whether the session is over.
    pub fn is_finished(&self) -> (finished: bool)
        ensures
            finished == (self@ is Finished),
    {
        match &self.progress {
            Progress::Finished(_) => true,
            _ => false,
        }
    }

    /// Returns how far the session has come.
    pub fn progress(&self) -> (progress: &Progress)
        ensures
            progress@ == self@,
    {
        &self.progress
    }
}

impl ProgressView {
    /// Where the session is after all of `reports`, in order.
    pub open spec fn after_all(self, reports: Seq<ReportView>) -> ProgressView
        decreases reports.len(),
    {
        if reports.len() == 0 {
            self
        } else {
            self.after_all(reports.drop_last()).next(reports.last()).0
        }
    }

    /// The graph has played at this point of the session, or plays.
    pub open spec fn has_played(self) -> bool {
        self.state() != SessionState::Constructed
    }
}

/// The lifecycle state changes in two ways only: from constructed to playing, and from playing
/// to one of the stopped states. Every other report leaves it as it is.
pub proof fn lemma_transitions_are_legal(progress: ProgressView, report: ReportView)
    ensures
        ({
            let before = progress.state();
            let after = progress.next(report).0.state();
            ||| after == before
            ||| before == SessionState::Constructed && after == SessionState::Playing
            ||| before == SessionState::Playing && after == SessionState::StoppedNormal
            ||| before == SessionState::Playing && after == SessionState::StoppedError
        }),
{
}

/// The graph starts to play on one report only: that it entered the playing state, given
/// while the session was waiting for exactly that. The session waits for it only once the
/// ingestion point has accepted the media description and expects frames of the size that
/// the generator produces, and asks for that only once every named element has resolved.
pub proof fn lemma_playing_needs_full_start_up(progress: ProgressView, report: ReportView)
    ensures
        ({
            let after = progress.next(report).0;
            &&& !progress.has_played() && after.has_played() ==> progress is Starting && report
                == (ReportView::StateChanged { reached: true })
            &&& !(progress is Starting) && after is Starting ==> progress is Declaring && report
                == (ReportView::MediaDeclared { frame_bytes: Some(FRAME_BYTES) })
            &&& !(progress is Declaring) && after is Declaring ==> progress is Building
                && report is GraphBuilt && report->GraphBuilt_0.complete()
        }),
{
    if let ReportView::GraphBuilt(graph) = report {
        lemma_complete(graph);
    }
}

/// Where a named element does not resolve, start-up fails with the missing element's name:
/// the graph is put out of use, the outcome is that error, and the graph never plays,
/// whatever is reported afterwards.
pub proof fn lemma_missing_element_refuses_start(
    graph: ResolvedGraph,
    reached: bool,
    later: Seq<ReportView>,
)
    requires
        !graph.complete(),
    ensures
        graph.first_missing() is Some,
        ({
            let error = SessionErrorView::MissingElement(graph.first_missing()->0.label_text());
            let releasing = ProgressView::Building.next(ReportView::GraphBuilt(graph));
            &&& releasing == released(error)
            &&& releasing.0.next(ReportView::StateChanged { reached }) == refused(error)
            &&& !releasing.0.after_all(later).has_played()
        }),
{
    lemma_complete(graph);
    let error = SessionErrorView::MissingElement(graph.first_missing()->0.label_text());
    lemma_failed_start_never_plays(ProgressView::Releasing(error), later);
}

/// Once start-up has failed, the graph never plays, whatever is reported afterwards.
pub proof fn lemma_failed_start_never_plays(progress: ProgressView, later: Seq<ReportView>)
    requires
        progress is Releasing || progress == ProgressView::Finished(Ending::NeverPlayed),
    ensures
        ({
            let after = progress.after_all(later);
            after == progress || after == ProgressView::Finished(Ending::NeverPlayed)
        }),
        !progress.after_all(later).has_played(),
    decreases later.len(),
{
    if later.len() > 0 {
        lemma_failed_start_never_plays(progress, later.drop_last());
    }
}

/// A session that is over stays as it is and gives no further command: teardown happens once.
pub proof fn lemma_over_is_over(ending: Ending, later: Seq<ReportView>)
    ensures
        ProgressView::Finished(ending).after_all(later) == ProgressView::Finished(ending),
        forall|report: ReportView|
            #[trigger] ProgressView::Finished(ending).next(report) == (
                ProgressView::Finished(ending),
                None::<CommandView>,
            ),
    decreases later.len(),
{
    if later.len() > 0 {
        lemma_over_is_over(ending, later.drop_last());
    }
}

/// An event matters only while the session is running: at every other point it changes
/// nothing and gives no command.
pub proof fn lemma_late_events_change_nothing(progress: ProgressView, event: SessionEventView)
    requires
        !(progress is Running),
    ensures
        progress.next(ReportView::Event(event)) == (progress, None::<CommandView>),
{
}

/// While the session is running, an event that does not end it changes nothing, and the next
/// event is awaited.
pub proof fn lemma_passing_events_keep_running(event: SessionEventView)
    requires
        event.terminal() is None,
    ensures
        ProgressView::Running.next(ReportView::Event(event)) == (
            ProgressView::Running,
            Some(CommandView::AwaitEvent),
        ),
{
}

/// Once an event has ended a running session for `reason`, teardown runs to its end whatever
/// the generator and the graph do: the generator is cancelled, then the graph is stopped, and
/// the outcome carries the reason unchanged, together with what went wrong in teardown. The
/// graph ends stopped, normally for the end of the stream and in error for a failure.
pub proof fn lemma_teardown_always_completes(
    event: SessionEventView,
    exited: bool,
    reached: bool,
)
    requires
        event.terminal() is Some,
    ensures
        ({
            let reason = event.terminal()->0;
            let cancelling = ProgressView::Running.next(ReportView::Event(event));
            let stopping = cancelling.0.next(ReportView::GeneratorJoined { exited });
            let finished = stopping.0.next(ReportView::StateChanged { reached });
            &&& cancelling == (
                ProgressView::Cancelling(reason),
                Some(CommandView::CancelGenerator { wait_nanos: JOIN_WAIT_NANOS }),
            )
            &&& stopping == (
                ProgressView::Stopping { reason, generator_stuck: !exited },
                Some(CommandView::SetStopped),
            )
            &&& finished == (
                ProgressView::Finished(reason.ending()),
                Some(
                    CommandView::Finish(
                        SessionOutcomeView::Ended {
                            reason,
                            generator_stuck: !exited,
                            stop_failed: !reached,
                        },
                    ),
                ),
            )
            &&& finished.0.state() == if reason is Normal {
                SessionState::StoppedNormal
            } else {
                SessionState::StoppedError
            }
        }),
{
}

/// An error event ends a running session as failed, and the outcome names the element that
/// raised the error, with its message and its detail as the event carried them.
pub proof fn lemma_error_event_fails_session(
    failure: RuntimeFailureView,
    exited: bool,
    reached: bool,
)
    ensures
        ProgressView::Running.next(ReportView::Event(SessionEventView::Error(failure))).0.next(
            ReportView::GeneratorJoined { exited },
        ).0.next(ReportView::StateChanged { reached }) == (
            ProgressView::Finished(Ending::Failed),
            Some(
                CommandView::Finish(
                    SessionOutcomeView::Ended {
                        reason: TerminationView::Failed(failure),
                        generator_stuck: !exited,
                        stop_failed: !reached,
                    },
                ),
            ),
        ),
{
}

/// The end of the stream ends a running session normally.
pub proof fn lemma_end_of_stream_ends_session(exited: bool, reached: bool)
    ensures
        ProgressView::Running.next(ReportView::Event(SessionEventView::EndOfStream)).0.next(
            ReportView::GeneratorJoined { exited },
        ).0.next(ReportView::StateChanged { reached }) == (
            ProgressView::Finished(Ending::Normal),
            Some(
                CommandView::Finish(
                    SessionOutcomeView::Ended {
                        reason: TerminationView::Normal,
                        generator_stuck: !exited,
                        stop_failed: !reached,
                    },
                ),
            ),
        ),
{
}

/// A start-up in which every step succeeds leads to a playing graph and to the event loop.
pub proof fn lemma_start_up_reaches_playing(graph: ResolvedGraph)
    requires
        graph.complete(),
    ensures
        ({
            let declaring = ProgressView::Building.next(ReportView::GraphBuilt(graph));
            let starting = declaring.0.next(
                ReportView::MediaDeclared { frame_bytes: Some(FRAME_BYTES) },
            );
            let spawning = starting.0.next(ReportView::StateChanged { reached: true });
            let running = spawning.0.next(ReportView::GeneratorSpawned);
            &&& declaring == (
                ProgressView::Declaring,
                Some(CommandView::DeclareMedia(FrameFormat::test_pattern())),
            )
            &&& starting == (ProgressView::Starting, Some(CommandView::SetPlaying))
            &&& spawning == (ProgressView::Spawning, Some(CommandView::SpawnGenerator))
            &&& running == (ProgressView::Running, Some(CommandView::AwaitEvent))
            &&& spawning.0.state() == SessionState::Playing
        }),
{
    lemma_complete(graph);
}

/// The reports that hand a sequence of events to the session, one report for each event.
pub open spec fn event_reports(events: Seq<SessionEventView>) -> Seq<ReportView> {
    events.map_values(|event: SessionEventView| ReportView::Event(event))
}

/// A running session that is handed a sequence of events does what the event loop does: it
/// goes on running while no event ends it, and the first event that ends it fixes the reason
/// once and for all. Whatever events follow that one change nothing.
pub proof fn lemma_session_follows_event_loop(events: Seq<SessionEventView>)
    ensures
        ProgressView::Running.after_all(event_reports(events)) == (match first_reason(events) {
            Some(reason) => ProgressView::Cancelling(reason),
            None => ProgressView::Running,
        }),
    decreases events.len(),
{
    if events.len() > 0 {
        lemma_session_follows_event_loop(events.drop_last());
        assert(event_reports(events).drop_last() == event_reports(events.drop_last()));
    }
}

} // verus!
