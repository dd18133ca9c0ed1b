//! The controller of one run: it builds the graph, starts it, waits for the
//! stream to end or to fail, and tears the graph down.
//!
//! The controller does not touch the graph. It names the next command; the
//! driver performs it on the graph and reports what came of it; the
//! controller then moves on. A report that is no answer to the command in
//! flight is ignored.

use crate::caps::CapabilityDescriptor;
use vstd::prelude::*;
use vstd::string::StringExecFns;

verus! {

/// The lifecycle state of the graph.
#[derive(Clone, Copy, Debug, PartialEq, Eq)]
pub enum GraphState {
    /// Not configured.
    Null,
    /// Resources are allocated.
    Ready,
    /// The format is negotiated; no data flows.
    Paused,
    /// Buffers are produced and consumed.
    Playing,
}

impl GraphState {
    /// The place of the state on the way from `Null` to `Playing`.
    pub open spec fn rank(self) -> nat {
        match self {
            GraphState::Null => 0,
            GraphState::Ready => 1,
            GraphState::Paused => 2,
            GraphState::Playing => 3,
        }
    }

    /// A graph in this state may be asked for `target`: any state further on
    /// the way to `Playing`, or `Null` from any other state.
    pub open spec fn permits_spec(self, target: GraphState) -> bool {
        self.rank() < target.rank() || (target == GraphState::Null && self != GraphState::Null)
    }

    /// Whether a graph in this state may be asked for `target`.
    pub fn permits(&self, target: GraphState) -> (permitted: bool)
        ensures
            permitted == self.permits_spec(target),
    {
        match (*self, target) {
            (GraphState::Null, GraphState::Null) => false,
            (_, GraphState::Null) => true,
            (GraphState::Null, _) => true,
            (GraphState::Ready, GraphState::Paused) => true,
            (GraphState::Ready, GraphState::Playing) => true,
            (GraphState::Paused, GraphState::Playing) => true,
            _ => false,
        }
    }
}

/// The two stages of the graph.
#[derive(Clone, Copy, Debug, PartialEq, Eq)]
pub enum StageKind {
    /// The generator of the synthetic signal.
    Source,
    /// The sink that hands the samples to the application.
    Sink,
}

impl StageKind {
    /// The text of `factory_name`, by kind.
    pub open spec fn factory_name_text(self) -> Seq<char> {
        match self {
            StageKind::Source => "audiotestsrc"@,
            StageKind::Sink => "appsink"@,
        }
    }

    /// The name under which the stage factory knows the stage.
    pub fn factory_name(&self) -> (name: &'static str)
        ensures
            name@ == self.factory_name_text(),
    {
        match self {
            StageKind::Source => "audiotestsrc",
            StageKind::Sink => "appsink",
        }
    }
}

/// The error that ends a stream: where it arose, what it says, and what the
/// stage added for debugging.
#[derive(Debug, PartialEq, Eq)]
pub struct ErrorMessage {
    pub source_path: Option<String>,
    pub message: String,
    pub debug_detail: Option<String>,
}

impl ErrorMessage {
    /// The text of `source_name`: the path, or `None` where there is none.
    pub open spec fn source_text(self) -> Seq<char> {
        match self.source_path {
            Some(path) => path@,
            None => "None"@,
        }
    }

    /// The path of the stage that raised the error, for display.
    pub fn source_name(&self) -> (name: String)
        ensures
            name@ == self.source_text(),
    {
        match &self.source_path {
            Some(path) => path.clone(),
            None => String::from_str("None"),
        }
    }
}

/// What the graph tells on its event channel.
#[derive(Debug, PartialEq, Eq)]
pub enum LifecycleEvent {
    /// The stream ran to its end.
    EndOfStream,
    /// The stream failed.
    Error(ErrorMessage),
    /// Anything else.
    Other,
}

/// Why a run failed.
#[derive(Debug, PartialEq, Eq)]
pub enum Failure {
    /// The stage factory does not know a stage that the graph needs.
    MissingStage(StageKind),
    /// The stages could not be put into the graph.
    AddFailed,
    /// The generator could not be linked to the sink.
    LinkFailed,
    /// The graph refused a change of state.
    StateChange,
    /// The stream failed with this error.
    Stream(ErrorMessage),
}

/// What the driver is to do next.
#[derive(Clone, Copy, Debug, PartialEq, Eq)]
pub enum Command {
    /// Ask the stage factory for a stage.
    CreateStage(StageKind),
    /// Put both stages into the graph.
    AddStages,
    /// Link the generator to the sink.
    LinkStages,
    /// Fix the format on the sink's input and install the delivery callback.
    Configure(CapabilityDescriptor),
    /// Ask the graph for a state.
    SetState(GraphState),
    /// Block until the graph's event channel yields an event or is closed.
    AwaitEvent,
}

impl Command {
    /// Whether `report` can be the answer to this command: an event or the
    /// closing of the channel to `AwaitEvent`, `Done` alone to `Configure`,
    /// which cannot fail, and `Done` or `Failed` to any other.
    pub open spec fn answered_by(self, report: Report) -> bool {
        match self {
            Command::AwaitEvent => report is Event || report is Closed,
            Command::Configure(_) => report is Done,
            _ => report is Done || report is Failed,
        }
    }
}

/// What came of a command.
#[derive(Debug, PartialEq, Eq)]
pub enum Report {
    /// The command was carried out.
    Done,
    /// The command failed.
    Failed,
    /// The event channel yielded an event.
    Event(LifecycleEvent),
    /// The event channel was closed.
    Closed,
}

/// How a run ended.
#[derive(Debug, PartialEq, Eq)]
pub struct Outcome {
    /// Success, or the first failure.
    pub result: Result<(), Failure>,
    /// The state in which the graph was left; `None` if the last change of
    /// state failed, so that the state is not known.
    pub graph: Option<GraphState>,
}

/// A run in progress, named by the command in flight.
#[derive(Debug, PartialEq, Eq)]
pub enum Controller {
    /// The generator is being created.
    CreatingSource,
    /// The sink is being created.
    CreatingSink,
    /// The stages are being put into the graph.
    Adding,
    /// The stages are being linked.
    Linking,
    /// The sink is being configured.
    Configuring,
    /// The graph was asked to play.
    Starting,
    /// The stream runs; the next event is awaited.
    Running,
    /// The graph did not start and is being forced to `Null`.
    Aborting,
    /// The stream is over and the graph is being forced to `Null`; the
    /// error is that of the stream, if it failed.
    Stopping(Option<ErrorMessage>),
}

/// The controller after a report.
#[derive(Debug, PartialEq, Eq)]
pub enum Step {
    /// The run goes on.
    Continue(Controller),
    /// The run is over.
    Finished(Outcome),
}

/// The end of a run whose graph could not be built: the graph never left
/// `Null`.
pub open spec fn build_failed(failure: Failure) -> Step {
    Step::Finished(Outcome { result: Err(failure), graph: Some(GraphState::Null) })
}

/// The end of a run after the graph was asked for `Null`, with `result` the
/// result of the run so far and `done` telling whether the graph obeyed. A
/// graph that did not obey is left in an unknown state, and that is the
/// failure of the run unless it had failed before.
pub open spec fn torn_down(result: Result<(), Failure>, done: bool) -> Outcome {
    if done {
        Outcome { result, graph: Some(GraphState::Null) }
    } else {
        Outcome {
            result: match result {
                Ok(_) => Err(Failure::StateChange),
                Err(first) => Err(first),
            },
            graph: None,
        }
    }
}

impl Controller {
    /// The command in flight.
    pub open spec fn command_spec(self) -> Command {
        match self {
            Controller::CreatingSource => Command::CreateStage(StageKind::Source),
            Controller::CreatingSink => Command::CreateStage(StageKind::Sink),
            Controller::Adding => Command::AddStages,
            Controller::Linking => Command::LinkStages,
            Controller::Configuring => Command::Configure(CapabilityDescriptor::sink_format_spec()),
            Controller::Starting => Command::SetState(GraphState::Playing),
            Controller::Running => Command::AwaitEvent,
            Controller::Aborting => Command::SetState(GraphState::Null),
            Controller::Stopping(_) => Command::SetState(GraphState::Null),
        }
    }

    /// The state of the graph while the command is in flight; `None` if a
    /// change of state has failed.
    pub open spec fn graph_spec(self) -> Option<GraphState> {
        match self {
            Controller::Running => Some(GraphState::Playing),
            Controller::Stopping(_) => Some(GraphState::Playing),
            Controller::Aborting => None,
            _ => Some(GraphState::Null),
        }
    }

    /// The number of steps that lie behind the controller.
    pub open spec fn progress(self) -> nat {
        match self {
            Controller::CreatingSource => 0,
            Controller::CreatingSink => 1,
            Controller::Adding => 2,
            Controller::Linking => 3,
            Controller::Configuring => 4,
            Controller::Starting => 5,
            Controller::Running => 6,
            Controller::Aborting => 7,
            Controller::Stopping(_) => 7,
        }
    }

    /// Whether the graph is still being built.
    pub open spec fn building(self) -> bool {
        self.progress() < Controller::Starting.progress()
    }

    /// The controller after the step in flight of building the graph is
    /// done.
    pub open spec fn built_further(self) -> Controller {
        match self {
            Controller::CreatingSource => Controller::CreatingSink,
            Controller::CreatingSink => Controller::Adding,
            Controller::Adding => Controller::Linking,
            Controller::Linking => Controller::Configuring,
            _ => Controller::Starting,
        }
    }

    /// The failure of the run if the step in flight of building the graph
    /// fails.
    pub open spec fn build_failure(self) -> Failure {
        match self {
            Controller::CreatingSource => Failure::MissingStage(StageKind::Source),
            Controller::CreatingSink => Failure::MissingStage(StageKind::Sink),
            Controller::Adding => Failure::AddFailed,
            _ => Failure::LinkFailed,
        }
    }

    /// The controller after `report`.
    ///
    /// A report that cannot answer the command in flight changes nothing.
    /// While the graph is built, each step done leads to the next, and a
    /// failure ends the run with the graph untouched. A graph that does not
    /// start is forced to `Null`. While the stream runs, its end and the
    /// closing of the channel lead to teardown, an error leads to teardown
    /// with that error kept, and any other event is ignored. After
    /// teardown the run is over; a failed teardown is the failure of the run
    /// only if there was none before.
    pub open spec fn next(self, report: Report) -> Step {
        if !self.command_spec().answered_by(report) {
            Step::Continue(self)
        } else if self.building() {
            if report is Done {
                Step::Continue(self.built_further())
            } else {
                build_failed(self.build_failure())
            }
        } else {
            match self {
                Controller::Starting => Step::Continue(
                    if report is Done {
                        Controller::Running
                    } else {
                        Controller::Aborting
                    },
                ),
                Controller::Running => match report {
                    Report::Event(LifecycleEvent::Other) => Step::Continue(self),
                    Report::Event(LifecycleEvent::Error(error)) => Step::Continue(
                        Controller::Stopping(Some(error)),
                    ),
                    _ => Step::Continue(Controller::Stopping(None)),
                },
                Controller::Stopping(Some(error)) => Step::Finished(
                    torn_down(Err(Failure::Stream(error)), report is Done),
                ),
                Controller::Stopping(None) => Step::Finished(torn_down(Ok(()), report is Done)),
                _ => Step::Finished(torn_down(Err(Failure::StateChange), report is Done)),
            }
        }
    }

    /// Starts a run: nothing is built yet, and the generator comes first.
    pub fn begin() -> (controller: Controller)
        ensures
            controller == Controller::CreatingSource,
    {
        Controller::CreatingSource
    }

    /// The command that the driver is to perform now.
    pub fn command(&self) -> (command: Command)
        ensures
            command == self.command_spec(),
    {
        match self {
            Controller::CreatingSource => Command::CreateStage(StageKind::Source),
            Controller::CreatingSink => Command::CreateStage(StageKind::Sink),
            Controller::Adding => Command::AddStages,
            Controller::Linking => Command::LinkStages,
            Controller::Configuring => Command::Configure(CapabilityDescriptor::sink_format()),
            Controller::Starting => Command::SetState(GraphState::Playing),
            Controller::Running => Command::AwaitEvent,
            Controller::Aborting => Command::SetState(GraphState::Null),
            Controller::Stopping(_) => Command::SetState(GraphState::Null),
        }
    }

    /// The state that the graph is in, as far as the controller knows.
    pub fn graph_state(&self) -> (state: Option<GraphState>)
        ensures
            state == self.graph_spec(),
    {
        match self {
            Controller::Running => Some(GraphState::Playing),
            Controller::Stopping(_) => Some(GraphState::Playing),
            Controller::Aborting => None,
            _ => Some(GraphState::Null),
        }
    }

    /// Takes the report on the command in flight and moves on.
    pub fn step(self, report: Report) -> (step: Step)
        ensures
            step == self.next(report),
    {
        match self {
            Controller::CreatingSource => match report {
                Report::Done => Step::Continue(Controller::CreatingSink),
                Report::Failed => build_failure(Failure::MissingStage(StageKind::Source)),
                _ => Step::Continue(Controller::CreatingSource),
            },
            Controller::CreatingSink => match report {
                Report::Done => Step::Continue(Controller::Adding),
                Report::Failed => build_failure(Failure::MissingStage(StageKind::Sink)),
                _ => Step::Continue(Controller::CreatingSink),
            },
            Controller::Adding => match report {
                Report::Done => Step::Continue(Controller::Linking),
                Report::Failed => build_failure(Failure::AddFailed),
                _ => Step::Continue(Controller::Adding),
            },
            Controller::Linking => match report {
                Report::Done => Step::Continue(Controller::Configuring),
                Report::Failed => build_failure(Failure::LinkFailed),
                _ => Step::Continue(Controller::Linking),
            },
            Controller::Configuring => match report {
                Report::Done => Step::Continue(Controller::Starting),
                _ => Step::Continue(Controller::Configuring),
            },
            Controller::Starting => match report {
                Report::Done => Step::Continue(Controller::Running),
                Report::Failed => Step::Continue(Controller::Aborting),
                _ => Step::Continue(Controller::Starting),
            },
            Controller::Running => match report {
                Report::Event(LifecycleEvent::EndOfStream) => Step::Continue(
                    Controller::Stopping(None),
                ),
                Report::Closed => Step::Continue(Controller::Stopping(None)),
                Report::Event(LifecycleEvent::Error(error)) => Step::Continue(
                    Controller::Stopping(Some(error)),
                ),
                _ => Step::Continue(Controller::Running),
            },
            Controller::Aborting => match report {
                Report::Done => Step::Finished(tear_down(Err(Failure::StateChange), true)),
                Report::Failed => Step::Finished(tear_down(Err(Failure::StateChange), false)),
                _ => Step::Continue(Controller::Aborting),
            },
            Controller::Stopping(pending) => match report {
                Report::Done => Step::Finished(tear_down(stream_result(pending), true)),
                Report::Failed => Step::Finished(tear_down(stream_result(pending), false)),
                _ => Step::Continue(Controller::Stopping(pending)),
            },
        }
    }
}

/// Ends a run whose graph could not be built.
fn build_failure(failure: Failure) -> (step: Step)
    ensures
        step == build_failed(failure),
{
    Step::Finished(Outcome { result: Err(failure), graph: Some(GraphState::Null) })
}

/// The result of a stream that ended cleanly or with an error.
fn stream_result(pending: Option<ErrorMessage>) -> (result: Result<(), Failure>)
    ensures
        result == match pending {
            None => Ok::<(), Failure>(()),
            Some(error) => Err(Failure::Stream(error)),
        },
{
    match pending {
        None => Ok(()),
        Some(error) => Err(Failure::Stream(error)),
    }
}

/// Ends a run after the graph was asked for `Null`, with or without success.
fn tear_down(result: Result<(), Failure>, done: bool) -> (outcome: Outcome)
    ensures
        outcome == torn_down(result, done),
{
    if done {
        Outcome { result, graph: Some(GraphState::Null) }
    } else {
        let result = match result {
            Ok(_) => Err(Failure::StateChange),
            Err(first) => Err(first),
        };
        Outcome { result, graph: None }
    }
}

/// While the graph is being built nothing asks it to change state. If the
/// stage factory does not know a stage, the run ends at once with that stage
/// named as missing and the graph still in `Null`.
pub proof fn law_missing_stage_ends_run(kind: StageKind)
    ensures
        ({
            let creating = match kind {
                StageKind::Source => Controller::CreatingSource,
                StageKind::Sink => Controller::CreatingSink,
            };
            &&& creating.command_spec() == Command::CreateStage(kind)
            &&& creating.next(Report::Failed) == Step::Finished(
                Outcome {
                    result: Err(Failure::MissingStage(kind)),
                    graph: Some(GraphState::Null),
                },
            )
        }),
        forall|controller: Controller| #[trigger]
            controller.building() ==> {
                &&& !(controller.command_spec() is SetState)
                &&& controller.graph_spec() == Some(GraphState::Null)
            },
{
}

/// When the stream runs to its end, or the event channel is closed, the
/// graph is asked for `Null`, and once it obeys the run ends in success.
/// However a run got there, if it ends in success the graph is in `Null`.
pub proof fn law_success_leaves_null(controller: Controller, report: Report)
    ensures
        Controller::Running.next(Report::Event(LifecycleEvent::EndOfStream)) == Step::Continue(
            Controller::Stopping(None),
        ),
        Controller::Running.next(Report::Closed) == Step::Continue(Controller::Stopping(None)),
        Controller::Stopping(None).command_spec() == Command::SetState(GraphState::Null),
        Controller::Stopping(None).next(Report::Done) == Step::Finished(
            Outcome { result: Ok(()), graph: Some(GraphState::Null) },
        ),
        controller.next(report) matches Step::Finished(outcome) ==> (outcome.result is Ok
            ==> outcome.graph == Some(GraphState::Null)),
{
}

/// An error event on a running stream makes the controller ask the graph
/// for `Null` and then end the run with that very error, whether or not
/// the graph obeys. If it obeys, the graph is left in `Null`.
pub proof fn law_stream_error_is_returned(error: ErrorMessage, obeyed: bool)
    ensures
        ({
            let stopping = Controller::Stopping(Some(error));
            let report = if obeyed {
                Report::Done
            } else {
                Report::Failed
            };
            &&& Controller::Running.next(Report::Event(LifecycleEvent::Error(error)))
                == Step::Continue(stopping)
            &&& stopping.command_spec() == Command::SetState(GraphState::Null)
            &&& stopping.next(report) == Step::Finished(
                Outcome {
                    result: Err(Failure::Stream(error)),
                    graph: if obeyed {
                        Some(GraphState::Null)
                    } else {
                        None
                    },
                },
            )
        }),
{
}

/// A report either leaves the controller as it is, or moves it forward, or
/// ends the run: no step leads back.
pub proof fn law_steps_lead_forward(controller: Controller, report: Report)
    ensures
        controller.next(report) matches Step::Continue(after) ==> after == controller
            || after.progress() > controller.progress(),
{
}

/// A report that cannot be the answer to the command in flight leaves the
/// controller as it is. A report that can moves it, unless it is an event
/// that is neither the end of the stream nor an error.
pub proof fn law_only_answers_move_the_run(controller: Controller, report: Report)
    ensures
        !controller.command_spec().answered_by(report) ==> controller.next(report)
            == Step::Continue(controller),
        controller.command_spec().answered_by(report) && report != Report::Event(
            LifecycleEvent::Other,
        ) ==> controller.next(report) != Step::Continue(controller),
{
}

/// Every change of state that the controller asks for is one that the graph
/// permits in the state it is in; of a graph in an unknown state only `Null`
/// is asked.
pub proof fn law_state_changes_are_permitted(controller: Controller)
    ensures
        controller.command_spec() matches Command::SetState(target) ==> match controller.graph_spec(
        ) {
            Some(state) => state.permits_spec(target),
            None => target == GraphState::Null,
        },
{
}

/// A run can end in an unknown state of the graph only after the graph
/// failed to obey the last command that asked it for `Null`.
pub proof fn law_graph_is_left_in_null(controller: Controller, report: Report)
    ensures
        controller.next(report) matches Step::Finished(outcome) ==> {
            ||| outcome.graph == Some(GraphState::Null)
            ||| outcome.graph is None && report is Failed && controller.command_spec()
                == Command::SetState(GraphState::Null) && outcome.result is Err
        },
{
}

} // verus!
