//! The pipeline graph as a state machine: what the engine is asked to do in
//! each state, and where each of its answers leads.
//!
//! The graph goes from `Empty` through `Assembling` to `Assembled`, and from
//! there through `Playing` to `Stopped`. A failure while assembling ends in
//! `Failed`. While assembling or playing, exactly one engine call is pending;
//! the answer to it decides the next state.

use vstd::prelude::*;

use crate::util::DecoderOptions;
use crate::video::gst::factory::{assemble, has_mapping, sink_stages, source_stages};
use crate::video::gst::ErrorModel;
use crate::video::stage::StageModel;
use crate::video::VideoInputModel;

verus! {

/// How far the assembly of the graph has come.
#[derive(Copy, Clone, Debug, PartialEq, Eq, Structural)]
pub enum AssemblyStep {
    /// The engine is being initialised.
    Initializing,
    /// The stage at this position is being created.
    Instantiating(usize),
    /// The stages are being registered with the graph.
    Registering,
    /// The stage at this position is being connected to the next one.
    Linking(usize),
}

/// How far the playback of the graph has come.
#[derive(Copy, Clone, Debug, PartialEq, Eq, Structural)]
pub enum PlaybackStep {
    /// The engine is being asked to play.
    Starting,
    /// The event stream is being asked for.
    AcquiringBus,
    /// Events are being consumed.
    Streaming,
    /// The engine is being asked to go idle right after an error event.
    Aborting,
    /// The engine is being asked to go idle, as the last act of playback.
    Stopping,
}

/// The lifecycle state of the graph.
#[derive(Copy, Clone, Debug, PartialEq, Eq, Structural)]
pub enum GraphState {
    /// Nothing has been assembled yet.
    Empty,
    /// The stages are being created and connected.
    Assembling(AssemblyStep),
    /// Every stage is created and every adjacent pair is connected.
    Assembled,
    /// The graph is being played.
    Playing(PlaybackStep),
    /// Playback is over.
    Stopped,
    /// Assembly failed; the graph is unusable.
    Failed,
}

/// The run state that the graph was last driven to.
#[derive(Copy, Clone, Debug, PartialEq, Eq, Structural)]
pub enum RunState {
    /// The engine holds no resources for this graph.
    Idle,
    /// The engine runs the graph.
    Playing,
}

/// One call that the graph asks the engine to perform.
#[derive(Copy, Clone, Debug, PartialEq, Eq, Structural)]
pub enum EngineCall {
    /// Initialise the engine. Safe to perform more than once.
    Initialize,
    /// Create the stage at this position from its descriptor.
    Instantiate(usize),
    /// Add every stage to the engine's graph.
    Register,
    /// Connect the output of the first stage to the input of the second.
    Link(usize, usize),
    /// Watch the first stage for outputs that appear while it runs, to be
    /// connected to the input of the second as they appear; and bring the
    /// first stage to the state of the graph it is in.
    DeferLink(usize, usize),
    /// Bring the graph to the playing state.
    SetPlaying,
    /// Obtain the event stream of the graph.
    AcquireBus,
    /// Wait for the next event on the event stream, however long it takes.
    AwaitEvent,
    /// Bring the graph to the idle state.
    SetIdle,
}

/// A connection between two adjacent stages.
#[derive(Copy, Clone, Debug, PartialEq, Eq, Structural)]
pub struct StageLink {
    /// Position of the stage whose output is connected.
    pub from: usize,
    /// Position of the stage whose input is connected.
    pub to: usize,
    /// Whether the connection is made only when the output appears.
    pub deferred: bool,
}

/// An event on the engine's event stream.
#[derive(Debug, PartialEq, Eq)]
pub enum BusEvent {
    /// The stream has been played to its end.
    EndOfStream,
    /// A stage reported an error.
    Error { stage: String, message: String },
    /// The event stream was shut down; no further event will come.
    Closed,
    /// Any other event.
    Other,
}

/// Mathematical value of a [`BusEvent`].
pub enum BusEventModel {
    EndOfStream,
    Error { stage: Seq<char>, message: Seq<char> },
    Closed,
    Other,
}

impl View for BusEvent {
    type V = BusEventModel;

    open spec fn view(&self) -> BusEventModel {
        match self {
            BusEvent::EndOfStream => BusEventModel::EndOfStream,
            BusEvent::Error { stage, message } => BusEventModel::Error {
                stage: stage@,
                message: message@,
            },
            BusEvent::Closed => BusEventModel::Closed,
            BusEvent::Other => BusEventModel::Other,
        }
    }
}

/// What the engine answered to the pending call.
#[derive(Debug, PartialEq, Eq)]
pub enum EngineReply {
    /// The call succeeded.
    Done,
    /// The call failed; holds the engine's message.
    Failed(String),
    /// An event arrived on the event stream.
    Event(BusEvent),
}

/// Mathematical value of an [`EngineReply`].
pub enum ReplyModel {
    Done,
    Failed(Seq<char>),
    Event(BusEventModel),
}

impl View for EngineReply {
    type V = ReplyModel;

    open spec fn view(&self) -> ReplyModel {
        match self {
            EngineReply::Done => ReplyModel::Done,
            EngineReply::Failed(text) => ReplyModel::Failed(text@),
            EngineReply::Event(event) => ReplyModel::Event(event@),
        }
    }
}

/// The text of the error that an error event leads to: the failing stage,
/// then the engine's message.
pub open spec fn stream_error_text(stage: Seq<char>, message: Seq<char>) -> Seq<char> {
    stage + ": "@ + message
}

/// Mathematical value of the pipeline graph.
#[verifier::ext_equal]
pub struct GraphModel {
    /// The stages at the head of the pipeline.
    pub source: Seq<StageModel>,
    /// The stages at the tail of the pipeline.
    pub sink: Seq<StageModel>,
    /// All stages in source-to-sink order; empty until assembly begins.
    pub stages: Seq<StageModel>,
    /// The lifecycle state.
    pub state: GraphState,
    /// The run state that the graph was last driven to.
    pub run_state: RunState,
    /// The connections made so far, in the order they were made.
    pub links: Seq<StageLink>,
    /// The first error that was recorded, if any.
    pub failure: Option<ErrorModel>,
}

impl GraphModel {
    /// The graph before anything is assembled.
    pub open spec fn initial(input: VideoInputModel) -> GraphModel {
        GraphModel {
            source: source_stages(input),
            sink: sink_stages(),
            stages: Seq::empty(),
            state: GraphState::Empty,
            run_state: RunState::Idle,
            links: Seq::empty(),
            failure: None,
        }
    }

    /// The connection that starts at position `i`: to the next stage, and
    /// deferred exactly when the stage at `i` is the demultiplexer.
    pub open spec fn link_at(self, i: int) -> StageLink {
        StageLink { from: i as usize, to: (i + 1) as usize, deferred: self.stages[i].is_demux() }
    }

    /// The validity of a graph: its connections are those of the first
    /// adjacent pairs, in order, and as many as its state says.
    pub open spec fn wf(self) -> bool {
        &&& self.stages.len() <= usize::MAX
        &&& forall|j: int|
            0 <= j < self.links.len() ==> j + 1 < self.stages.len() && #[trigger] self.links[j]
                == self.link_at(j)
        &&& self.run_state == RunState::Playing ==> (self.state matches GraphState::Playing(step)
            && step != PlaybackStep::Starting)
        &&& match self.state {
            GraphState::Empty => self.stages.len() == 0 && self.links.len() == 0,
            GraphState::Assembling(AssemblyStep::Initializing) => self.stages.len() >= 2
                && self.links.len() == 0,
            GraphState::Assembling(AssemblyStep::Instantiating(i)) => self.stages.len() >= 2 && i
                < self.stages.len() && self.links.len() == 0,
            GraphState::Assembling(AssemblyStep::Registering) => self.stages.len() >= 2
                && self.links.len() == 0,
            GraphState::Assembling(AssemblyStep::Linking(i)) => i + 1 < self.stages.len()
                && self.links.len() == i,
            GraphState::Assembled => self.links.len() + 1 == self.stages.len(),
            GraphState::Playing(_) => self.links.len() + 1 == self.stages.len(),
            GraphState::Stopped => self.links.len() + 1 == self.stages.len(),
            GraphState::Failed => self.failure is Some,
        }
    }

    /// The same graph in another state.
    pub open spec fn at(self, state: GraphState) -> GraphModel {
        GraphModel { state, ..self }
    }

    /// The error that stands after `error` was met: the one recorded
    /// before, if there is one, else `error`.
    pub open spec fn first_error(self, error: ErrorModel) -> ErrorModel {
        match self.failure {
            Some(first) => first,
            None => error,
        }
    }

    /// The same graph after `error` was met.
    pub open spec fn note(self, error: ErrorModel) -> GraphModel {
        GraphModel { failure: Some(self.first_error(error)), ..self }
    }

    /// The graph after `build` was called on it with `opts`: its stages are
    /// laid out from source to sink and its assembly begins. A format
    /// without a mapping fails the graph at once, with no stage laid out.
    pub open spec fn begin_build(self, opts: DecoderOptions) -> GraphModel {
        if has_mapping(opts.format) {
            GraphModel {
                stages: assemble(self.source, opts, self.sink),
                state: GraphState::Assembling(AssemblyStep::Initializing),
                ..self
            }
        } else {
            self.note(ErrorModel::UnsupportedFormat).at(GraphState::Failed)
        }
    }

    /// The graph after `run` was called on it: playback begins if the graph
    /// is assembled, and nothing changes if it is not.
    pub open spec fn begin_run(self) -> GraphModel {
        if self.state == GraphState::Assembled {
            self.at(GraphState::Playing(PlaybackStep::Starting))
        } else {
            self
        }
    }

    /// The call that the engine is asked to perform next, if any.
    pub open spec fn pending(self) -> Option<EngineCall> {
        match self.state {
            GraphState::Assembling(AssemblyStep::Initializing) => Some(EngineCall::Initialize),
            GraphState::Assembling(AssemblyStep::Instantiating(i)) => Some(
                EngineCall::Instantiate(i),
            ),
            GraphState::Assembling(AssemblyStep::Registering) => Some(EngineCall::Register),
            GraphState::Assembling(AssemblyStep::Linking(i)) => Some(
                if self.stages[i as int].is_demux() {
                    EngineCall::DeferLink(i, (i + 1) as usize)
                } else {
                    EngineCall::Link(i, (i + 1) as usize)
                },
            ),
            GraphState::Playing(PlaybackStep::Starting) => Some(EngineCall::SetPlaying),
            GraphState::Playing(PlaybackStep::AcquiringBus) => Some(EngineCall::AcquireBus),
            GraphState::Playing(PlaybackStep::Streaming) => Some(EngineCall::AwaitEvent),
            GraphState::Playing(PlaybackStep::Aborting) => Some(EngineCall::SetIdle),
            GraphState::Playing(PlaybackStep::Stopping) => Some(EngineCall::SetIdle),
            _ => None,
        }
    }

    /// The error that a failure of the pending assembly call stands for.
    pub open spec fn assembly_error(self, step: AssemblyStep, text: Seq<char>) -> ErrorModel {
        match step {
            AssemblyStep::Initializing => ErrorModel::Glib(text),
            AssemblyStep::Instantiating(i) => ErrorModel::EngineInstantiationFailed(
                self.stages[i as int].kind,
            ),
            AssemblyStep::Registering => ErrorModel::GlibBool(text),
            AssemblyStep::Linking(i) => if self.stages[i as int].is_demux() {
                ErrorModel::GlibBool(text)
            } else {
                ErrorModel::StageLinkFailed(i, (i + 1) as usize)
            },
        }
    }

    /// The graph after the engine answered the pending assembly call.
    /// Success moves on to the next call, in order: initialise, create each
    /// stage, register, connect each adjacent pair. The first failure ends
    /// the assembly; nothing made before it is undone.
    pub open spec fn assembly_step(self, step: AssemblyStep, reply: ReplyModel) -> GraphModel {
        match reply {
            ReplyModel::Event(_) => self,
            ReplyModel::Failed(text) => self.note(self.assembly_error(step, text)).at(
                GraphState::Failed,
            ),
            ReplyModel::Done => match step {
                AssemblyStep::Initializing => self.at(
                    GraphState::Assembling(AssemblyStep::Instantiating(0)),
                ),
                AssemblyStep::Instantiating(i) => if i + 1 < self.stages.len() {
                    self.at(GraphState::Assembling(AssemblyStep::Instantiating((i + 1) as usize)))
                } else {
                    self.at(GraphState::Assembling(AssemblyStep::Registering))
                },
                AssemblyStep::Registering => self.at(
                    GraphState::Assembling(AssemblyStep::Linking(0)),
                ),
                AssemblyStep::Linking(i) => GraphModel {
                    links: self.links.push(self.link_at(i as int)),
                    state: if i + 2 < self.stages.len() {
                        GraphState::Assembling(AssemblyStep::Linking((i + 1) as usize))
                    } else {
                        GraphState::Assembled
                    },
                    ..self
                },
            },
        }
    }

    /// The graph after the engine answered the pending playback call.
    ///
    /// A refused start ends playback before any event is consumed, and so
    /// does a graph without an event stream. While streaming, the end of the
    /// stream or its shutdown stops the graph; an error event is recorded
    /// and the graph is brought idle at once, then stopped; any other event
    /// is passed over, unless an error was recorded meanwhile, which stops
    /// the graph. Whichever way playback ends, its last call is the one
    /// that brings the graph idle, whatever the engine made of the calls
    /// before it.
    pub open spec fn playback_step(self, step: PlaybackStep, reply: ReplyModel) -> GraphModel {
        match step {
            PlaybackStep::Starting => match reply {
                ReplyModel::Done => GraphModel {
                    state: GraphState::Playing(PlaybackStep::AcquiringBus),
                    run_state: RunState::Playing,
                    ..self
                },
                ReplyModel::Failed(_) => self.note(ErrorModel::PipelineStateChangeFailed).at(
                    GraphState::Playing(PlaybackStep::Stopping),
                ),
                ReplyModel::Event(_) => self,
            },
            PlaybackStep::AcquiringBus => match reply {
                ReplyModel::Done => self.at(GraphState::Playing(PlaybackStep::Streaming)),
                ReplyModel::Failed(_) => self.note(ErrorModel::BusUnavailable).at(
                    GraphState::Playing(PlaybackStep::Stopping),
                ),
                ReplyModel::Event(_) => self,
            },
            PlaybackStep::Streaming => match reply {
                ReplyModel::Event(BusEventModel::EndOfStream) => self.at(
                    GraphState::Playing(PlaybackStep::Stopping),
                ),
                ReplyModel::Event(BusEventModel::Closed) => self.at(
                    GraphState::Playing(PlaybackStep::Stopping),
                ),
                ReplyModel::Event(BusEventModel::Error { stage, message }) => self.note(
                    ErrorModel::Glib(stream_error_text(stage, message)),
                ).at(GraphState::Playing(PlaybackStep::Aborting)),
                ReplyModel::Event(BusEventModel::Other) => if self.failure is Some {
                    self.at(GraphState::Playing(PlaybackStep::Stopping))
                } else {
                    self
                },
                _ => self,
            },
            PlaybackStep::Aborting => match reply {
                ReplyModel::Done => GraphModel {
                    state: GraphState::Playing(PlaybackStep::Stopping),
                    run_state: RunState::Idle,
                    ..self
                },
                ReplyModel::Failed(_) => GraphModel {
                    state: GraphState::Playing(PlaybackStep::Stopping),
                    run_state: RunState::Idle,
                    ..self.note(ErrorModel::PipelineStateChangeFailed)
                },
                ReplyModel::Event(_) => self,
            },
            PlaybackStep::Stopping => match reply {
                ReplyModel::Done => GraphModel {
                    state: GraphState::Stopped,
                    run_state: RunState::Idle,
                    ..self
                },
                ReplyModel::Failed(_) => GraphModel {
                    state: GraphState::Stopped,
                    run_state: RunState::Idle,
                    ..self.note(ErrorModel::PipelineStateChangeFailed)
                },
                ReplyModel::Event(_) => self,
            },
        }
    }

    /// The graph after the engine answered the pending call. An answer that
    /// comes when no call is pending changes nothing.
    pub open spec fn step(self, reply: ReplyModel) -> GraphModel {
        match self.state {
            GraphState::Assembling(step) => self.assembly_step(step, reply),
            GraphState::Playing(step) => self.playback_step(step, reply),
            _ => self,
        }
    }

    /// The graph after the engine gave these answers, one after the other.
    pub open spec fn steps(self, replies: Seq<ReplyModel>) -> GraphModel
        decreases replies.len(),
    {
        if replies.len() == 0 {
            self
        } else {
            self.steps(replies.drop_last()).step(replies.last())
        }
    }

    /// The graph after the demultiplexer showed a new output and the engine
    /// was asked to connect it: a refused connection is recorded as an error.
    pub open spec fn pad_added(self, linked: bool) -> GraphModel {
        if linked {
            self
        } else {
            self.note(ErrorModel::DemuxLinkFailed)
        }
    }

    /// The graph after the demultiplexer showed these outputs, one after the
    /// other.
    pub open spec fn pads_added(self, linked: Seq<bool>) -> GraphModel
        decreases linked.len(),
    {
        if linked.len() == 0 {
            self
        } else {
            self.pads_added(linked.drop_last()).pad_added(linked.last())
        }
    }

    /// What the work on the graph has come to: the first error recorded, or
    /// success if there is none.
    pub open spec fn outcome(self) -> Result<(), ErrorModel> {
        match self.failure {
            Some(error) => Err(error),
            None => Ok(()),
        }
    }
}

/// A graph is valid before anything is assembled.
pub proof fn lemma_initial_wf(input: VideoInputModel)
    ensures
        GraphModel::initial(input).wf(),
{
}

/// Beginning the assembly of an empty, valid graph gives a valid graph.
pub proof fn lemma_begin_build_wf(graph: GraphModel, opts: DecoderOptions)
    requires
        graph.wf(),
        graph.state == GraphState::Empty,
        assemble(graph.source, opts, graph.sink).len() <= usize::MAX,
    ensures
        graph.begin_build(opts).wf(),
{
}

/// Every answer of the engine takes a valid graph to a valid graph.
pub proof fn lemma_step_wf(graph: GraphModel, reply: ReplyModel)
    requires
        graph.wf(),
    ensures
        graph.step(reply).wf(),
{
}

/// Any run of answers takes a valid graph to a valid graph.
pub proof fn lemma_steps_wf(graph: GraphModel, replies: Seq<ReplyModel>)
    requires
        graph.wf(),
    ensures
        graph.steps(replies).wf(),
    decreases replies.len(),
{
    if replies.len() > 0 {
        lemma_steps_wf(graph, replies.drop_last());
        lemma_step_wf(graph.steps(replies.drop_last()), replies.last());
    }
}

/// Linking goes in order and stops at the first failure. When the
/// connection that starts at position `i` fails, the connections made are
/// exactly those of the pairs before it, none is undone, and the graph is
/// failed.
pub proof fn lemma_link_failure(graph: GraphModel, i: usize, text: Seq<char>)
    requires
        graph.wf(),
        graph.state == GraphState::Assembling(AssemblyStep::Linking(i)),
    ensures
        graph.pending() == Some(
            if graph.stages[i as int].is_demux() {
                EngineCall::DeferLink(i, (i + 1) as usize)
            } else {
                EngineCall::Link(i, (i + 1) as usize)
            },
        ),
        graph.step(ReplyModel::Failed(text)).state == GraphState::Failed,
        graph.step(ReplyModel::Failed(text)).links == graph.links,
        graph.links.len() == i,
        forall|j: int| 0 <= j < i ==> #[trigger] graph.links[j] == graph.link_at(j),
        graph.failure is None && !graph.stages[i as int].is_demux() ==> graph.step(
            ReplyModel::Failed(text),
        ).failure == Some(ErrorModel::StageLinkFailed(i, (i + 1) as usize)),
{
}

/// Between the end of a successful assembly and the end of playback, every
/// adjacent pair of stages is connected: deferred where the first of the two
/// is the demultiplexer, at once everywhere else.
pub proof fn lemma_assembled_is_linked(graph: GraphModel)
    requires
        graph.wf(),
        graph.state == GraphState::Assembled || graph.state is Playing || graph.state
            == GraphState::Stopped,
    ensures
        graph.links.len() + 1 == graph.stages.len(),
        forall|j: int|
            0 <= j < graph.links.len() ==> {
                &&& (#[trigger] graph.links[j]).from == j
                &&& graph.links[j].to == j + 1
                &&& graph.links[j].deferred == graph.stages[j].is_demux()
            },
{
    assert forall|j: int| 0 <= j < graph.links.len() implies {
        &&& (#[trigger] graph.links[j]).from == j
        &&& graph.links[j].to == j + 1
        &&& graph.links[j].deferred == graph.stages[j].is_demux()
    } by {
        assert(graph.links[j] == graph.link_at(j));
    }
}

/// As many answers of success as `count`.
pub open spec fn all_done(count: nat) -> Seq<ReplyModel> {
    Seq::new(count, |i: int| ReplyModel::Done)
}

/// The state of an assembly of `stages` stages after `count` calls that all
/// succeeded: one call initialises the engine, one call per stage creates
/// it, one call registers the stages, one call per adjacent pair connects
/// it.
pub open spec fn assembly_state_after(stages: nat, count: nat) -> GraphState {
    if count == 0 {
        GraphState::Assembling(AssemblyStep::Initializing)
    } else if count <= stages {
        GraphState::Assembling(AssemblyStep::Instantiating((count - 1) as usize))
    } else if count == stages + 1 {
        GraphState::Assembling(AssemblyStep::Registering)
    } else if count <= 2 * stages {
        GraphState::Assembling(AssemblyStep::Linking((count - stages - 2) as usize))
    } else {
        GraphState::Assembled
    }
}

/// While the engine succeeds at every call, the assembly goes through its
/// calls in order and changes nothing but the state and the connections.
pub proof fn lemma_assembly_progress(graph: GraphModel, count: nat)
    requires
        graph.wf(),
        graph.state == GraphState::Assembling(AssemblyStep::Initializing),
    ensures
        graph.steps(all_done(count)).wf(),
        graph.steps(all_done(count)).state == assembly_state_after(graph.stages.len(), count),
        graph.steps(all_done(count)).stages == graph.stages,
        graph.steps(all_done(count)).failure == graph.failure,
        graph.steps(all_done(count)).run_state == graph.run_state,
    decreases count,
{
    lemma_steps_wf(graph, all_done(count));
    if count > 0 {
        let before = (count - 1) as nat;
        assert(all_done(count).drop_last() =~= all_done(before));
        assert(all_done(count).last() == ReplyModel::Done);
        lemma_assembly_progress(graph, before);
    }
}

/// When the engine succeeds at every call, the assembly of `n` stages is
/// over after `2n + 1` calls: the graph is assembled, no error is recorded,
/// every adjacent pair is connected, and nothing more is asked of the
/// engine until the graph is run.
pub proof fn lemma_assembly_completes(graph: GraphModel)
    requires
        graph.wf(),
        graph.state == GraphState::Assembling(AssemblyStep::Initializing),
    ensures
        ({
            let after = graph.steps(all_done(2 * graph.stages.len() + 1));
            &&& after.state == GraphState::Assembled
            &&& after.pending() is None
            &&& after.stages == graph.stages
            &&& after.failure == graph.failure
            &&& after.links.len() + 1 == graph.stages.len()
            &&& forall|j: int|
                0 <= j < after.links.len() ==> #[trigger] after.links[j] == graph.link_at(j)
        }),
{
    lemma_assembly_progress(graph, 2 * graph.stages.len() + 1);
}

/// A playback that meets no failure ends stopped and idle, with success:
/// the engine starts, hands out its event stream, passes any number of
/// events that are passed over, reaches the end of the stream and goes idle.
pub proof fn lemma_playback_completes(graph: GraphModel, others: nat)
    requires
        graph.wf(),
        graph.state == GraphState::Assembled,
        graph.failure is None,
    ensures
        ({
            let streaming = graph.begin_run().step(ReplyModel::Done).step(ReplyModel::Done);
            let after = streaming.steps(
                Seq::new(others, |i: int| ReplyModel::Event(BusEventModel::Other)),
            ).step(ReplyModel::Event(BusEventModel::EndOfStream)).step(ReplyModel::Done);
            &&& streaming.pending() == Some(EngineCall::AwaitEvent)
            &&& after.state == GraphState::Stopped
            &&& after.run_state == RunState::Idle
            &&& after.outcome() is Ok
            &&& after.links == graph.links
        }),
{
    let streaming = graph.begin_run().step(ReplyModel::Done).step(ReplyModel::Done);
    lemma_passed_over(streaming, others);
}

/// Events that are passed over leave a streaming graph as it is, as long as
/// no error is recorded.
pub proof fn lemma_passed_over(graph: GraphModel, others: nat)
    requires
        graph.state == GraphState::Playing(PlaybackStep::Streaming),
        graph.failure is None,
    ensures
        graph.steps(Seq::new(others, |i: int| ReplyModel::Event(BusEventModel::Other))) == graph,
    decreases others,
{
    if others > 0 {
        let events = Seq::new(others, |i: int| ReplyModel::Event(BusEventModel::Other));
        let before = Seq::new((others - 1) as nat, |i: int| ReplyModel::Event(BusEventModel::Other));
        assert(events.drop_last() =~= before);
        lemma_passed_over(graph, (others - 1) as nat);
    }
}

/// A failed graph stays failed: no answer of the engine, no output of the
/// demultiplexer and no call of `run` brings it to another state, and it
/// asks nothing more of the engine.
pub proof fn lemma_failed_is_final(graph: GraphModel, replies: Seq<ReplyModel>, linked: Seq<bool>)
    requires
        graph.state == GraphState::Failed,
    ensures
        graph.pending() is None,
        graph.steps(replies) == graph,
        graph.begin_run() == graph,
        graph.pads_added(linked).state == GraphState::Failed,
    decreases replies.len(), linked.len(),
{
    if replies.len() > 0 {
        lemma_failed_is_final(graph, replies.drop_last(), Seq::empty());
    }
    if linked.len() > 0 {
        lemma_failed_is_final(graph, Seq::empty(), linked.drop_last());
    }
}

/// The graph never becomes assembled other than by the success of its last
/// connection.
pub proof fn lemma_assembled_only_by_last_link(graph: GraphModel, reply: ReplyModel)
    requires
        graph.wf(),
        graph.state != GraphState::Assembled,
        graph.step(reply).state == GraphState::Assembled,
    ensures
        reply == ReplyModel::Done,
        graph.state == GraphState::Assembling(
            AssemblyStep::Linking((graph.stages.len() - 2) as usize),
        ),
        graph.step(reply).links.len() + 1 == graph.stages.len(),
{
}

/// No output of the demultiplexer is dropped in silence: each one is either
/// connected, which changes nothing, or leaves an error recorded. After any
/// number of outputs, the graph is free of errors only if it was so before
/// and every output was connected.
pub proof fn lemma_no_track_dropped(graph: GraphModel, linked: Seq<bool>)
    ensures
        graph.pads_added(linked).failure is None <==> (graph.failure is None && forall|i: int|
            0 <= i < linked.len() ==> linked[i]),
        graph.failure is None && graph.pads_added(linked).failure is Some ==> graph.pads_added(
            linked,
        ).failure == Some(ErrorModel::DemuxLinkFailed),
        graph.pads_added(linked) == (GraphModel {
            failure: graph.pads_added(linked).failure,
            ..graph
        }),
    decreases linked.len(),
{
    if linked.len() > 0 {
        let before = linked.drop_last();
        lemma_no_track_dropped(graph, before);
        assert(forall|i: int| 0 <= i < before.len() ==> before[i] == linked[i]);
        if graph.failure is None && (forall|i: int| 0 <= i < linked.len() ==> linked[i]) {
            assert(linked.last());
        }
    }
}

/// Whenever the graph asks nothing of the engine, its run state is idle.
/// This holds after every run of answers, whichever way playback ended: at
/// the end of the stream, on an error, or on a refused start.
pub proof fn lemma_idle_when_done(graph: GraphModel, replies: Seq<ReplyModel>)
    requires
        graph.wf(),
    ensures
        graph.steps(replies).pending() is None ==> graph.steps(replies).run_state
            == RunState::Idle,
        graph.steps(replies).state == GraphState::Stopped ==> graph.steps(replies).run_state
            == RunState::Idle,
{
    lemma_steps_wf(graph, replies);
}

/// Once playback has begun, the graph is playing or stopped, whatever the
/// engine answers.
pub proof fn lemma_playback_stays(graph: GraphModel, replies: Seq<ReplyModel>)
    requires
        graph.state is Playing || graph.state == GraphState::Stopped,
    ensures
        graph.steps(replies).state is Playing || graph.steps(replies).state == GraphState::Stopped,
    decreases replies.len(),
{
    if replies.len() > 0 {
        lemma_playback_stays(graph, replies.drop_last());
    }
}

/// After `run`, however the engine answers and whichever way playback ends,
/// the run state is idle as soon as nothing more is asked of the engine; and
/// a playback that began has then ended in `Stopped`.
pub proof fn lemma_run_exits_idle(graph: GraphModel, replies: Seq<ReplyModel>)
    requires
        graph.wf(),
    ensures
        graph.begin_run().steps(replies).wf(),
        graph.begin_run().steps(replies).pending() is None ==> graph.begin_run().steps(
            replies,
        ).run_state == RunState::Idle,
        graph.state == GraphState::Assembled && graph.begin_run().steps(replies).pending() is None
            ==> graph.begin_run().steps(replies).state == GraphState::Stopped,
{
    lemma_steps_wf(graph.begin_run(), replies);
    if graph.state == GraphState::Assembled {
        lemma_playback_stays(graph.begin_run(), replies);
    }
}

/// The run state goes from playing to idle only by the answer to a call
/// that brings the graph idle.
pub proof fn lemma_idle_only_by_request(graph: GraphModel, reply: ReplyModel)
    requires
        graph.wf(),
        graph.run_state == RunState::Playing,
        graph.step(reply).run_state == RunState::Idle,
    ensures
        graph.pending() == Some(EngineCall::SetIdle),
        reply !is Event,
{
}

/// Playback ends in `Stopped` and nowhere else, and only by the answer to
/// the last call, the one that brings the graph idle. This holds on every
/// way out: the end of the stream, an error event, a missing event stream
/// and a refused start. Playback changes neither the stages nor their
/// connections.
pub proof fn lemma_playback_ends_stopped(graph: GraphModel, reply: ReplyModel)
    requires
        graph.state is Playing,
    ensures
        graph.step(reply).state is Playing || graph.step(reply).state == GraphState::Stopped,
        graph.step(reply).state == GraphState::Stopped ==> {
            &&& graph.state == GraphState::Playing(PlaybackStep::Stopping)
            &&& graph.pending() == Some(EngineCall::SetIdle)
            &&& reply !is Event
            &&& graph.step(reply).run_state == RunState::Idle
        },
        graph.step(reply).stages == graph.stages,
        graph.step(reply).links == graph.links,
{
}

/// A refused start is recorded and followed by the call that brings the
/// graph idle; no event is asked for.
pub proof fn lemma_refused_start(graph: GraphModel, text: Seq<char>, reply: ReplyModel)
    requires
        graph.wf(),
        graph.state == GraphState::Assembled,
        reply !is Event,
    ensures
        ({
            let refused = graph.begin_run().step(ReplyModel::Failed(text));
            &&& graph.begin_run().pending() == Some(EngineCall::SetPlaying)
            &&& refused.pending() == Some(EngineCall::SetIdle)
            &&& refused.failure == Some(graph.first_error(ErrorModel::PipelineStateChangeFailed))
            &&& refused.step(reply).state == GraphState::Stopped
            &&& refused.step(reply).run_state == RunState::Idle
            &&& refused.step(reply).outcome() is Err
        }),
{
}

} // verus!
