//! The pipeline graph for the GStreamer engine: its stage factory, its
//! assembly and its playback.

use vstd::prelude::*;

use crate::util::text::{decimal, to_decimal};
use crate::util::{DecoderOptions, VideoFormat};
use crate::video::gst::graph::{
    lemma_begin_build_wf, lemma_step_wf, AssemblyStep, BusEvent, EngineCall, EngineReply,
    GraphModel, GraphState, PlaybackStep, RunState, StageLink,
};
use crate::video::stage::{clone_stages, stage_models, PropertyValue, StageDescriptor, StageKind};
use crate::video::Error as VideoError;
use crate::video::ErrorModel as VideoErrorModel;
use crate::video::Decoder;
use crate::video::VideoInput;

pub mod factory;
pub mod graph;

verus! {

/// The name under which the engine knows the graph.
pub const PIPELINE_NAME: &'static str = "hc-pipeline";

/// The name of the input pad of a stage, to which the outputs that the
/// demultiplexer shows while running are connected.
pub const SINK_PAD: &'static str = "sink";

/// Errors of the pipeline.
#[derive(Debug, PartialEq, Eq)]
pub enum Error {
    /// The engine reported an error of its own; holds its message. For an
    /// error met while playing, the message starts with the failing stage.
    Glib(String),
    /// The engine refused a request on the graph; holds its message.
    GlibBool(String),
    /// The engine could not create a stage of this kind.
    EngineInstantiationFailed(StageKind),
    /// The stages at these two positions could not be linked.
    StageLinkFailed(usize, usize),
    /// A track that the demultiplexer discovered could not be linked on.
    DemuxLinkFailed,
    /// The engine rejected a change of the run state.
    PipelineStateChangeFailed,
    /// The graph exposes no event stream.
    BusUnavailable,
    /// The format has no stages that encode it.
    UnsupportedFormat,
    /// The graph was asked to play before it was assembled.
    NotAssembled,
}

/// Mathematical value of an [`Error`].
pub enum ErrorModel {
    Glib(Seq<char>),
    GlibBool(Seq<char>),
    EngineInstantiationFailed(StageKind),
    StageLinkFailed(usize, usize),
    DemuxLinkFailed,
    PipelineStateChangeFailed,
    BusUnavailable,
    UnsupportedFormat,
    NotAssembled,
}

impl ErrorModel {
    /// The text shown to the user for this error.
    pub open spec fn message(self) -> Seq<char> {
        match self {
            ErrorModel::Glib(text) => "glib error: "@ + text,
            ErrorModel::GlibBool(text) => "glib bool error: "@ + text,
            ErrorModel::EngineInstantiationFailed(kind) => "cannot create stage "@
                + kind.factory_name(),
            ErrorModel::StageLinkFailed(from, to) => "cannot link stage "@ + decimal(from as nat)
                + " to stage "@ + decimal(to as nat),
            ErrorModel::DemuxLinkFailed => "cannot link demuxer to next stage"@,
            ErrorModel::PipelineStateChangeFailed => "pipeline state change error"@,
            ErrorModel::BusUnavailable => "pipeline without bus"@,
            ErrorModel::UnsupportedFormat => "unsupported format"@,
            ErrorModel::NotAssembled => "pipeline is not assembled"@,
        }
    }
}

impl View for Error {
    type V = ErrorModel;

    open spec fn view(&self) -> ErrorModel {
        match self {
            Error::Glib(text) => ErrorModel::Glib(text@),
            Error::GlibBool(text) => ErrorModel::GlibBool(text@),
            Error::EngineInstantiationFailed(kind) => ErrorModel::EngineInstantiationFailed(*kind),
            Error::StageLinkFailed(from, to) => ErrorModel::StageLinkFailed(*from, *to),
            Error::DemuxLinkFailed => ErrorModel::DemuxLinkFailed,
            Error::PipelineStateChangeFailed => ErrorModel::PipelineStateChangeFailed,
            Error::BusUnavailable => ErrorModel::BusUnavailable,
            Error::UnsupportedFormat => ErrorModel::UnsupportedFormat,
            Error::NotAssembled => ErrorModel::NotAssembled,
        }
    }
}

impl Error {
    /// Renders the error as the text shown to the user.
    pub fn to_string(&self) -> (s: String)
        ensures
            s@ == self@.message(),
    {
        match self {
            Error::Glib(text) => "glib error: ".to_owned().concat(text.as_str()),
            Error::GlibBool(text) => "glib bool error: ".to_owned().concat(text.as_str()),
            Error::EngineInstantiationFailed(kind) => "cannot create stage ".to_owned().concat(
                kind.factory(),
            ),
            Error::StageLinkFailed(from, to) => "cannot link stage ".to_owned().concat(
                to_decimal(*from).as_str(),
            ).concat(" to stage ").concat(to_decimal(*to).as_str()),
            Error::DemuxLinkFailed => "cannot link demuxer to next stage".to_owned(),
            Error::PipelineStateChangeFailed => "pipeline state change error".to_owned(),
            Error::BusUnavailable => "pipeline without bus".to_owned(),
            Error::UnsupportedFormat => "unsupported format".to_owned(),
            Error::NotAssembled => "pipeline is not assembled".to_owned(),
        }
    }
}

impl Clone for Error {
    fn clone(&self) -> (copy: Self)
        ensures
            copy@ == self@,
    {
        match self {
            Error::Glib(text) => Error::Glib(text.clone()),
            Error::GlibBool(text) => Error::GlibBool(text.clone()),
            Error::EngineInstantiationFailed(kind) => Error::EngineInstantiationFailed(*kind),
            Error::StageLinkFailed(from, to) => Error::StageLinkFailed(*from, *to),
            Error::DemuxLinkFailed => Error::DemuxLinkFailed,
            Error::PipelineStateChangeFailed => Error::PipelineStateChangeFailed,
            Error::BusUnavailable => Error::BusUnavailable,
            Error::UnsupportedFormat => Error::UnsupportedFormat,
            Error::NotAssembled => Error::NotAssembled,
        }
    }
}

/// The pipeline graph: the stages from source to sink, and how far their
/// assembly and playback have come.
pub struct GstreamerDecoder {
    srcsteps: Vec<StageDescriptor>,
    sinksteps: Vec<StageDescriptor>,
    stages: Vec<StageDescriptor>,
    state: GraphState,
    run_state: RunState,
    links: Vec<StageLink>,
    failure: Option<Error>,
}

impl View for GstreamerDecoder {
    type V = GraphModel;

    closed spec fn view(&self) -> GraphModel {
        GraphModel {
            source: stage_models(self.srcsteps@),
            sink: stage_models(self.sinksteps@),
            stages: stage_models(self.stages@),
            state: self.state,
            run_state: self.run_state,
            links: self.links@,
            failure: match self.failure {
                Some(error) => Some(error@),
                None => None,
            },
        }
    }
}

impl GstreamerDecoder {
    /// The first stages of the pipeline for an mp4 file: the file reader,
    /// the demultiplexer that splits the file into its streams, the H.264
    /// decoder for the video stream, and a conversion into whatever format
    /// the next stage takes.
    pub fn filesource(infname: String) -> (stages: Vec<StageDescriptor>)
        ensures
            stage_models(stages@) == factory::file_source_stages(infname@),
    {
        let stages = vec![
            StageDescriptor::make(StageKind::FileSource).property_from_str(
                "location",
                infname.as_str(),
            ),
            StageDescriptor::make(StageKind::Demuxer).name("demux"),
            StageDescriptor::make(StageKind::Decoder).name("avdec_h264-0"),
            StageDescriptor::make(StageKind::Convert).name("videoconvert0"),
        ];
        assert(stage_models(stages@) =~= factory::file_source_stages(infname@));
        stages
    }

    /// The first stages of the pipeline for the live capture device.
    pub fn webcamsource() -> (stages: Vec<StageDescriptor>)
        ensures
            stage_models(stages@) == factory::capture_source_stages(),
    {
        let stages = vec![
            StageDescriptor::make(StageKind::CaptureSource),
            StageDescriptor::make(StageKind::Convert).name("videoconvert0"),
        ];
        assert(stage_models(stages@) =~= factory::capture_source_stages());
        stages
    }

    /// The first stages of the pipeline for the given input.
    pub fn source(input: VideoInput) -> (stages: Vec<StageDescriptor>)
        ensures
            stage_models(stages@) == factory::source_stages(input@),
    {
        match input {
            VideoInput::File(fname) => Self::filesource(fname),
            VideoInput::Webcam => Self::webcamsource(),
        }
    }

    /// The stages that change the width and height of the video: the scaler
    /// that resizes the frames and the constraint that names the size.
    pub fn change_res(opt_w_h: Option<(i32, i32)>) -> (stages: Vec<StageDescriptor>)
        ensures
            stage_models(stages@) == factory::resize_stages(opt_w_h),
            opt_w_h is None ==> stages@.len() == 0,
            opt_w_h matches Some((w, h)) ==> {
                &&& stages@.len() == 2
                &&& stages[0]@.kind == StageKind::Scaler
                &&& stages[1]@.kind == StageKind::Constraint
                &&& stages[1]@.properties.len() == 1
                &&& stages[1]@.properties[0].value == factory::frame_size(w, h)
            },
    {
        if let Some((w, h)) = opt_w_h {
            let caps = PropertyValue::Caps { media: "video/x-raw".to_owned(), width: w, height: h };
            let stages = vec![
                StageDescriptor::make(StageKind::Scaler).name("videoscale0"),
                StageDescriptor::make(StageKind::Constraint).name("capsfilter0").property(
                    "caps",
                    caps,
                ),
            ];
            assert(stage_models(stages@) =~= factory::resize_stages(opt_w_h));
            return stages;
        }
        let stages: Vec<StageDescriptor> = Vec::new();
        assert(stage_models(stages@) =~= factory::resize_stages(opt_w_h));
        stages
    }

    /// The stages that invert the colors of the video. The filter inverts
    /// and shades slightly to blue; the engine has no filter that only
    /// inverts. A conversion follows it, into whatever format the next stage
    /// takes.
    pub fn apply_color_effect(invert: bool) -> (stages: Vec<StageDescriptor>)
        ensures
            stage_models(stages@) == factory::color_stages(invert),
            !invert ==> stages@.len() == 0,
            invert ==> {
                &&& stages@.len() == 2
                &&& stages[0]@.kind == StageKind::ColorFilter
                &&& stages[1]@.kind == StageKind::Convert
            },
    {
        if invert {
            let stages = vec![
                StageDescriptor::make(StageKind::ColorFilter).property_from_str("preset", "xray"),
                StageDescriptor::make(StageKind::Convert).name("videoconvert1"),
            ];
            assert(stage_models(stages@) =~= factory::color_stages(invert));
            stages
        } else {
            let stages: Vec<StageDescriptor> = Vec::new();
            assert(stage_models(stages@) =~= factory::color_stages(invert));
            stages
        }
    }

    /// The stage that flips the video horizontally.
    pub fn flip(flipflag: bool) -> (stages: Vec<StageDescriptor>)
        ensures
            stage_models(stages@) == factory::flip_stages(flipflag),
    {
        if flipflag {
            let stages = vec![
                StageDescriptor::make(StageKind::OrientationFilter).name(
                    "videoflip0",
                ).property_from_str("video-direction", "4"),
            ];
            assert(stage_models(stages@) =~= factory::flip_stages(flipflag));
            stages
        } else {
            let stages: Vec<StageDescriptor> = Vec::new();
            assert(stage_models(stages@) =~= factory::flip_stages(flipflag));
            stages
        }
    }

    /// The stages that encode the video to the given format. Fails with
    /// [`Error::UnsupportedFormat`] exactly when the format has no mapping.
    pub fn encode(format: VideoFormat) -> (r: Result<Vec<StageDescriptor>, VideoError>)
        ensures
            factory::has_mapping(format) ==> (r matches Ok(stages) && stage_models(stages@)
                == factory::encode_stages(format)),
            !factory::has_mapping(format) ==> (r matches Err(error) && error@
                == VideoErrorModel::Gstreamer(ErrorModel::UnsupportedFormat)),
    {
        match format {
            VideoFormat::H264 => {
                let stages = vec![
                    StageDescriptor::make(StageKind::Encoder).name("x264enc0").property_from_str(
                        "tune",
                        "zerolatency",
                    ),
                    StageDescriptor::make(StageKind::Queue).name("queue0"),
                ];
                assert(stage_models(stages@) =~= factory::encode_stages(format));
                Ok(stages)
            },
        }
    }

    /// The last stages of the pipeline, which show the video on screen.
    pub fn screenout() -> (stages: Vec<StageDescriptor>)
        ensures
            stage_models(stages@) == factory::sink_stages(),
    {
        let stages = vec![
            StageDescriptor::make(StageKind::Decoder).name("avdec_h2641"),
            StageDescriptor::make(StageKind::Convert).name("videoconvert2"),
            StageDescriptor::make(StageKind::Renderer).name("xvimagesink0"),
        ];
        assert(stage_models(stages@) =~= factory::sink_stages());
        stages
    }

    /// Records an error, unless one was recorded before.
    fn note(&mut self, error: Error)
        ensures
            final(self)@ == old(self)@.note(error@),
    {
        if self.failure.is_none() {
            self.failure = Some(error);
        }
    }

    /// The call that the engine is asked to perform next; `None` while the
    /// graph waits for `build` or `run`, and when it is stopped or failed.
    pub fn pending(&self) -> (call: Option<EngineCall>)
        requires
            self@.wf(),
        ensures
            call == self@.pending(),
    {
        match self.state {
            GraphState::Assembling(AssemblyStep::Initializing) => Some(EngineCall::Initialize),
            GraphState::Assembling(AssemblyStep::Instantiating(i)) => Some(
                EngineCall::Instantiate(i),
            ),
            GraphState::Assembling(AssemblyStep::Registering) => Some(EngineCall::Register),
            GraphState::Assembling(AssemblyStep::Linking(i)) => {
                if self.stages[i].is_demux() {
                    Some(EngineCall::DeferLink(i, i + 1))
                } else {
                    Some(EngineCall::Link(i, i + 1))
                }
            },
            GraphState::Playing(PlaybackStep::Starting) => Some(EngineCall::SetPlaying),
            GraphState::Playing(PlaybackStep::AcquiringBus) => Some(EngineCall::AcquireBus),
            GraphState::Playing(PlaybackStep::Streaming) => Some(EngineCall::AwaitEvent),
            GraphState::Playing(PlaybackStep::Aborting) => Some(EngineCall::SetIdle),
            GraphState::Playing(PlaybackStep::Stopping) => Some(EngineCall::SetIdle),
            _ => None,
        }
    }

    /// Takes the engine's answer to the pending assembly call.
    fn advance_assembly(&mut self, step: AssemblyStep, reply: EngineReply)
        requires
            old(self)@.wf(),
            old(self)@.state == GraphState::Assembling(step),
        ensures
            final(self)@ == old(self)@.assembly_step(step, reply@),
    {
        match reply {
            EngineReply::Event(_) => {},
            EngineReply::Failed(text) => {
                let error = match step {
                    AssemblyStep::Initializing => Error::Glib(text),
                    AssemblyStep::Instantiating(i) => Error::EngineInstantiationFailed(
                        self.stages[i].kind,
                    ),
                    AssemblyStep::Registering => Error::GlibBool(text),
                    AssemblyStep::Linking(i) => {
                        if self.stages[i].is_demux() {
                            Error::GlibBool(text)
                        } else {
                            Error::StageLinkFailed(i, i + 1)
                        }
                    },
                };
                self.note(error);
                self.state = GraphState::Failed;
            },
            EngineReply::Done => match step {
                AssemblyStep::Initializing => {
                    self.state = GraphState::Assembling(AssemblyStep::Instantiating(0));
                },
                AssemblyStep::Instantiating(i) => {
                    if i + 1 < self.stages.len() {
                        self.state = GraphState::Assembling(AssemblyStep::Instantiating(i + 1));
                    } else {
                        self.state = GraphState::Assembling(AssemblyStep::Registering);
                    }
                },
                AssemblyStep::Registering => {
                    self.state = GraphState::Assembling(AssemblyStep::Linking(0));
                },
                AssemblyStep::Linking(i) => {
                    let link = StageLink { from: i, to: i + 1, deferred: self.stages[i].is_demux() };
                    self.links.push(link);
                    if i + 2 < self.stages.len() {
                        self.state = GraphState::Assembling(AssemblyStep::Linking(i + 1));
                    } else {
                        self.state = GraphState::Assembled;
                    }
                },
            },
        }
    }

    /// Takes the engine's answer to the pending playback call.
    fn advance_playback(&mut self, step: PlaybackStep, reply: EngineReply)
        requires
            old(self)@.state == GraphState::Playing(step),
        ensures
            final(self)@ == old(self)@.playback_step(step, reply@),
    {
        match step {
            PlaybackStep::Starting => match reply {
                EngineReply::Done => {
                    self.state = GraphState::Playing(PlaybackStep::AcquiringBus);
                    self.run_state = RunState::Playing;
                },
                EngineReply::Failed(_) => {
                    self.note(Error::PipelineStateChangeFailed);
                    self.state = GraphState::Playing(PlaybackStep::Stopping);
                },
                EngineReply::Event(_) => {},
            },
            PlaybackStep::AcquiringBus => match reply {
                EngineReply::Done => {
                    self.state = GraphState::Playing(PlaybackStep::Streaming);
                },
                EngineReply::Failed(_) => {
                    self.note(Error::BusUnavailable);
                    self.state = GraphState::Playing(PlaybackStep::Stopping);
                },
                EngineReply::Event(_) => {},
            },
            PlaybackStep::Streaming => match reply {
                EngineReply::Event(BusEvent::EndOfStream) => {
                    self.state = GraphState::Playing(PlaybackStep::Stopping);
                },
                EngineReply::Event(BusEvent::Closed) => {
                    self.state = GraphState::Playing(PlaybackStep::Stopping);
                },
                EngineReply::Event(BusEvent::Error { stage, message }) => {
                    let text = stage.concat(": ").concat(message.as_str());
                    self.note(Error::Glib(text));
                    self.state = GraphState::Playing(PlaybackStep::Aborting);
                },
                EngineReply::Event(BusEvent::Other) => {
                    if self.failure.is_some() {
                        self.state = GraphState::Playing(PlaybackStep::Stopping);
                    }
                },
                _ => {},
            },
            PlaybackStep::Aborting => match reply {
                EngineReply::Done => {
                    self.state = GraphState::Playing(PlaybackStep::Stopping);
                    self.run_state = RunState::Idle;
                },
                EngineReply::Failed(_) => {
                    self.note(Error::PipelineStateChangeFailed);
                    self.state = GraphState::Playing(PlaybackStep::Stopping);
                    self.run_state = RunState::Idle;
                },
                EngineReply::Event(_) => {},
            },
            PlaybackStep::Stopping => match reply {
                EngineReply::Done => {
                    self.state = GraphState::Stopped;
                    self.run_state = RunState::Idle;
                },
                EngineReply::Failed(_) => {
                    self.note(Error::PipelineStateChangeFailed);
                    self.state = GraphState::Stopped;
                    self.run_state = RunState::Idle;
                },
                EngineReply::Event(_) => {},
            },
        }
    }

    /// Takes the engine's answer to the pending call and moves on: to the
    /// next call, or to the end of assembly or playback.
    pub fn advance(&mut self, reply: EngineReply)
        requires
            old(self)@.wf(),
        ensures
            final(self)@ == old(self)@.step(reply@),
            final(self)@.wf(),
    {
        proof {
            lemma_step_wf(old(self)@, reply@);
        }
        match self.state {
            GraphState::Assembling(step) => self.advance_assembly(step, reply),
            GraphState::Playing(step) => self.advance_playback(step, reply),
            _ => {},
        }
    }

    /// Takes note of what became of an output that the demultiplexer showed
    /// while running: `linked` tells whether the engine connected it to the
    /// input of the next stage. An output that was not connected breaks the
    /// pipeline; it is recorded and reported as `DemuxLinkFailed`.
    pub fn handle_demux_pad_added(&mut self, linked: bool) -> (r: Result<(), VideoError>)
        ensures
            final(self)@ == old(self)@.pad_added(linked),
            old(self)@.wf() ==> final(self)@.wf(),
            linked <==> r is Ok,
            r matches Err(error) ==> error@ == VideoErrorModel::Gstreamer(
                ErrorModel::DemuxLinkFailed,
            ),
    {
        if linked {
            Ok(())
        } else {
            self.note(Error::DemuxLinkFailed);
            Err(VideoError::Gstreamer(Error::DemuxLinkFailed))
        }
    }

    /// What the work on the graph has come to so far: the first error that
    /// was recorded, or success if there is none.
    pub fn outcome(&self) -> (r: Result<(), VideoError>)
        ensures
            match r {
                Ok(_) => self@.outcome() is Ok,
                Err(error) => self@.outcome() is Err && error@ == VideoErrorModel::Gstreamer(
                    self@.outcome()->Err_0,
                ),
            },
    {
        match &self.failure {
            Some(error) => Err(VideoError::Gstreamer(error.clone())),
            None => Ok(()),
        }
    }

    /// The lifecycle state of the graph.
    pub fn state(&self) -> (state: GraphState)
        ensures
            state == self@.state,
    {
        self.state
    }

    /// The run state that the graph was last driven to.
    pub fn run_state(&self) -> (state: RunState)
        ensures
            state == self@.run_state,
    {
        self.run_state
    }

    /// The stages of the pipeline in source-to-sink order; empty until
    /// `build` was called.
    pub fn stages(&self) -> (stages: &Vec<StageDescriptor>)
        ensures
            stage_models(stages@) == self@.stages,
    {
        &self.stages
    }

    /// The connections made so far, in the order they were made.
    pub fn links(&self) -> (links: &Vec<StageLink>)
        ensures
            links@ == self@.links,
    {
        &self.links
    }
}

impl Decoder for GstreamerDecoder {
    open spec fn valid(&self) -> bool {
        self@.wf()
    }

    open spec fn unbuilt(&self) -> bool {
        self@.state == GraphState::Empty
    }

    open spec fn assembled(&self) -> bool {
        self@.state == GraphState::Assembled
    }

    /// Creates the graph for the given input. Nothing is assembled yet and
    /// nothing is asked of the engine.
    fn new(input: VideoInput) -> (decoder: Self)
        ensures
            decoder@ == GraphModel::initial(input@),
            decoder@.wf(),
    {
        let decoder = GstreamerDecoder {
            srcsteps: GstreamerDecoder::source(input),
            sinksteps: GstreamerDecoder::screenout(),
            stages: Vec::new(),
            state: GraphState::Empty,
            run_state: RunState::Idle,
            links: Vec::new(),
            failure: None,
        };
        assert(decoder@ =~= GraphModel::initial(input@));
        decoder
    }

    /// Lays out the pipeline and begins its assembly. With every supported
    /// filter the pipeline is
    ///
    /// ```text
    /// {source} - {color effect} - {convert} - {scale} - {constraint} - {flip} - {encode} - {sink}
    /// ```
    ///
    /// The graph must be empty: it is built once, before it is run. After
    /// this call the engine is asked, call by call, to create and connect
    /// the stages; see [`GstreamerDecoder::pending`].
    fn build(&mut self, opts: DecoderOptions) -> (r: Result<(), VideoError>)
        ensures
            final(self)@ == old(self)@.begin_build(opts),
            final(self)@.wf(),
            r is Ok <==> factory::has_mapping(opts.format),
            r matches Err(error) ==> error@ == VideoErrorModel::Gstreamer(
                ErrorModel::UnsupportedFormat,
            ),
    {
        let mut filter_steps = GstreamerDecoder::apply_color_effect(opts.invert);
        let mut resize_steps = GstreamerDecoder::change_res(opts.width_height);
        filter_steps.append(&mut resize_steps);
        let mut flip_steps = GstreamerDecoder::flip(opts.flip);
        filter_steps.append(&mut flip_steps);
        let mut encode_steps = match GstreamerDecoder::encode(opts.format) {
            Ok(stages) => stages,
            Err(error) => {
                self.note(Error::UnsupportedFormat);
                self.state = GraphState::Failed;
                return Err(error);
            },
        };
        filter_steps.append(&mut encode_steps);
        assert(stage_models(filter_steps@) =~= factory::filter_stages(opts));

        let mut all_steps = clone_stages(&self.srcsteps);
        all_steps.append(&mut filter_steps);
        let mut sink_steps = clone_stages(&self.sinksteps);
        all_steps.append(&mut sink_steps);
        assert(stage_models(all_steps@) =~= factory::assemble(
            old(self)@.source,
            opts,
            old(self)@.sink,
        ));

        assert(stage_models(all_steps@).len() == all_steps.len());
        self.stages = all_steps;
        self.state = GraphState::Assembling(AssemblyStep::Initializing);
        proof {
            lemma_begin_build_wf(old(self)@, opts);
        }
        Ok(())
    }

    /// Begins to play the pipeline: to run the video through the filters and
    /// show it on screen. On a graph that is not assembled this fails with
    /// `NotAssembled`, changes nothing and asks nothing of the engine.
    fn run(&mut self) -> (r: Result<(), VideoError>)
        ensures
            final(self)@ == old(self)@.begin_run(),
            old(self)@.state == GraphState::Assembled ==> r is Ok && final(self)@.pending()
                == Some(EngineCall::SetPlaying),
            old(self)@.state != GraphState::Assembled ==> final(self)@ == old(self)@ && (
            r matches Err(error) && error@ == VideoErrorModel::Gstreamer(ErrorModel::NotAssembled)),
    {
        match self.state {
            GraphState::Assembled => {
                self.state = GraphState::Playing(PlaybackStep::Starting);
                Ok(())
            },
            _ => Err(VideoError::Gstreamer(Error::NotAssembled)),
        }
    }
}

} // verus!
