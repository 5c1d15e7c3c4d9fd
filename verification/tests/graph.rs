use video_processor::util::{DecoderOptions, VideoFormat};
use video_processor::video::gst::graph::{
    AssemblyStep, BusEvent, EngineCall, EngineReply, GraphState, PlaybackStep, RunState, StageLink,
};
use video_processor::video::gst::{Error, GstreamerDecoder};
use video_processor::video::stage::StageKind;
use video_processor::video::{Decoder, Error as VideoError, VideoInput};

fn everything() -> DecoderOptions {
    DecoderOptions {
        width_height: Some((640, 480)),
        invert: true,
        flip: true,
        format: VideoFormat::H264,
    }
}

fn clip() -> VideoInput {
    VideoInput::File("clip.mp4".to_string())
}

fn failed(text: &str) -> EngineReply {
    EngineReply::Failed(text.to_string())
}

fn stream_error(stage: &str, message: &str) -> EngineReply {
    EngineReply::Event(BusEvent::Error { stage: stage.to_string(), message: message.to_string() })
}

/// Answers `Done` to every call until the graph asks for `call`.
fn done_until(decoder: &mut GstreamerDecoder, call: EngineCall) -> Vec<EngineCall> {
    let mut asked = Vec::new();
    while decoder.pending() != Some(call) {
        asked.push(decoder.pending().expect("the graph asks for nothing more"));
        decoder.advance(EngineReply::Done);
    }
    asked
}

/// Answers `Done` to every call of the assembly.
fn assemble(decoder: &mut GstreamerDecoder) -> Vec<EngineCall> {
    let mut asked = Vec::new();
    while let Some(call) = decoder.pending() {
        asked.push(call);
        decoder.advance(EngineReply::Done);
    }
    asked
}

fn assembled(input: VideoInput, opts: DecoderOptions) -> GstreamerDecoder {
    let mut decoder = GstreamerDecoder::new(input);
    decoder.build(opts).unwrap();
    assemble(&mut decoder);
    assert_eq!(decoder.state(), GraphState::Assembled);
    decoder
}

fn streaming(input: VideoInput, opts: DecoderOptions) -> GstreamerDecoder {
    let mut decoder = assembled(input, opts);
    decoder.run().unwrap();
    decoder.advance(EngineReply::Done);
    decoder.advance(EngineReply::Done);
    assert_eq!(decoder.state(), GraphState::Playing(PlaybackStep::Streaming));
    decoder
}

#[test]
fn new_graph_is_empty_and_asks_nothing() {
    let decoder = GstreamerDecoder::new(clip());
    assert_eq!(decoder.state(), GraphState::Empty);
    assert_eq!(decoder.run_state(), RunState::Idle);
    assert_eq!(decoder.pending(), None);
    assert!(decoder.stages().is_empty());
    assert!(decoder.links().is_empty());
    assert_eq!(decoder.outcome(), Ok(()));
}

#[test]
fn build_lays_out_the_stages_and_asks_for_the_engine() {
    let mut decoder = GstreamerDecoder::new(clip());
    assert_eq!(decoder.build(everything()), Ok(()));
    assert_eq!(decoder.state(), GraphState::Assembling(AssemblyStep::Initializing));
    assert_eq!(decoder.pending(), Some(EngineCall::Initialize));
    assert_eq!(decoder.stages().len(), 14);
    assert!(decoder.links().is_empty());
}

#[test]
fn assembly_asks_for_each_call_in_order() {
    let mut decoder = GstreamerDecoder::new(VideoInput::Webcam);
    decoder.build(DecoderOptions::default()).unwrap();
    let asked = assemble(&mut decoder);
    let mut expected = vec![EngineCall::Initialize];
    expected.extend((0..7).map(EngineCall::Instantiate));
    expected.push(EngineCall::Register);
    expected.extend((0..6).map(|i| EngineCall::Link(i, i + 1)));
    assert_eq!(asked, expected);
    assert_eq!(decoder.state(), GraphState::Assembled);
    assert_eq!(decoder.outcome(), Ok(()));
}

#[test]
fn demultiplexer_is_linked_later_and_every_other_pair_at_once() {
    let mut decoder = GstreamerDecoder::new(clip());
    decoder.build(everything()).unwrap();
    let asked = assemble(&mut decoder);
    let linking: Vec<EngineCall> = asked
        .into_iter()
        .filter(|call| matches!(call, EngineCall::Link(..) | EngineCall::DeferLink(..)))
        .collect();
    let expected: Vec<EngineCall> = (0..13)
        .map(|i| if i == 1 { EngineCall::DeferLink(1, 2) } else { EngineCall::Link(i, i + 1) })
        .collect();
    assert_eq!(linking, expected);

    let links: Vec<StageLink> =
        (0..13).map(|i| StageLink { from: i, to: i + 1, deferred: i == 1 }).collect();
    assert_eq!(decoder.links(), &links);
    assert_eq!(decoder.links().iter().filter(|link| link.deferred).count(), 1);
    assert_eq!(decoder.stages()[1].kind, StageKind::Demuxer);
}

#[test]
fn full_scenario_plays_to_the_end_of_the_stream() {
    let mut decoder = assembled(clip(), everything());
    assert_eq!(decoder.stages().len(), 14);
    assert_eq!(decoder.links().len(), 13);

    assert_eq!(decoder.run(), Ok(()));
    assert_eq!(decoder.state(), GraphState::Playing(PlaybackStep::Starting));
    assert_eq!(decoder.pending(), Some(EngineCall::SetPlaying));
    decoder.advance(EngineReply::Done);
    assert_eq!(decoder.run_state(), RunState::Playing);
    assert_eq!(decoder.pending(), Some(EngineCall::AcquireBus));
    decoder.advance(EngineReply::Done);
    assert_eq!(decoder.pending(), Some(EngineCall::AwaitEvent));
    assert_eq!(decoder.handle_demux_pad_added(true), Ok(()));
    decoder.advance(EngineReply::Event(BusEvent::Other));
    assert_eq!(decoder.pending(), Some(EngineCall::AwaitEvent));
    decoder.advance(EngineReply::Event(BusEvent::EndOfStream));
    assert_eq!(decoder.pending(), Some(EngineCall::SetIdle));
    assert_eq!(decoder.run_state(), RunState::Playing);
    decoder.advance(EngineReply::Done);
    assert_eq!(decoder.state(), GraphState::Stopped);
    assert_eq!(decoder.run_state(), RunState::Idle);
    assert_eq!(decoder.pending(), None);
    assert_eq!(decoder.outcome(), Ok(()));
}

#[test]
fn failed_initialisation_fails_the_graph() {
    let mut decoder = GstreamerDecoder::new(clip());
    decoder.build(everything()).unwrap();
    decoder.advance(failed("no engine"));
    assert_eq!(decoder.state(), GraphState::Failed);
    assert_eq!(decoder.pending(), None);
    assert_eq!(
        decoder.outcome(),
        Err(VideoError::Gstreamer(Error::Glib("no engine".to_string())))
    );
}

#[test]
fn failed_instantiation_names_the_kind_of_the_stage() {
    let mut decoder = GstreamerDecoder::new(clip());
    decoder.build(everything()).unwrap();
    let asked = done_until(&mut decoder, EngineCall::Instantiate(9));
    assert_eq!(asked.len(), 10);
    decoder.advance(failed("no such element factory"));
    assert_eq!(decoder.state(), GraphState::Failed);
    assert_eq!(
        decoder.outcome(),
        Err(VideoError::Gstreamer(Error::EngineInstantiationFailed(StageKind::Encoder)))
    );
    assert!(decoder.links().is_empty());
}

#[test]
fn failed_registration_fails_the_graph() {
    let mut decoder = GstreamerDecoder::new(clip());
    decoder.build(everything()).unwrap();
    done_until(&mut decoder, EngineCall::Register);
    decoder.advance(failed("name taken"));
    assert_eq!(decoder.state(), GraphState::Failed);
    assert_eq!(
        decoder.outcome(),
        Err(VideoError::Gstreamer(Error::GlibBool("name taken".to_string())))
    );
}

#[test]
fn failed_link_keeps_the_links_made_before_it() {
    for at in [0usize, 2, 5, 12] {
        let mut decoder = GstreamerDecoder::new(clip());
        decoder.build(everything()).unwrap();
        done_until(&mut decoder, EngineCall::Link(at, at + 1));
        decoder.advance(failed("incompatible"));
        assert_eq!(decoder.state(), GraphState::Failed);
        assert_eq!(decoder.pending(), None);
        assert_eq!(
            decoder.outcome(),
            Err(VideoError::Gstreamer(Error::StageLinkFailed(at, at + 1)))
        );
        let links: Vec<StageLink> =
            (0..at).map(|i| StageLink { from: i, to: i + 1, deferred: i == 1 }).collect();
        assert_eq!(decoder.links(), &links);

        // the graph never becomes usable again
        decoder.advance(EngineReply::Done);
        assert_eq!(decoder.state(), GraphState::Failed);
        assert_eq!(decoder.run(), Err(VideoError::Gstreamer(Error::NotAssembled)));
        assert_eq!(decoder.state(), GraphState::Failed);
        assert_eq!(decoder.links(), &links);
    }
}

#[test]
fn failed_deferral_fails_the_graph_with_the_engines_message() {
    let mut decoder = GstreamerDecoder::new(clip());
    decoder.build(everything()).unwrap();
    done_until(&mut decoder, EngineCall::DeferLink(1, 2));
    decoder.advance(failed("no parent"));
    assert_eq!(decoder.state(), GraphState::Failed);
    assert_eq!(
        decoder.outcome(),
        Err(VideoError::Gstreamer(Error::GlibBool("no parent".to_string())))
    );
    assert_eq!(decoder.links(), &vec![StageLink { from: 0, to: 1, deferred: false }]);
}

#[test]
fn events_are_no_answer_to_an_assembly_call() {
    let mut decoder = GstreamerDecoder::new(clip());
    decoder.build(everything()).unwrap();
    done_until(&mut decoder, EngineCall::Link(4, 5));
    decoder.advance(EngineReply::Event(BusEvent::EndOfStream));
    decoder.advance(stream_error("demux", "broken"));
    assert_eq!(decoder.state(), GraphState::Assembling(AssemblyStep::Linking(4)));
    assert_eq!(decoder.pending(), Some(EngineCall::Link(4, 5)));
    assert_eq!(decoder.outcome(), Ok(()));
}

#[test]
fn run_is_refused_unless_the_graph_is_assembled() {
    let refused = Err(VideoError::Gstreamer(Error::NotAssembled));

    let mut decoder = GstreamerDecoder::new(clip());
    assert_eq!(decoder.run(), refused);
    assert_eq!(decoder.state(), GraphState::Empty);
    assert_eq!(decoder.pending(), None);

    decoder.build(everything()).unwrap();
    assert_eq!(decoder.run(), refused);
    assert_eq!(decoder.pending(), Some(EngineCall::Initialize));
    done_until(&mut decoder, EngineCall::Link(3, 4));
    assert_eq!(decoder.run(), refused);
    assert_eq!(decoder.state(), GraphState::Assembling(AssemblyStep::Linking(3)));
    assert_eq!(decoder.pending(), Some(EngineCall::Link(3, 4)));
    assert_eq!(decoder.outcome(), Ok(()));

    let mut decoder = streaming(clip(), everything());
    assert_eq!(decoder.run(), refused);
    assert_eq!(decoder.state(), GraphState::Playing(PlaybackStep::Streaming));
    decoder.advance(EngineReply::Event(BusEvent::EndOfStream));
    decoder.advance(EngineReply::Done);
    assert_eq!(decoder.state(), GraphState::Stopped);
    assert_eq!(decoder.run(), refused);
    assert_eq!(decoder.state(), GraphState::Stopped);
    assert_eq!(decoder.pending(), None);
    assert_eq!(decoder.outcome(), Ok(()));
}

#[test]
fn refused_start_brings_the_graph_idle_without_an_event() {
    let mut decoder = assembled(clip(), everything());
    decoder.run().unwrap();
    decoder.advance(failed("device busy"));
    assert_eq!(decoder.state(), GraphState::Playing(PlaybackStep::Stopping));
    assert_eq!(decoder.pending(), Some(EngineCall::SetIdle));
    assert_eq!(decoder.outcome(), Err(VideoError::Gstreamer(Error::PipelineStateChangeFailed)));
    decoder.advance(EngineReply::Done);
    assert_eq!(decoder.state(), GraphState::Stopped);
    assert_eq!(decoder.run_state(), RunState::Idle);
    assert_eq!(decoder.pending(), None);
    assert_eq!(decoder.outcome(), Err(VideoError::Gstreamer(Error::PipelineStateChangeFailed)));
}

#[test]
fn refused_start_stands_when_going_idle_fails_too() {
    let mut decoder = assembled(clip(), everything());
    decoder.run().unwrap();
    decoder.advance(failed("device busy"));
    decoder.advance(failed("stuck"));
    assert_eq!(decoder.state(), GraphState::Stopped);
    assert_eq!(decoder.run_state(), RunState::Idle);
    assert_eq!(decoder.outcome(), Err(VideoError::Gstreamer(Error::PipelineStateChangeFailed)));
}

#[test]
fn missing_bus_stops_the_graph() {
    let mut decoder = assembled(clip(), everything());
    decoder.run().unwrap();
    decoder.advance(EngineReply::Done);
    decoder.advance(failed("no bus"));
    assert_eq!(decoder.pending(), Some(EngineCall::SetIdle));
    decoder.advance(EngineReply::Done);
    assert_eq!(decoder.state(), GraphState::Stopped);
    assert_eq!(decoder.run_state(), RunState::Idle);
    assert_eq!(decoder.outcome(), Err(VideoError::Gstreamer(Error::BusUnavailable)));
}

#[test]
fn error_event_brings_the_graph_idle_at_once_and_again_at_the_end() {
    let mut decoder = streaming(clip(), everything());
    decoder.advance(stream_error("avdec_h264-0", "no frame"));
    assert_eq!(decoder.state(), GraphState::Playing(PlaybackStep::Aborting));
    assert_eq!(decoder.pending(), Some(EngineCall::SetIdle));
    decoder.advance(EngineReply::Done);
    assert_eq!(decoder.state(), GraphState::Playing(PlaybackStep::Stopping));
    assert_eq!(decoder.run_state(), RunState::Idle);
    assert_eq!(decoder.pending(), Some(EngineCall::SetIdle));
    decoder.advance(EngineReply::Done);
    assert_eq!(decoder.state(), GraphState::Stopped);
    assert_eq!(decoder.run_state(), RunState::Idle);
    assert_eq!(
        decoder.outcome(),
        Err(VideoError::Gstreamer(Error::Glib("avdec_h264-0: no frame".to_string())))
    );
}

#[test]
fn first_error_stands_when_going_idle_fails_too() {
    let mut decoder = streaming(clip(), everything());
    decoder.advance(stream_error("demux", "broken container"));
    decoder.advance(failed("stuck"));
    decoder.advance(failed("stuck"));
    assert_eq!(decoder.state(), GraphState::Stopped);
    assert_eq!(decoder.run_state(), RunState::Idle);
    assert_eq!(
        decoder.outcome(),
        Err(VideoError::Gstreamer(Error::Glib("demux: broken container".to_string())))
    );
}

#[test]
fn failure_to_go_idle_after_the_end_of_the_stream_is_reported() {
    let mut decoder = streaming(clip(), everything());
    decoder.advance(EngineReply::Event(BusEvent::EndOfStream));
    decoder.advance(failed("stuck"));
    assert_eq!(decoder.state(), GraphState::Stopped);
    assert_eq!(decoder.run_state(), RunState::Idle);
    assert_eq!(decoder.outcome(), Err(VideoError::Gstreamer(Error::PipelineStateChangeFailed)));
}

#[test]
fn other_events_are_passed_over() {
    let mut decoder = streaming(VideoInput::Webcam, DecoderOptions::default());
    for _ in 0..100 {
        decoder.advance(EngineReply::Event(BusEvent::Other));
        assert_eq!(decoder.state(), GraphState::Playing(PlaybackStep::Streaming));
        assert_eq!(decoder.pending(), Some(EngineCall::AwaitEvent));
    }
    decoder.advance(EngineReply::Done);
    decoder.advance(failed("not an event"));
    assert_eq!(decoder.state(), GraphState::Playing(PlaybackStep::Streaming));
    assert_eq!(decoder.outcome(), Ok(()));
}

#[test]
fn closed_event_stream_stops_the_graph() {
    let mut decoder = streaming(VideoInput::Webcam, DecoderOptions::default());
    decoder.advance(EngineReply::Event(BusEvent::Closed));
    assert_eq!(decoder.pending(), Some(EngineCall::SetIdle));
    decoder.advance(EngineReply::Done);
    assert_eq!(decoder.state(), GraphState::Stopped);
    assert_eq!(decoder.outcome(), Ok(()));
}

#[test]
fn every_discovered_track_is_linked_or_reported() {
    let mut decoder = streaming(clip(), everything());
    assert_eq!(decoder.handle_demux_pad_added(true), Ok(()));
    assert_eq!(decoder.handle_demux_pad_added(true), Ok(()));
    assert_eq!(decoder.outcome(), Ok(()));
    assert_eq!(
        decoder.handle_demux_pad_added(false),
        Err(VideoError::Gstreamer(Error::DemuxLinkFailed))
    );
    assert_eq!(decoder.outcome(), Err(VideoError::Gstreamer(Error::DemuxLinkFailed)));
    assert_eq!(decoder.handle_demux_pad_added(true), Ok(()));
    assert_eq!(decoder.outcome(), Err(VideoError::Gstreamer(Error::DemuxLinkFailed)));
    assert_eq!(decoder.state(), GraphState::Playing(PlaybackStep::Streaming));
}

#[test]
fn no_discovered_track_leaves_the_graph_as_it_was() {
    let mut decoder = streaming(clip(), everything());
    decoder.advance(EngineReply::Event(BusEvent::Other));
    assert_eq!(decoder.state(), GraphState::Playing(PlaybackStep::Streaming));
    assert_eq!(decoder.outcome(), Ok(()));
}

#[test]
fn unlinked_track_ends_playback_with_its_error() {
    let mut decoder = streaming(clip(), everything());
    assert!(decoder.handle_demux_pad_added(false).is_err());
    decoder.advance(EngineReply::Event(BusEvent::Other));
    assert_eq!(decoder.pending(), Some(EngineCall::SetIdle));
    decoder.advance(EngineReply::Done);
    assert_eq!(decoder.state(), GraphState::Stopped);
    assert_eq!(decoder.run_state(), RunState::Idle);
    assert_eq!(decoder.outcome(), Err(VideoError::Gstreamer(Error::DemuxLinkFailed)));
}

#[test]
fn run_state_is_idle_after_every_way_out_of_playback() {
    let ways: Vec<Vec<EngineReply>> = vec![
        vec![failed("busy"), EngineReply::Done],
        vec![failed("busy"), failed("stuck")],
        vec![EngineReply::Done, failed("no bus"), EngineReply::Done],
        vec![EngineReply::Done, failed("no bus"), failed("stuck")],
        vec![
            EngineReply::Done,
            EngineReply::Done,
            EngineReply::Event(BusEvent::EndOfStream),
            EngineReply::Done,
        ],
        vec![
            EngineReply::Done,
            EngineReply::Done,
            EngineReply::Event(BusEvent::Closed),
            failed("stuck"),
        ],
        vec![
            EngineReply::Done,
            EngineReply::Done,
            EngineReply::Event(BusEvent::Other),
            stream_error("queue0", "overrun"),
            EngineReply::Done,
            EngineReply::Done,
        ],
        vec![
            EngineReply::Done,
            EngineReply::Done,
            stream_error("queue0", "overrun"),
            failed("stuck"),
            EngineReply::Done,
        ],
    ];
    for replies in ways {
        let mut decoder = assembled(clip(), everything());
        decoder.run().unwrap();
        let mut last = None;
        for reply in replies {
            last = decoder.pending();
            decoder.advance(reply);
        }
        assert_eq!(decoder.state(), GraphState::Stopped);
        assert_eq!(decoder.pending(), None);
        assert_eq!(decoder.run_state(), RunState::Idle);
        assert_eq!(last, Some(EngineCall::SetIdle));
    }
}

#[test]
fn answers_change_nothing_when_no_call_is_pending() {
    let mut decoder = GstreamerDecoder::new(clip());
    decoder.advance(EngineReply::Done);
    decoder.advance(failed("late"));
    assert_eq!(decoder.state(), GraphState::Empty);
    assert_eq!(decoder.outcome(), Ok(()));

    let mut decoder = assembled(clip(), everything());
    decoder.advance(failed("late"));
    decoder.advance(EngineReply::Event(BusEvent::EndOfStream));
    assert_eq!(decoder.state(), GraphState::Assembled);
    assert_eq!(decoder.links().len(), 13);
    assert_eq!(decoder.outcome(), Ok(()));
}
