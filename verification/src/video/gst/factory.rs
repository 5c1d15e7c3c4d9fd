//! The stage factory, stated: which stages each option contributes, and in
//! which order they make up the pipeline.

use vstd::prelude::*;

use crate::util::{DecoderOptions, VideoFormat};
use crate::video::stage::{PropertyModel, StageKind, StageModel, ValueModel};
use crate::video::VideoInputModel;

verus! {

/// The stages that read an mp4 file: the file reader, the demultiplexer, the
/// H.264 decoder of the video track and a format conversion.
pub open spec fn file_source_stages(path: Seq<char>) -> Seq<StageModel> {
    seq![
        StageModel::make(StageKind::FileSource).property_from_str("location"@, path),
        StageModel::make(StageKind::Demuxer).name("demux"@),
        StageModel::make(StageKind::Decoder).name("avdec_h264-0"@),
        StageModel::make(StageKind::Convert).name("videoconvert0"@),
    ]
}

/// The stages that read the live capture device: the capture reader and a
/// format conversion.
pub open spec fn capture_source_stages() -> Seq<StageModel> {
    seq![
        StageModel::make(StageKind::CaptureSource),
        StageModel::make(StageKind::Convert).name("videoconvert0"@),
    ]
}

/// The stages at the head of the pipeline, for either kind of input.
pub open spec fn source_stages(input: VideoInputModel) -> Seq<StageModel> {
    match input {
        VideoInputModel::File(path) => file_source_stages(path),
        VideoInputModel::Webcam => capture_source_stages(),
    }
}

/// The format constraint that fixes the frame size to `width` x `height`.
pub open spec fn frame_size(width: i32, height: i32) -> ValueModel {
    ValueModel::Caps { media: "video/x-raw"@, width, height }
}

/// The stages that invert the colors: the color filter with its inverting
/// preset, and the format conversion that the filter needs behind it. None
/// when the colors are left alone.
pub open spec fn color_stages(invert: bool) -> Seq<StageModel> {
    if invert {
        seq![
            StageModel::make(StageKind::ColorFilter).property_from_str("preset"@, "xray"@),
            StageModel::make(StageKind::Convert).name("videoconvert1"@),
        ]
    } else {
        Seq::empty()
    }
}

/// The stages that resize the video: the scaler and the constraint that
/// carries the target size. None when no size is given.
pub open spec fn resize_stages(size: Option<(i32, i32)>) -> Seq<StageModel> {
    match size {
        Some((width, height)) => seq![
            StageModel::make(StageKind::Scaler).name("videoscale0"@),
            StageModel::make(StageKind::Constraint).name("capsfilter0"@).property(
                "caps"@,
                frame_size(width, height),
            ),
        ],
        None => Seq::empty(),
    }
}

/// The stage that flips the video horizontally. None when it is not flipped.
pub open spec fn flip_stages(flip: bool) -> Seq<StageModel> {
    if flip {
        seq![
            StageModel::make(StageKind::OrientationFilter).name("videoflip0"@).property_from_str(
                "video-direction"@,
                "4"@,
            ),
        ]
    } else {
        Seq::empty()
    }
}

/// Whether the factory knows how to encode to `format`.
pub open spec fn has_mapping(format: VideoFormat) -> bool {
    match format {
        VideoFormat::H264 => true,
    }
}

/// The stages that encode the video: the low-latency encoder and a queue.
pub open spec fn encode_stages(format: VideoFormat) -> Seq<StageModel> {
    match format {
        VideoFormat::H264 => seq![
            StageModel::make(StageKind::Encoder).name("x264enc0"@).property_from_str(
                "tune"@,
                "zerolatency"@,
            ),
            StageModel::make(StageKind::Queue).name("queue0"@),
        ],
    }
}

/// The stages at the tail of the pipeline: the decoder of the encoded
/// stream, a format conversion and the renderer.
pub open spec fn sink_stages() -> Seq<StageModel> {
    seq![
        StageModel::make(StageKind::Decoder).name("avdec_h2641"@),
        StageModel::make(StageKind::Convert).name("videoconvert2"@),
        StageModel::make(StageKind::Renderer).name("xvimagesink0"@),
    ]
}

/// The stages between source and sink: color, then resize, then flip, then
/// encode.
pub open spec fn filter_stages(opts: DecoderOptions) -> Seq<StageModel> {
    color_stages(opts.invert) + resize_stages(opts.width_height) + flip_stages(opts.flip)
        + encode_stages(opts.format)
}

/// The whole pipeline in source-to-sink order, given the head and the tail.
pub open spec fn assemble(
    source: Seq<StageModel>,
    opts: DecoderOptions,
    sink: Seq<StageModel>,
) -> Seq<StageModel> {
    source + filter_stages(opts) + sink
}

/// The whole pipeline for an input and a set of options.
pub open spec fn pipeline_stages(input: VideoInputModel, opts: DecoderOptions) -> Seq<StageModel> {
    assemble(source_stages(input), opts, sink_stages())
}

/// The kinds of a list of stages, in order.
pub open spec fn kinds(stages: Seq<StageModel>) -> Seq<StageKind> {
    stages.map_values(|stage: StageModel| stage.kind)
}

/// Without a target size the resize contribution is empty; with one it is
/// exactly the scaler followed by the constraint that carries that size.
pub proof fn lemma_resize_contribution(size: Option<(i32, i32)>)
    ensures
        size is None ==> resize_stages(size) == Seq::<StageModel>::empty(),
        size matches Some((width, height)) ==> {
            &&& resize_stages(size).len() == 2
            &&& resize_stages(size)[0].kind == StageKind::Scaler
            &&& resize_stages(size)[1].kind == StageKind::Constraint
            &&& resize_stages(size)[1].properties == seq![
                PropertyModel { key: "caps"@, value: frame_size(width, height) },
            ]
        },
{
    match size {
        Some((width, height)) => {
            assert(resize_stages(size)[1].properties =~= seq![
                PropertyModel { key: "caps"@, value: frame_size(width, height) },
            ]);
        },
        None => {},
    }
}

/// Without inversion there is no color stage; with it there are exactly two,
/// the filter and a conversion. Whatever the other options are, these stages
/// stand in the pipeline right behind the source.
pub proof fn lemma_color_contribution(input: VideoInputModel, opts: DecoderOptions)
    ensures
        !opts.invert ==> color_stages(opts.invert).len() == 0,
        opts.invert ==> {
            &&& color_stages(opts.invert).len() == 2
            &&& color_stages(opts.invert)[0].kind == StageKind::ColorFilter
            &&& color_stages(opts.invert)[1].kind == StageKind::Convert
        },
        pipeline_stages(input, opts).subrange(
            source_stages(input).len() as int,
            (source_stages(input).len() + color_stages(opts.invert).len()) as int,
        ) == color_stages(opts.invert),
        forall|i: int|
            0 <= i < pipeline_stages(input, opts).len() && !(source_stages(input).len() <= i
                < source_stages(input).len() + color_stages(opts.invert).len())
                ==> pipeline_stages(input, opts)[i].kind != StageKind::ColorFilter,
{
    let source = source_stages(input);
    let color = color_stages(opts.invert);
    let all = pipeline_stages(input, opts);
    assert(all.subrange(source.len() as int, (source.len() + color.len()) as int) =~= color);
}

/// The factory is stable: the same input and options give the same stages
/// in the same order, and two inputs of the same sort (two files, whatever
/// their paths) give stages that agree in number, in kind, in name and in
/// order; only what a property holds can differ.
pub proof fn lemma_factory_deterministic(
    first: VideoInputModel,
    second: VideoInputModel,
    opts: DecoderOptions,
)
    requires
        first is File <==> second is File,
    ensures
        first == second ==> pipeline_stages(first, opts) == pipeline_stages(second, opts),
        pipeline_stages(first, opts).len() == pipeline_stages(second, opts).len(),
        kinds(pipeline_stages(first, opts)) == kinds(pipeline_stages(second, opts)),
        forall|i: int|
            0 <= i < pipeline_stages(first, opts).len() ==> (#[trigger] pipeline_stages(
                first,
                opts,
            )[i]).name == pipeline_stages(second, opts)[i].name,
{
    let one = pipeline_stages(first, opts);
    let other = pipeline_stages(second, opts);
    assert(source_stages(first).len() == source_stages(second).len());
    assert(one.len() == other.len());
    assert forall|i: int| 0 <= i < one.len() implies one[i].kind == other[i].kind && (
    #[trigger] one[i]).name == other[i].name by {
        if i < source_stages(first).len() {
            assert(one[i] == source_stages(first)[i]);
            assert(other[i] == source_stages(second)[i]);
        } else {
            let tail = filter_stages(opts) + sink_stages();
            assert(one[i] == tail[i - source_stages(first).len()]);
            assert(other[i] == tail[i - source_stages(second).len()]);
        }
    }
    assert(kinds(one) =~= kinds(other));
}

/// The number of stages of a pipeline: those of the source, two for the
/// inversion, two for the resize and one for the flip where they are asked
/// for, two for the encoding and three for the sink.
pub proof fn lemma_pipeline_length(input: VideoInputModel, opts: DecoderOptions)
    ensures
        pipeline_stages(input, opts).len() == (if input is File {
            4int
        } else {
            2int
        }) + (if opts.invert {
            2int
        } else {
            0int
        }) + (if opts.width_height is Some {
            2int
        } else {
            0int
        }) + (if opts.flip {
            1int
        } else {
            0int
        }) + 2 + 3,
{
}

/// Whether no name is given to two stages of the list.
pub open spec fn names_unique(stages: Seq<StageModel>) -> bool {
    forall|i: int, j: int|
        0 <= i < j < stages.len() && (#[trigger] stages[i]).name is Some ==> stages[i].name
            != (#[trigger] stages[j]).name
}

/// The place of a name among the names that the factory gives, in the
/// order in which they stand in a pipeline.
spec fn slot(name: Seq<char>) -> int {
    if name == "demux"@ {
        0
    } else if name == "avdec_h264-0"@ {
        1
    } else if name == "videoconvert0"@ {
        2
    } else if name == "videoconvert1"@ {
        3
    } else if name == "videoscale0"@ {
        4
    } else if name == "capsfilter0"@ {
        5
    } else if name == "videoflip0"@ {
        6
    } else if name == "x264enc0"@ {
        7
    } else if name == "queue0"@ {
        8
    } else if name == "avdec_h2641"@ {
        9
    } else if name == "videoconvert2"@ {
        10
    } else if name == "xvimagesink0"@ {
        11
    } else {
        12
    }
}

/// Whether the names of the stages stand in ascending order of their slots,
/// all within `lo..hi`.
spec fn ascending(stages: Seq<StageModel>, lo: int, hi: int) -> bool {
    &&& forall|i: int|
        0 <= i < stages.len() && (#[trigger] stages[i]).name is Some ==> lo <= slot(
            stages[i].name->0,
        ) < hi
    &&& forall|i: int, j: int|
        0 <= i < j < stages.len() && (#[trigger] stages[i]).name is Some && (
        #[trigger] stages[j]).name is Some ==> slot(stages[i].name->0) < slot(stages[j].name->0)
}

/// The names that the factory gives differ from each other.
proof fn lemma_slots()
    ensures
        slot("demux"@) == 0,
        slot("avdec_h264-0"@) == 1,
        slot("videoconvert0"@) == 2,
        slot("videoconvert1"@) == 3,
        slot("videoscale0"@) == 4,
        slot("capsfilter0"@) == 5,
        slot("videoflip0"@) == 6,
        slot("x264enc0"@) == 7,
        slot("queue0"@) == 8,
        slot("avdec_h2641"@) == 9,
        slot("videoconvert2"@) == 10,
        slot("xvimagesink0"@) == 11,
{
    reveal_strlit("demux");
    reveal_strlit("avdec_h264-0");
    reveal_strlit("videoconvert0");
    reveal_strlit("videoconvert1");
    reveal_strlit("videoscale0");
    reveal_strlit("capsfilter0");
    reveal_strlit("videoflip0");
    reveal_strlit("x264enc0");
    reveal_strlit("queue0");
    reveal_strlit("avdec_h2641");
    reveal_strlit("videoconvert2");
    reveal_strlit("xvimagesink0");
    assert("demux"@.len() == 5);
    assert("queue0"@.len() == 6);
    assert("x264enc0"@.len() == 8);
    assert("videoflip0"@.len() == 10);
    assert("videoscale0"@.len() == 11 && "videoscale0"@[0] == 'v');
    assert("capsfilter0"@.len() == 11 && "capsfilter0"@[0] == 'c');
    assert("avdec_h2641"@.len() == 11 && "avdec_h2641"@[0] == 'a');
    assert("avdec_h264-0"@.len() == 12 && "avdec_h264-0"@[0] == 'a');
    assert("xvimagesink0"@.len() == 12 && "xvimagesink0"@[0] == 'x');
    assert("videoconvert0"@.len() == 13 && "videoconvert0"@[12] == '0');
    assert("videoconvert1"@.len() == 13 && "videoconvert1"@[12] == '1');
    assert("videoconvert2"@.len() == 13 && "videoconvert2"@[12] == '2');
}

/// Two lists in ascending order, the slots of the first below those of the
/// second, are in ascending order when joined.
proof fn lemma_ascending_join(
    first: Seq<StageModel>,
    second: Seq<StageModel>,
    lo: int,
    mid: int,
    hi: int,
)
    requires
        ascending(first, lo, mid),
        ascending(second, mid, hi),
        lo <= mid <= hi,
    ensures
        ascending(first + second, lo, hi),
{
    let joined = first + second;
    assert forall|i: int| 0 <= i < joined.len() && (#[trigger] joined[i]).name is Some implies lo
        <= slot(joined[i].name->0) < hi by {
        if i < first.len() {
            assert(joined[i] == first[i]);
        } else {
            assert(joined[i] == second[i - first.len()]);
        }
    }
    assert forall|i: int, j: int|
        0 <= i < j < joined.len() && (#[trigger] joined[i]).name is Some && (
        #[trigger] joined[j]).name is Some implies slot(joined[i].name->0) < slot(
        joined[j].name->0,
    ) by {
        if j < first.len() {
            assert(joined[i] == first[i] && joined[j] == first[j]);
        } else if i < first.len() {
            assert(joined[i] == first[i]);
            assert(joined[j] == second[j - first.len()]);
        } else {
            assert(joined[i] == second[i - first.len()]);
            assert(joined[j] == second[j - first.len()]);
        }
    }
}

/// The names of a pipeline stand in ascending order of their slots.
proof fn lemma_pipeline_ascending(input: VideoInputModel, opts: DecoderOptions)
    ensures
        ascending(pipeline_stages(input, opts), 0, 12),
        slot("demux"@) == 0,
        slot("videoconvert0"@) == 2,
{
    lemma_slots();
    let source = source_stages(input);
    let color = color_stages(opts.invert);
    let resize = resize_stages(opts.width_height);
    let flip = flip_stages(opts.flip);
    let encode = encode_stages(opts.format);
    let sink = sink_stages();
    assert(ascending(source, 0, 3));
    assert(ascending(color, 3, 4));
    assert(ascending(resize, 4, 6));
    assert(ascending(flip, 6, 7));
    assert(ascending(encode, 7, 9));
    assert(ascending(sink, 9, 12));
    lemma_ascending_join(color, resize, 3, 4, 6);
    lemma_ascending_join(color + resize, flip, 3, 6, 7);
    lemma_ascending_join(color + resize + flip, encode, 3, 7, 9);
    lemma_ascending_join(source, filter_stages(opts), 0, 3, 9);
    lemma_ascending_join(source + filter_stages(opts), sink, 0, 9, 12);
}

/// Within a pipeline a name identifies one stage: no two stages that the
/// factory names have the same name.
pub proof fn lemma_names_unique(input: VideoInputModel, opts: DecoderOptions)
    ensures
        names_unique(pipeline_stages(input, opts)),
{
    lemma_pipeline_ascending(input, opts);
}

/// The demultiplexer stands in the pipeline exactly once when the input is
/// a file, right behind the file reader, and not at all when the input is
/// the live capture device.
pub proof fn lemma_demux_position(input: VideoInputModel, opts: DecoderOptions)
    ensures
        forall|i: int|
            0 <= i < pipeline_stages(input, opts).len() ==> (
            #[trigger] pipeline_stages(input, opts)[i].is_demux() <==> (input is File && i == 1)),
        pipeline_stages(input, opts).len() >= 7,
{
    lemma_pipeline_ascending(input, opts);
    let all = pipeline_stages(input, opts);
    let source = source_stages(input);
    assert(all[0] == source[0]);
    assert(all[1] == source[1]);
    assert forall|i: int| 0 <= i < all.len() implies (#[trigger] all[i].is_demux() <==> (
    input is File && i == 1)) by {
        if i > 1 && all[i].name is Some {
            assert(slot(all[1].name->0) < slot(all[i].name->0));
        }
    }
}

} // verus!
