//! Options that configure a pipeline, and the values the command line yields.

use vstd::prelude::*;
use vstd::std_specs::convert::FromSpecImpl;

pub mod text;
pub mod validator;

verus! {

/// Output encodings the pipeline can produce.
#[derive(Copy, Clone, Debug, PartialEq, Eq, Structural)]
pub enum VideoFormat {
    /// H.264 video.
    H264,
}

impl VideoFormat {
    /// The name under which the format is written on the command line.
    pub open spec fn name(self) -> Seq<char> {
        match self {
            VideoFormat::H264 => "h264"@,
        }
    }

    /// Renders the format as its command-line name.
    pub fn to_string(&self) -> (s: String)
        ensures
            s@ == self.name(),
    {
        match self {
            VideoFormat::H264 => "h264".to_owned(),
        }
    }
}

/// The classes of I/O failure that validating an input file can report.
#[derive(Copy, Clone, Debug, PartialEq, Eq, Structural)]
pub enum IoErrorKind {
    /// The path names nothing, or something that is not a regular file.
    NotFound,
    /// The file exists but its permission bits do not allow reading it.
    PermissionDenied,
    /// Any other failure the file system reported.
    Other,
}

/// Errors that can occur while validating the command-line arguments.
#[derive(Clone, Debug, PartialEq, Eq)]
pub enum Error {
    /// An I/O failure: its class and the message that describes it.
    Io(IoErrorKind, String),
    /// A format name that is not supported; holds the name as given.
    Format(String),
}

/// Mathematical value of an [`Error`].
pub enum ErrorModel {
    Io(IoErrorKind, Seq<char>),
    Format(Seq<char>),
}

impl ErrorModel {
    /// The text shown to the user for this error.
    pub open spec fn message(self) -> Seq<char> {
        match self {
            ErrorModel::Io(_, text) => text,
            ErrorModel::Format(name) => "Invalid format: "@ + name,
        }
    }
}

impl View for Error {
    type V = ErrorModel;

    open spec fn view(&self) -> ErrorModel {
        match self {
            Error::Io(kind, text) => ErrorModel::Io(*kind, text@),
            Error::Format(name) => ErrorModel::Format(name@),
        }
    }
}

impl Error {
    /// Renders the error as the text shown to the user.
    pub fn to_string(&self) -> (s: String)
        ensures
            s@ == self@.message(),
    {
        match self {
            Error::Io(_, text) => text.clone(),
            Error::Format(name) => "Invalid format: ".to_owned().concat(name.as_str()),
        }
    }
}

/// The values the command line yields, after each argument was validated.
#[derive(Debug)]
pub struct Cli {
    /// Input video file; absent when the live capture device is wanted.
    pub input: Option<String>,
    /// Output video format.
    pub format: Option<VideoFormat>,
    /// Output video width.
    pub width: Option<i32>,
    /// Output video height.
    pub height: Option<i32>,
    /// Whether the colors of the output are inverted.
    pub invert: bool,
    /// Whether the output is flipped horizontally.
    pub flip: bool,
}

/// What the pipeline does to the video between its source and its sink.
#[derive(Clone, Copy, Debug, PartialEq, Eq)]
pub struct DecoderOptions {
    /// Output resolution (width, height); absent when the video is not resized.
    pub width_height: Option<(i32, i32)>,
    /// Whether the colors of the output are inverted.
    pub invert: bool,
    /// Whether the output is flipped horizontally.
    pub flip: bool,
    /// Encoding of the output.
    pub format: VideoFormat,
}

impl DecoderOptions {
    /// Options that leave the video untouched: no resize, no inversion, no
    /// flip, encoded as H.264.
    pub open spec fn untouched() -> DecoderOptions {
        DecoderOptions { width_height: None, invert: false, flip: false, format: VideoFormat::H264 }
    }

    /// The options that a set of command-line values asks for. A resolution
    /// is set only when both width and height were given and both are above
    /// zero; the format falls back to H.264.
    pub open spec fn of_cli(cli: Cli) -> DecoderOptions {
        DecoderOptions {
            width_height: match (cli.width, cli.height) {
                (Some(w), Some(h)) => if w > 0 && h > 0 {
                    Some((w, h))
                } else {
                    None
                },
                _ => None,
            },
            invert: cli.invert,
            flip: cli.flip,
            format: match cli.format {
                Some(format) => format,
                None => VideoFormat::H264,
            },
        }
    }

    /// Whether the resolution, if there is one, has a width and a height
    /// above zero.
    pub open spec fn size_is_positive(self) -> bool {
        self.width_height matches Some((w, h)) ==> w > 0 && h > 0
    }
}

impl Default for DecoderOptions {
    fn default() -> (opts: Self)
        ensures
            opts == DecoderOptions::untouched(),
    {
        DecoderOptions { width_height: None, invert: false, flip: false, format: VideoFormat::H264 }
    }
}

impl From<&Cli> for DecoderOptions {
    fn from(cli: &Cli) -> (opts: Self)
        ensures
            opts == DecoderOptions::of_cli(*cli),
            opts.size_is_positive(),
    {
        let mut opts = DecoderOptions::default();
        if let Some(w) = cli.width {
            if let Some(h) = cli.height {
                if w > 0 && h > 0 {
                    opts.width_height = Some((w, h));
                }
            }
        }
        if let Some(format) = cli.format {
            opts.format = format;
        }
        opts.invert = cli.invert;
        opts.flip = cli.flip;
        opts
    }
}

impl FromSpecImpl<&Cli> for DecoderOptions {
    open spec fn obeys_from_spec() -> bool {
        true
    }

    open spec fn from_spec(cli: &Cli) -> Self {
        DecoderOptions::of_cli(*cli)
    }
}

/// No set of command-line values gives options with a width or a height of
/// zero or less: such a pair gives no resolution at all. The default options
/// have none either.
pub proof fn lemma_size_is_positive(cli: Cli)
    ensures
        DecoderOptions::of_cli(cli).size_is_positive(),
        DecoderOptions::untouched().size_is_positive(),
        DecoderOptions::of_cli(cli).width_height is Some <==> (cli.width matches Some(w)
            && cli.height matches Some(h) && w > 0 && h > 0),
{
}

} // verus!
