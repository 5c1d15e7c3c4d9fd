//! Video manipulation: stage descriptors, the stage factory and the pipeline
//! graph.

use vstd::prelude::*;

use crate::util::DecoderOptions;

pub mod gst;
pub mod stage;

verus! {

/// Errors that can occur during video manipulation.
#[derive(Debug, PartialEq, Eq)]
pub enum Error {
    /// An error of the pipeline.
    Gstreamer(gst::Error),
    /// The lock that guards the pipeline graph was poisoned.
    PoisonedLock,
}

/// Mathematical value of an [`Error`].
pub enum ErrorModel {
    Gstreamer(gst::ErrorModel),
    PoisonedLock,
}

impl ErrorModel {
    /// The text shown to the user for this error.
    pub open spec fn message(self) -> Seq<char> {
        match self {
            ErrorModel::Gstreamer(error) => "Gstreamer error: "@ + error.message(),
            ErrorModel::PoisonedLock => "Mutex poisoned"@,
        }
    }
}

impl View for Error {
    type V = ErrorModel;

    open spec fn view(&self) -> ErrorModel {
        match self {
            Error::Gstreamer(error) => ErrorModel::Gstreamer(error@),
            Error::PoisonedLock => ErrorModel::PoisonedLock,
        }
    }
}

impl Error {
    /// Renders the error as the text shown to the user.
    pub fn to_string(&self) -> (s: String)
        ensures
            s@ == self@.message(),
    {
        match self {
            Error::Gstreamer(error) => "Gstreamer error: ".to_owned().concat(
                error.to_string().as_str(),
            ),
            Error::PoisonedLock => "Mutex poisoned".to_owned(),
        }
    }
}

/// Where the video comes from.
#[derive(Clone, Debug, PartialEq, Eq)]
pub enum VideoInput {
    /// A video file, by its path.
    File(String),
    /// The live capture device.
    Webcam,
}

/// Mathematical value of a [`VideoInput`].
pub enum VideoInputModel {
    File(Seq<char>),
    Webcam,
}

impl View for VideoInput {
    type V = VideoInputModel;

    open spec fn view(&self) -> VideoInputModel {
        match self {
            VideoInput::File(path) => VideoInputModel::File(path@),
            VideoInput::Webcam => VideoInputModel::Webcam,
        }
    }
}

impl VideoInput {
    /// Selects the source: the file if a path was given, the live capture
    /// device otherwise.
    pub fn select(input: Option<String>) -> (source: Self)
        ensures
            source@ == match input {
                Some(path) => VideoInputModel::File(path@),
                None => VideoInputModel::Webcam,
            },
    {
        match input {
            Some(path) => VideoInput::File(path),
            None => VideoInput::Webcam,
        }
    }
}

/// The common interface of the pipeline graphs, whatever engine they drive.
///
/// A graph is built once and then run once. Both are carried out by the
/// engine, call by call; a graph says which call comes next and takes the
/// answer to it by methods of its own.
pub trait Decoder: Sized {
    /// Whether the graph is in a valid state.
    spec fn valid(&self) -> bool;

    /// Whether nothing has been built yet.
    spec fn unbuilt(&self) -> bool;

    /// Whether the graph is built in full and has not been run yet.
    spec fn assembled(&self) -> bool;

    /// Creates a new instance.
    fn new(input: VideoInput) -> (decoder: Self)
        ensures
            decoder.valid(),
            decoder.unbuilt(),
    ;

    /// Adds decoders, encoders and filters, and begins the assembly.
    fn build(&mut self, opts: DecoderOptions) -> (r: Result<(), Error>)
        requires
            old(self).valid(),
            old(self).unbuilt(),
        ensures
            final(self).valid(),
    ;

    /// Begins to play the input and to show the result on screen. A graph
    /// that is not assembled refuses with `NotAssembled` and stays as it is.
    fn run(&mut self) -> (r: Result<(), Error>)
        ensures
            old(self).valid() ==> final(self).valid(),
            old(self).assembled() ==> r is Ok,
            !old(self).assembled() ==> *final(self) == *old(self) && (r matches Err(error)
                && error@ == ErrorModel::Gstreamer(gst::ErrorModel::NotAssembled)),
    ;
}

} // verus!
