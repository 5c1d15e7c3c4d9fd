//! Validators for the command-line arguments.

use vstd::prelude::*;
use vstd::string::StrSliceExecFns;

use crate::util::{Error, ErrorModel, IoErrorKind, VideoFormat};

verus! {

/// What the file system told about a path.
#[derive(Debug)]
pub struct FileProbe {
    /// Whether the path names anything at all.
    pub exists: bool,
    /// Whether the path names a regular file.
    pub is_file: bool,
    /// The mode of the file as the file system reports it: the permission
    /// bits, with the bits of the file type above them. When the mode could
    /// not be read, the class and the message of that failure.
    pub mode: Result<u32, (IoErrorKind, String)>,
}

/// Mathematical value of a [`FileProbe`].
pub struct FileProbeModel {
    pub exists: bool,
    pub is_file: bool,
    pub mode: Result<u32, (IoErrorKind, Seq<char>)>,
}

impl View for FileProbe {
    type V = FileProbeModel;

    open spec fn view(&self) -> FileProbeModel {
        FileProbeModel {
            exists: self.exists,
            is_file: self.is_file,
            mode: match self.mode {
                Ok(bits) => Ok(bits),
                Err((kind, text)) => Err((kind, text@)),
            },
        }
    }
}

/// The bit of a mode that lets the owner of the file read it.
pub const OWNER_READ: u32 = 0o400;

/// Whether a mode lets the owner of the file read it. Only the read bit
/// counts: neither the other permission bits nor the bits of the file type
/// make a file readable.
pub open spec fn readable(bits: u32) -> bool {
    bits & OWNER_READ != 0
}

/// The verdict on an input file name: the name itself when the probe shows a
/// regular file whose mode is [`readable`], otherwise the I/O error that
/// describes what is wrong.
pub open spec fn fname_verdict(name: Seq<char>, probe: FileProbeModel) -> Result<
    Seq<char>,
    ErrorModel,
> {
    if !probe.exists || !probe.is_file {
        Err(ErrorModel::Io(IoErrorKind::NotFound, "File not found"@))
    } else {
        match probe.mode {
            Err((kind, text)) => Err(ErrorModel::Io(kind, text)),
            Ok(bits) => if readable(bits) {
                Ok(name)
            } else {
                Err(ErrorModel::Io(IoErrorKind::PermissionDenied, "File not readable"@))
            },
        }
    }
}

/// Validates that the input file exists and is readable, given what the file
/// system told about it.
pub fn parse_fname(fnamestr: &str, probe: &FileProbe) -> (r: Result<String, Error>)
    ensures
        match r {
            Ok(name) => fname_verdict(fnamestr@, probe@) == Ok::<Seq<char>, ErrorModel>(name@),
            Err(e) => fname_verdict(fnamestr@, probe@) == Err::<Seq<char>, ErrorModel>(e@),
        },
        r is Ok ==> probe.exists && probe.is_file && (probe.mode matches Ok(bits) && readable(
            bits,
        )),
{
    if !probe.exists || !probe.is_file {
        return Err(Error::Io(IoErrorKind::NotFound, "File not found".to_owned()));
    }
    match &probe.mode {
        Err((kind, text)) => Err(Error::Io(*kind, text.clone())),
        Ok(bits) => {
            if *bits & OWNER_READ != 0 {
                Ok(fnamestr.to_owned())
            } else {
                Err(Error::Io(IoErrorKind::PermissionDenied, "File not readable".to_owned()))
            }
        },
    }
}

/// A mode is readable exactly when its ninth bit from the right is set,
/// whatever the bits around it: a regular file without any permission is not
/// readable, and a file that only its owner may read is.
pub proof fn lemma_readable(bits: u32)
    ensures
        readable(bits) <==> (bits / 256) % 2 == 1,
        readable(bits) == readable(bits & 0o777),
        !readable(0o100000),
        !readable(0o100333),
        readable(0o400),
        readable(0o100444),
{
    assert((bits & 0o400 != 0) <==> (bits / 256) % 2 == 1) by (bit_vector);
    assert((bits & 0o400 != 0) == ((bits & 0o777) & 0o400 != 0)) by (bit_vector);
    assert(0o100000u32 & 0o400 == 0) by (bit_vector);
    assert(0o100333u32 & 0o400 == 0) by (bit_vector);
    assert(0o400u32 & 0o400 != 0) by (bit_vector);
    assert(0o100444u32 & 0o400 != 0) by (bit_vector);
}

/// Whether `format` spells `h264`, in any mix of upper and lower case.
pub open spec fn names_h264(format: Seq<char>) -> bool {
    &&& format.len() == 4
    &&& (format[0] == 'h' || format[0] == 'H')
    &&& format[1] == '2'
    &&& format[2] == '6'
    &&& format[3] == '4'
}

/// Validates that the format named is supported. The only supported format
/// is h264; the name is matched without regard to case.
pub fn parse_format(format: &str) -> (r: Result<VideoFormat, Error>)
    ensures
        names_h264(format@) ==> r == Ok::<VideoFormat, Error>(VideoFormat::H264),
        !names_h264(format@) ==> (r matches Err(Error::Format(name)) && name@ == format@),
{
    if format.unicode_len() == 4 {
        let c0 = format.get_char(0);
        if (c0 == 'h' || c0 == 'H') && format.get_char(1) == '2' && format.get_char(2) == '6'
            && format.get_char(3) == '4' {
            return Ok(VideoFormat::H264);
        }
    }
    Err(Error::Format(format.to_owned()))
}

} // verus!
