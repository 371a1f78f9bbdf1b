use vstd::prelude::*;
use crate::clip::AudioClip;
use crate::error::ClipError;
use vstd::string::StringSliceAdditionalSpecFns;

verus! {

/// The extension that an exported file's path must end in, as bytes: `.wav`.
pub open spec fn wav_suffix() -> Seq<u8> {
    seq![46u8, 119u8, 97u8, 118u8]
}

/// Whether a path, as bytes, ends in `.wav`.
pub open spec fn has_wav_suffix(path: Seq<u8>) -> bool {
    path.len() >= 4 && path.subrange(path.len() - 4, path.len() as int) == wav_suffix()
}

/// The layout of the container that a clip is exported to.
#[derive(Clone, Copy, Debug, PartialEq, Eq, Structural)]
pub struct WavLayout {
    pub channels: u16,
    pub sample_rate: u32,
    pub bits_per_sample: u16,
    /// Samples are IEEE 754 floats rather than integers.
    pub float: bool,
}

/// Whether `path` ends in `.wav`.
pub fn is_wav_path(path: &str) -> (r: bool)
    ensures
        r == has_wav_suffix(path.spec_bytes()),
{
    let b = path.as_bytes();
    let len = b.len();
    if len < 4 {
        return false;
    }
    let r = b[len - 4] == 46u8 && b[len - 3] == 119u8 && b[len - 2] == 97u8 && b[len - 1] == 118u8;
    proof {
        let tail = b@.subrange(len - 4, len as int);
        if r {
            assert(tail =~= wav_suffix());
        } else {
            assert(tail[0] != 46u8 || tail[1] != 119u8 || tail[2] != 97u8 || tail[3] != 118u8);
            assert(tail != wav_suffix());
        }
    }
    r
}

impl AudioClip {
    /// Checks an export of this clip to `path` and gives the layout that the
    /// file is written with: one channel of 32-bit float samples at the clip's
    /// rate, one frame per sample. A path that does not end in `.wav` is
    /// refused, and nothing is to be written then.
    pub fn export(&self, path: &str) -> (r: Result<WavLayout, ClipError>)
        ensures
            has_wav_suffix(path.spec_bytes()) ==> r == Ok::<WavLayout, ClipError>(WavLayout {
                channels: 1,
                sample_rate: self.sample_rate,
                bits_per_sample: 32,
                float: true,
            }),
            !has_wav_suffix(path.spec_bytes()) ==> r == Err::<WavLayout, ClipError>(ClipError::InvalidExtension),
    {
        if !is_wav_path(path) {
            return Err(ClipError::InvalidExtension);
        }
        Ok(WavLayout { channels: 1, sample_rate: self.sample_rate, bits_per_sample: 32, float: true })
    }
}

} // verus!
