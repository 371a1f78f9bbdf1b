use vstd::prelude::*;
use crate::clip::AudioClip;
use crate::frames::{first_channel, append_first_channel};

verus! {

/// The capture callback's work on one device buffer. `clip` is the shared
/// capture cell as the callback found it after acquiring it without blocking:
/// while it holds a clip, the first channel of each frame of `input` is
/// appended to it; once the recording has been taken out, nothing changes.
pub fn write_input_data(input: &[u32], channels: u16, clip: &mut Option<AudioClip>)
    requires
        channels > 0,
    ensures
        match *old(clip) {
            Some(c) => *final(clip) matches Some(d) && d.name == c.name
                && d.sample_rate == c.sample_rate
                && d.samples@ == c.samples@ + first_channel(input@, channels as nat),
            None => *final(clip) is None,
        },
{
    if let Some(c) = clip {
        append_first_channel(&mut c.samples, input, channels as usize);
    }
}

/// Ends a recording: the clip is taken out of the shared capture cell, which is
/// left empty, so a late callback appends nothing.
pub fn take_recording(cell: &mut Option<AudioClip>) -> (r: Option<AudioClip>)
    ensures
        r == *old(cell),
        *final(cell) is None,
{
    cell.take()
}

} // verus!
