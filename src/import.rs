use vstd::prelude::*;
use crate::clip::AudioClip;
use crate::error::ClipError;
use crate::frames::{first_channel, append_first_channel};

verus! {

/// What the decoder reports of the default track of a probed container.
#[derive(Clone, Copy, Debug, PartialEq, Eq, Structural)]
pub struct TrackInfo {
    pub id: u32,
    pub channels: Option<usize>,
    pub sample_rate: Option<u32>,
}

/// What reading the next packet of the container gave.
#[derive(Clone, Copy, Debug, PartialEq, Eq, Structural)]
pub enum ReadOutcome {
    /// A packet of the given track.
    Packet { track_id: u32 },
    /// The stream ended where a packet was expected.
    EndOfStream,
    /// Any other read failure.
    Failed,
}

/// What decoding a packet gave.
#[derive(Clone, Copy, Debug, PartialEq, Eq, Structural)]
pub enum DecodeOutcome {
    /// Interleaved samples, to be downmixed and appended.
    Decoded,
    /// A packet with corrupt data, which decoding recovers from.
    Corrupt,
    /// A failure that ends decoding.
    Failed,
}

/// What the decode loop does next.
#[derive(Clone, Copy, Debug, PartialEq, Eq, Structural)]
pub enum ImportStep {
    /// Decode the packet that was read.
    Decode,
    /// Downmix the decoded samples and append them.
    Append,
    /// Go on to the next packet.
    Skip,
    /// Stop, with the clip decoded so far.
    Finish,
    /// Stop, with this error and no clip.
    Fail(ClipError),
}

/// A clip being decoded from the default track of a container.
pub struct Importer {
    pub clip: AudioClip,
    pub track_id: u32,
    pub channels: usize,
}

/// What `AudioClip::import` decides from the track that the probe found.
pub open spec fn import_spec(track: Option<TrackInfo>) -> Result<(u32, usize, u32), ClipError> {
    match track {
        None => Err(ClipError::NoTrack),
        Some(t) => match (t.channels, t.sample_rate) {
            (Some(c), Some(r)) => if c > 0 && r > 0 {
                Ok((t.id, c, r))
            } else {
                Err(ClipError::UnknownFormat)
            },
            _ => Err(ClipError::UnknownFormat),
        },
    }
}

/// The decode loop's answer to a read.
pub open spec fn read_step(track_id: u32, r: ReadOutcome) -> ImportStep {
    match r {
        ReadOutcome::Packet { track_id: id } => if id == track_id {
            ImportStep::Decode
        } else {
            ImportStep::Skip
        },
        ReadOutcome::EndOfStream => ImportStep::Finish,
        ReadOutcome::Failed => ImportStep::Fail(ClipError::IoError),
    }
}

/// The decode loop's answer to a decoded packet.
pub open spec fn decode_step(d: DecodeOutcome) -> ImportStep {
    match d {
        DecodeOutcome::Decoded => ImportStep::Append,
        DecodeOutcome::Corrupt => ImportStep::Skip,
        DecodeOutcome::Failed => ImportStep::Finish,
    }
}

impl Importer {
    /// The downmix stride is positive and the clip's rate is positive.
    pub open spec fn wf(&self) -> bool {
        self.channels > 0 && self.clip.wf()
    }

    /// Answers a read of the next packet: decode a packet of this track, skip
    /// one of another, finish at the end of the stream, fail on any other
    /// read failure.
    pub fn on_read(&self, r: ReadOutcome) -> (step: ImportStep)
        ensures
            step == read_step(self.track_id, r),
    {
        match r {
            ReadOutcome::Packet { track_id } => if track_id == self.track_id {
                ImportStep::Decode
            } else {
                ImportStep::Skip
            },
            ReadOutcome::EndOfStream => ImportStep::Finish,
            ReadOutcome::Failed => ImportStep::Fail(ClipError::IoError),
        }
    }

    /// Answers a decoded packet: append its samples, skip a corrupt packet,
    /// finish on any other decode failure.
    pub fn on_decode(&self, d: DecodeOutcome) -> (step: ImportStep)
        ensures
            step == decode_step(d),
    {
        match d {
            DecodeOutcome::Decoded => ImportStep::Append,
            DecodeOutcome::Corrupt => ImportStep::Skip,
            DecodeOutcome::Failed => ImportStep::Finish,
        }
    }

    /// Downmixes decoded interleaved samples by taking every `channels`-th
    /// sample, starting with the first, and appends them to the clip.
    pub fn append_decoded(&mut self, interleaved: &[u32])
        requires
            old(self).wf(),
        ensures
            final(self).wf(),
            final(self).track_id == old(self).track_id,
            final(self).channels == old(self).channels,
            final(self).clip.name == old(self).clip.name,
            final(self).clip.sample_rate == old(self).clip.sample_rate,
            final(self).clip.samples@ == old(self).clip.samples@
                + first_channel(interleaved@, old(self).channels as nat),
    {
        append_first_channel(&mut self.clip.samples, interleaved, self.channels);
    }

    /// The clip decoded so far.
    pub fn finish(self) -> (c: AudioClip)
        ensures
            c == self.clip,
    {
        self.clip
    }
}

impl AudioClip {
    /// Starts decoding from the default track that the probe found: there
    /// must be one, and it must tell a positive channel count and sample rate.
    /// The clip starts empty, at the track's rate.
    pub fn import(name: String, track: Option<TrackInfo>) -> (r: Result<Importer, ClipError>)
        ensures
            match import_spec(track) {
                Ok((id, channels, rate)) => r matches Ok(imp) && imp.wf()
                    && imp.track_id == id && imp.channels == channels
                    && imp.clip.name@ == name@ && imp.clip.sample_rate == rate
                    && imp.clip.samples@.len() == 0,
                Err(e) => r == Err::<Importer, ClipError>(e),
            },
    {
        match track {
            None => Err(ClipError::NoTrack),
            Some(t) => match (t.channels, t.sample_rate) {
                (Some(c), Some(rate)) => if c > 0 && rate > 0 {
                    Ok(Importer { clip: AudioClip::new(name, rate), track_id: t.id, channels: c })
                } else {
                    Err(ClipError::UnknownFormat)
                },
                _ => Err(ClipError::UnknownFormat),
            },
        }
    }
}

} // verus!
