use vstd::prelude::*;
use crate::clip::AudioClip;

verus! {

/// Number of samples that a clip of `len` samples at `source_rate` has at
/// `target_rate`: `floor(len * target_rate / source_rate)`.
pub open spec fn resampled_len(len: nat, source_rate: u32, target_rate: u32) -> nat
    recommends
        source_rate > 0,
{
    ((len * target_rate) / (source_rate as int)) as nat
}

/// What `resample` yields from `c` at `target_rate`, given the interpolated
/// sequence produced for it.
pub open spec fn resample_spec(c: AudioClip, target_rate: u32, interpolated: Seq<u32>) -> Option<(Seq<char>, Seq<u32>, u32)> {
    if target_rate == c.sample_rate {
        Some((c.name@, c.samples@, c.sample_rate))
    } else if interpolated.len() == resampled_len(c.samples@.len(), c.sample_rate, target_rate) {
        Some((c.name@, interpolated, target_rate))
    } else {
        None
    }
}

/// Resampling a clip at its own rate gives back the same clip, sample for
/// sample and rate for rate, whatever interpolation is offered.
pub proof fn law_resample_identity(c: AudioClip, interpolated: Seq<u32>)
    requires
        c.wf(),
    ensures
        resample_spec(c, c.sample_rate, interpolated) == Some((c.name@, c.samples@, c.sample_rate)),
{
}

/// Resampling a clip at another rate gives, whenever it gives a clip,
/// `floor(len * target_rate / source_rate)` samples at the target rate.
pub proof fn law_resample_length(c: AudioClip, target_rate: u32, interpolated: Seq<u32>)
    requires
        c.wf(),
        target_rate != c.sample_rate,
    ensures
        resample_spec(c, target_rate, interpolated) matches Some((name, samples, rate)) ==> {
            &&& samples.len() == (c.samples@.len() * target_rate) / (c.sample_rate as int)
            &&& rate == target_rate
        },
{
}

impl AudioClip {
    /// How many samples the interpolated signal must supply for `sample_rate`.
    pub fn resample_len(&self, sample_rate: u32) -> (r: usize)
        requires
            self.wf(),
            self.samples@.len() * sample_rate <= usize::MAX,
        ensures
            r == resampled_len(self.samples@.len(), self.sample_rate, sample_rate),
    {
        let len = self.samples.len();
        proof {
            let p: int = len * sample_rate;
            assert(p / (self.sample_rate as int) <= p) by (nonlinear_arith)
                requires
                    self.sample_rate > 0,
                    p >= 0;
        }
        len * (sample_rate as usize) / (self.sample_rate as usize)
    }

    /// The clip at `sample_rate`. At its own rate the clip is copied as it is,
    /// and `interpolated` is not read. At another rate the samples are those of
    /// `interpolated`, the linear interpolation of this clip's samples at the
    /// new rate, which must hold exactly `resample_len(sample_rate)` values;
    /// otherwise there is no result.
    pub fn resample(&self, sample_rate: u32, interpolated: Vec<u32>) -> (r: Option<AudioClip>)
        requires
            self.wf(),
            self.samples@.len() * sample_rate <= usize::MAX,
        ensures
            match resample_spec(*self, sample_rate, interpolated@) {
                Some((name, samples, rate)) => r matches Some(c) && c.name@ == name
                    && c.samples@ == samples && c.sample_rate == rate,
                None => r is None,
            },
    {
        if sample_rate == self.sample_rate {
            return Some(AudioClip {
                name: self.name.clone(),
                samples: self.samples.clone(),
                sample_rate: self.sample_rate,
            });
        }
        let expected = self.resample_len(sample_rate);
        if interpolated.len() != expected {
            return None;
        }
        Some(AudioClip { name: self.name.clone(), samples: interpolated, sample_rate })
    }
}

} // verus!
