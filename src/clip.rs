use vstd::prelude::*;

verus! {

/// A mono audio buffer. Each sample is the IEEE 754 bit pattern of a 32-bit
/// float amplitude, one per time step, in temporal order.
#[derive(Clone, Debug)]
pub struct AudioClip {
    pub name: String,
    pub samples: Vec<u32>,
    pub sample_rate: u32,
}

impl AudioClip {
    /// A clip is well formed when its rate is a positive number of samples per second.
    pub open spec fn wf(&self) -> bool {
        self.sample_rate > 0
    }

    /// An empty clip, as at the start of capture or decoding.
    pub fn new(name: String, sample_rate: u32) -> (r: AudioClip)
        ensures
            r.name@ == name@,
            r.samples@ == Seq::<u32>::empty(),
            r.sample_rate == sample_rate,
    {
        AudioClip { name, samples: Vec::new(), sample_rate }
    }
}

} // verus!
