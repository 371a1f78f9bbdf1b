use vstd::prelude::*;
use crate::frames::frame_count;

verus! {

/// The bit pattern of a silent sample (an amplitude of zero).
pub const SILENCE: u32 = 0;

/// The sample at position `i` of `samples`, or silence past its end.
pub open spec fn sample_or_silence(samples: Seq<u32>, i: int) -> u32 {
    if 0 <= i < samples.len() {
        samples[i]
    } else {
        SILENCE
    }
}

/// The cursor after `frames` more frames, held at `usize::MAX` once it gets there.
pub open spec fn advanced(cursor: usize, frames: nat) -> usize {
    if cursor + frames <= usize::MAX {
        (cursor + frames) as usize
    } else {
        usize::MAX
    }
}

/// Moving one sample on in a buffer of interleaved frames either stays in the
/// frame or starts the next one.
proof fn lemma_next_position(j: int, ch: int)
    requires
        j >= 0,
        ch > 0,
    ensures
        j % ch + 1 == ch ==> (j + 1) / ch == j / ch + 1 && (j + 1) % ch == 0,
        j % ch + 1 != ch ==> (j + 1) / ch == j / ch && (j + 1) % ch == j % ch + 1,
{
    vstd::arithmetic::div_mod::lemma_fundamental_div_mod(j, ch);
    vstd::arithmetic::div_mod::lemma_fundamental_div_mod(j + 1, ch);
    let q = j / ch;
    let r = j % ch;
    assert(0 <= r < ch) by (nonlinear_arith)
        requires ch > 0, r == j % ch;
    assert(j == q * ch + r) by (nonlinear_arith)
        requires j == ch * (j / ch) + j % ch, q == j / ch, r == j % ch;
    if r + 1 == ch {
        assert(j + 1 == (q + 1) * ch + 0) by (nonlinear_arith)
            requires j == q * ch + r, r + 1 == ch;
        vstd::arithmetic::div_mod::lemma_fundamental_div_mod_converse(j + 1, ch, q + 1, 0);
    } else {
        vstd::arithmetic::div_mod::lemma_fundamental_div_mod_converse(j + 1, ch, q, r + 1);
    }
}

/// The state shared between the playback callback and its owner: the cursor
/// into the resampled samples, the samples, and whether the completion signal
/// has been given.
pub struct PlaybackState {
    pub cursor: usize,
    pub samples: Vec<u32>,
    pub finished: bool,
}

impl PlaybackState {
    /// The signal has been given only once the cursor reached the end.
    pub open spec fn wf(&self) -> bool {
        self.finished ==> self.cursor >= self.samples@.len()
    }

    /// Playback of `samples` from the start, with no signal given yet.
    pub fn new(samples: Vec<u32>) -> (r: PlaybackState)
        ensures
            r.cursor == 0,
            r.samples@ == samples@,
            !r.finished,
            r.wf(),
    {
        PlaybackState { cursor: 0, samples, finished: false }
    }
}

/// The playback callback's work on one device buffer of interleaved frames of
/// `channels` samples. `state` is the shared playback cell as the callback
/// found it after acquiring it without blocking. Each frame gets the sample at
/// the cursor (silence past the end) on every channel, and the cursor moves on
/// by one per frame. The result tells whether the completion signal is to be
/// given now: it is, exactly once, on the first buffer after which the cursor
/// has reached the end of the samples.
pub fn write_output_data(output: &mut Vec<u32>, channels: u16, state: &mut Option<PlaybackState>) -> (fire: bool)
    requires
        channels > 0,
        *old(state) matches Some(s) ==> s.wf(),
    ensures
        match *old(state) {
            Some(s) => *final(state) matches Some(t)
                && t.wf()
                && t.samples@ == s.samples@
                && t.cursor == advanced(s.cursor, frame_count(old(output)@.len(), channels as nat))
                && final(output)@.len() == old(output)@.len()
                && (forall|j: int| 0 <= j < final(output)@.len() ==>
                    final(output)@[j] == #[trigger] sample_or_silence(s.samples@, s.cursor as int + j / (channels as int)))
                && fire == (!s.finished && t.cursor >= s.samples@.len())
                && t.finished == (s.finished || fire),
            None => *final(state) is None && final(output)@ == old(output)@ && !fire,
        },
{
    match state {
        None => false,
        Some(s) => {
            let ch = channels as usize;
            let len = output.len();
            let ghost s0 = *s;
            let ghost out0 = output@;
            let mut j: usize = 0;
            let mut pos: usize = 0;
            while j < len
                invariant
                    ch == channels as nat,
                    ch > 0,
                    len == output@.len(),
                    len == out0.len(),
                    j <= len,
                    pos < ch,
                    pos == j % ch,
                    s.samples == s0.samples,
                    s.finished == s0.finished,
                    s.cursor == advanced(s0.cursor, (j / ch) as nat),
                    forall|i: int| 0 <= i < j ==>
                        output@[i] == #[trigger] sample_or_silence(s0.samples@, s0.cursor as int + i / (ch as int)),
                decreases len - j,
            {
                let v = if s.cursor < s.samples.len() { s.samples[s.cursor] } else { SILENCE };
                proof {
                    assert(v == sample_or_silence(s0.samples@, s0.cursor as int + (j as int) / (ch as int)));
                }
                output[j] = v;
                proof {
                    lemma_next_position(j as int, ch as int);
                }
                pos = pos + 1;
                if pos == ch {
                    pos = 0;
                    if s.cursor < usize::MAX {
                        s.cursor = s.cursor + 1;
                    }
                }
                j = j + 1;
            }
            if pos != 0 && s.cursor < usize::MAX {
                s.cursor = s.cursor + 1;
            }
            let fire = !s.finished && s.cursor >= s.samples.len();
            if fire {
                s.finished = true;
            }
            fire
        }
    }
}

} // verus!
