use vstd::prelude::*;

verus! {

/// Number of frames of `channels` interleaved samples in a buffer of `len`
/// samples, counting a trailing partial frame as one.
pub open spec fn frame_count(len: nat, channels: nat) -> nat
    recommends
        channels > 0,
{
    len / channels + if len % channels == 0 { 0nat } else { 1nat }
}

/// The mono samples that a buffer of interleaved frames yields: the sample of
/// the first channel of each frame, in order.
pub open spec fn first_channel(input: Seq<u32>, channels: nat) -> Seq<u32>
    recommends
        channels > 0,
{
    Seq::new(frame_count(input.len(), channels), |k: int| input[k * channels])
}

/// Appends to `dst` the first sample of each frame of `input`.
pub fn append_first_channel(dst: &mut Vec<u32>, input: &[u32], channels: usize)
    requires
        channels > 0,
    ensures
        final(dst)@ == old(dst)@ + first_channel(input@, channels as nat),
{
    let ch = channels;
    let len = input.len();
    let n = if len % ch == 0 {
        len / ch
    } else {
        assert(len > 0 && ch >= 2) by (nonlinear_arith)
            requires len % ch != 0, ch > 0;
        assert(len / ch < len) by (nonlinear_arith)
            requires ch >= 2, len > 0;
        len / ch + 1
    };
    let ghost start = dst@;
    let mut k: usize = 0;
    while k < n
        invariant
            ch > 0,
            len == input@.len(),
            n == frame_count(len as nat, ch as nat),
            k <= n,
            dst@ == start + first_channel(input@, ch as nat).take(k as int),
        decreases n - k,
    {
        proof {
            lemma_frame_start_in_buffer(len as nat, ch as nat, k as nat);
        }
        dst.push(input[k * ch]);
        proof {
            assert(first_channel(input@, ch as nat).take(k + 1)
                =~= first_channel(input@, ch as nat).take(k as int).push(input@[k * ch]));
        }
        k = k + 1;
    }
    proof {
        assert(first_channel(input@, ch as nat).take(n as int) =~= first_channel(input@, ch as nat));
    }
}

/// Each frame of a buffer that is counted starts inside the buffer.
proof fn lemma_frame_start_in_buffer(len: nat, channels: nat, k: nat)
    requires
        channels > 0,
        k < frame_count(len, channels),
    ensures
        k * channels < len,
{
    let q = len / channels;
    let r = len % channels;
    assert(len == q * channels + r) by (nonlinear_arith)
        requires channels > 0, q == len / channels, r == len % channels;
    if r == 0 {
        assert(k < q);
        assert(k * channels < len) by (nonlinear_arith)
            requires k < q, len == q * channels + r, channels > 0;
    } else {
        assert(k <= q);
        assert(k * channels < len) by (nonlinear_arith)
            requires k <= q, len == q * channels + r, r > 0;
    }
}

} // verus!
