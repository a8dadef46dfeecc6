use vstd::prelude::*;

use vstd::arithmetic::div_mod::{lemma_fundamental_div_mod, lemma_fundamental_div_mod_converse};

verus! {

/// The number of frames of `channels` samples that cover `len` samples; the
/// last frame may be cut short.
pub open spec fn spec_frame_count(len: nat, channels: nat) -> nat
    recommends
        channels > 0,
{
    if len % channels == 0 {
        len / channels
    } else {
        len / channels + 1
    }
}

/// The sample that channel `i % channels` of frame `i / channels` carries:
/// even channels carry the left sample of the frame, odd channels the right.
pub open spec fn interleaved_sample<T>(frames: Seq<(T, T)>, channels: nat, i: int) -> T
    recommends
        channels > 0,
{
    let frame = frames[i / channels as int];
    if (i % channels as int) % 2 == 0 {
        frame.0
    } else {
        frame.1
    }
}

/// The number of stereo samples that an output buffer of `len` samples
/// spread over `channels` channels asks for: one per frame.
pub fn frame_count(len: usize, channels: usize) -> (n: usize)
    requires
        channels > 0,
    ensures
        n == spec_frame_count(len as nat, channels as nat),
{
    let whole = len / channels;
    if len % channels == 0 {
        whole
    } else {
        proof {
            lemma_fundamental_div_mod(len as int, channels as int);
            assert(whole < len) by (nonlinear_arith)
                requires
                    len == channels * whole + len % channels,
                    len % channels > 0,
                    channels > 0,
                    whole >= 0,
            ;
        }
        whole + 1
    }
}

/// Fills an output buffer frame by frame: frame `k` takes the `k`-th stereo
/// sample, the left one on its even channels and the right one on its odd
/// channels.
pub fn write_data<T: Copy>(output: &mut [T], channels: usize, frames: &[(T, T)])
    requires
        channels > 0,
        frames@.len() == spec_frame_count(old(output)@.len(), channels as nat),
    ensures
        final(output)@.len() == old(output)@.len(),
        forall|i: int|
            0 <= i < final(output)@.len() ==> #[trigger] final(output)@[i] == interleaved_sample(
                frames@,
                channels as nat,
                i,
            ),
{
    let len = output.len();
    let mut frame: usize = 0;
    let mut channel: usize = 0;
    let mut i: usize = 0;
    while i < len
        invariant
            len == output@.len(),
            len == old(output)@.len(),
            channels > 0,
            frames@.len() == spec_frame_count(len as nat, channels as nat),
            i <= len,
            channel < channels,
            i == frame * channels + channel,
            forall|j: int|
                0 <= j < i ==> #[trigger] output@[j] == interleaved_sample(
                    frames@,
                    channels as nat,
                    j,
                ),
        decreases len - i,
    {
        proof {
            lemma_fundamental_div_mod_converse(i as int, channels as int, frame as int, channel as int);
            lemma_fundamental_div_mod(len as int, channels as int);
            let q = len as int / channels as int;
            let r = len as int % channels as int;
            assert(frame < frames@.len()) by (nonlinear_arith)
                requires
                    frame * channels + channel < len,
                    len == channels * q + r,
                    0 <= r < channels,
                    frames@.len() == (if r == 0 { q } else { q + 1 }),
                    channel >= 0,
            ;
        }
        let pair = frames[frame];
        let sample = if channel % 2 == 0 {
            pair.0
        } else {
            pair.1
        };
        output[i] = sample;
        i = i + 1;
        if channel + 1 == channels {
            proof {
                assert((frame + 1) * channels == frame * channels + channels) by (nonlinear_arith);
            }
            channel = 0;
            frame = frame + 1;
        } else {
            channel = channel + 1;
        }
    }
}

/// Channel `c` of frame `k` carries the left sample of the frame's stereo
/// pair when `c` is even (0, 2, ...) and the right one when `c` is odd
/// (1, 3, ...), whatever the number of channels.
pub proof fn lemma_channel_parity<T>(frames: Seq<(T, T)>, channels: nat, k: int, c: int)
    requires
        channels > 0,
        0 <= c < channels,
        0 <= k,
    ensures
        c % 2 == 0 ==> interleaved_sample(frames, channels, k * channels + c) == frames[k].0,
        c % 2 == 1 ==> interleaved_sample(frames, channels, k * channels + c) == frames[k].1,
{
    lemma_fundamental_div_mod_converse(k * channels + c, channels as int, k, c);
}

/// The frames cover the buffer exactly: enough of them to hold every
/// sample, and one fewer would not be enough.
pub proof fn lemma_frames_cover_buffer(len: nat, channels: nat)
    requires
        channels > 0,
    ensures
        spec_frame_count(len, channels) * channels >= len,
        spec_frame_count(len, channels) > 0 ==> (spec_frame_count(len, channels) - 1) * channels
            < len,
        spec_frame_count(len, channels) == 0 <==> len == 0,
{
    lemma_fundamental_div_mod(len as int, channels as int);
    let q = len / channels;
    let r = len % channels;
    assert(len == channels * q + r);
    assert(q * channels == channels * q) by (nonlinear_arith);
    assert((q + 1) * channels == q * channels + channels) by (nonlinear_arith);
    assert((q - 1) * channels == q * channels - channels) by (nonlinear_arith);
    if len == 0 {
        assert(q == 0 && r == 0) by (nonlinear_arith)
            requires
                0 == channels * q + r,
                channels > 0,
                q >= 0,
                r >= 0,
        ;
    }
    if q == 0 && r == 0 {
        assert(len == 0) by (nonlinear_arith)
            requires
                len == channels * q + r,
                q == 0,
                r == 0,
        ;
    }
}

} // verus!
