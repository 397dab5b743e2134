//! What the audio callback computes from one hardware buffer.

use vstd::prelude::*;
use crate::channel::send_chunk;
use crate::level::{peak, peak_of};
use crate::sample::NativeSample;

verus! {

/// The number of frames in a buffer of `len` interleaved samples. A trailing
/// partial frame counts; with no channels there are no frames.
pub open spec fn frame_count(len: nat, channels: nat) -> nat {
    if channels == 0 {
        0
    } else {
        ((len + channels - 1) / (channels as int)) as nat
    }
}

/// The mono chunk of a buffer: the converted first-channel sample of every
/// frame, in order. Channels beyond the first are discarded.
pub open spec fn mono_chunk<T: NativeSample>(data: Seq<T>, channels: nat) -> Seq<i16> {
    Seq::new(frame_count(data.len(), channels), |i: int| data[i * channels].pcm() as i16)
}

/// Every frame starts inside the buffer.
pub proof fn frame_starts_in_buffer(len: nat, channels: nat, i: int)
    requires
        0 <= i < frame_count(len, channels),
    ensures
        0 <= i * channels < len,
{
    let c = channels as int;
    let l = len as int;
    assert(c > 0);
    assert(0 <= i * c && i * c < l) by (nonlinear_arith)
        requires
            c > 0,
            l >= 0,
            0 <= i < (l + c - 1) / c,
    ;
}

proof fn frames_from_quotient(len: nat, channels: nat)
    requires
        channels > 0,
    ensures
        frame_count(len, channels) == len / channels + (if len % channels == 0 {
            0nat
        } else {
            1nat
        }),
{
    let c = channels as int;
    let l = len as int;
    assert((l + c - 1) / c == l / c + (if l % c == 0 {
        0int
    } else {
        1int
    })) by (nonlinear_arith)
        requires
            c > 0,
            l >= 0,
    ;
}

/// Downmixes one interleaved buffer to mono and converts it.
pub fn downmix<T: NativeSample>(data: &[T], channels: usize) -> (mono: Vec<i16>)
    ensures
        mono@ == mono_chunk(data@, channels as nat),
{
    let mut mono: Vec<i16> = Vec::new();
    if channels == 0 {
        return mono;
    }
    let len: usize = data.len();
    let whole: usize = len / channels;
    proof {
        frames_from_quotient(len as nat, channels as nat);
        assert(len % channels != 0 ==> whole < len) by (nonlinear_arith)
            requires
                channels > 0,
                whole == len / channels,
        ;
    }
    let frames: usize = if len % channels == 0 {
        whole
    } else {
        whole + 1
    };
    let mut i: usize = 0;
    while i < frames
        invariant
            channels > 0,
            len == data@.len(),
            frames == frame_count(len as nat, channels as nat),
            i <= frames,
            mono@.len() == i,
            forall|j: int| 0 <= j < i ==> mono@[j] == data@[j * channels].pcm() as i16,
        decreases frames - i,
    {
        proof {
            frame_starts_in_buffer(len as nat, channels as nat, i as int);
        }
        let at: usize = i * channels;
        let s: T = data[at];
        let converted: i16 = s.to_pcm();
        mono.push(converted);
        i = i + 1;
    }
    mono
}

/// What became of one hardware buffer.
#[derive(Clone, Copy, Debug, PartialEq, Eq, Structural)]
pub struct Delivery {
    /// The number of samples in the chunk made from the buffer.
    pub samples: usize,
    /// The largest magnitude among the samples of the chunk.
    pub peak: u32,
    /// Whether the chunk was queued for the writer. A chunk that could not
    /// be queued is dropped.
    pub queued: bool,
}

/// The whole of the audio callback for one buffer: downmixes and converts
/// it, measures the chunk and offers it to the writer. The offer is made
/// without waiting, on any kind of channel: a chunk that the channel does
/// not take at once, because the writer is gone or a bounded channel is
/// full, is dropped, and nothing is reported but `queued`.
pub fn forward<T: NativeSample>(
    data: &[T],
    channels: usize,
    tx: &crossbeam_channel::Sender<Vec<i16>>,
) -> (delivery: Delivery)
    ensures
        delivery.samples == frame_count(data@.len(), channels as nat),
        delivery.peak == peak(mono_chunk(data@, channels as nat)),
{
    let chunk: Vec<i16> = downmix(data, channels);
    let samples: usize = chunk.len();
    let loudest: u32 = peak_of(chunk.as_slice());
    let queued: bool = send_chunk(tx, chunk);
    Delivery { samples, peak: loudest, queued }
}

} // verus!
