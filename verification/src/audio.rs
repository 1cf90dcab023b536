//! Framing of resampled audio.

use vstd::prelude::*;
use crate::model::{AudioFrame, OUTPUT_CHANNELS, OUTPUT_SAMPLE_RATE};

verus! {

/// How many samples of a resampled block are published: all its channels'
/// samples, as far as the block holds them.
pub open spec fn samples_to_copy(per_channel: int, channels: int, available: int) -> int {
    if per_channel * channels <= available {
        per_channel * channels
    } else {
        available
    }
}

/// Builds the frame published for one resampled block: the first
/// `samples_to_copy` samples of `data`, stamped with `pts_ms`. Whatever the
/// source was, the frame is stereo at 48 kHz.
pub fn audio_frame(
    data: &[i16],
    per_channel: usize,
    channels: usize,
    pts_ms: Option<i64>,
) -> (frame: AudioFrame)
    ensures
        frame.normalized(),
        frame.channels == 2,
        frame.sample_rate == 48_000,
        frame.samples@ == data@.subrange(
            0,
            samples_to_copy(per_channel as int, channels as int, data@.len() as int),
        ),
        frame.pts_ms == pts_ms,
{
    assert(0 <= per_channel * channels <= 0xffff_ffff_ffff_ffff * 0xffff_ffff_ffff_ffff)
        by (nonlinear_arith)
        requires
            0 <= per_channel <= 0xffff_ffff_ffff_ffff,
            0 <= channels <= 0xffff_ffff_ffff_ffff,
    ;
    let total: u128 = (per_channel as u128) * (channels as u128);
    let available: usize = data.len();
    let count: usize = if total <= available as u128 {
        total as usize
    } else {
        available
    };
    let mut samples: Vec<i16> = Vec::with_capacity(count);
    let mut i: usize = 0;
    while i < count
        invariant
            i <= count <= data@.len(),
            samples@ == data@.subrange(0, i as int),
        decreases count - i,
    {
        samples.push(data[i]);
        assert(samples@ =~= data@.subrange(0, i + 1));
        i = i + 1;
    }
    AudioFrame { channels: OUTPUT_CHANNELS, sample_rate: OUTPUT_SAMPLE_RATE, samples, pts_ms }
}

} // verus!
