//! Core logic of a streaming speech-to-text service: voice-activity
//! rechunking of a PCM sample stream, transcript confidence filtering,
//! single-slot connection admission, chunked-upload bookkeeping, and the
//! per-connection session state machine.

pub mod adapter;
pub mod admission;
pub mod pcm;
pub mod rechunker;
pub mod session;
pub mod stt;
pub mod transcript;
pub mod upload;

use vstd::prelude::*;

verus! {

/// Number of samples in one detection frame at the given sample rate: 30 ms
/// worth of samples, rounded to the nearest whole sample.
pub open spec fn spec_frame_size(sample_rate: u32) -> int {
    (30 * sample_rate + 500) / 1000
}

/// Number of samples in one detection frame at the given sample rate
/// (30 ms worth of samples, rounded to the nearest whole sample).
pub fn frame_size_for(sample_rate: u32) -> (n: usize)
    ensures
        n == spec_frame_size(sample_rate),
{
    let n: u64 = (30 * sample_rate as u64 + 500) / 1000;
    n as usize
}

} // verus!
