//! A fixed-point MPEG-1 Audio Layer II (MP2) decoder.
//!
//! The decoder turns MP2-framed audio bytes into interleaved 16-bit signed
//! PCM samples, one frame at a time.  Every step of the per-frame pipeline
//! — bitstream reading, header parsing, bit-allocation lookup, sample
//! dequantization and the polyphase synthesis filter — is specified and
//! verified here.  All decode-path arithmetic is 32-bit integer arithmetic;
//! the cosine matrix used by the synthesis filter is a precomputed constant.

#![allow(non_snake_case)]

use vstd::prelude::*;

pub mod bits;
pub mod tables;
pub mod synth;
pub mod decoder;
pub mod laws;

verus! {

/// Discard a value, such as the result of a bitstream read that only
/// advances the cursor.
pub fn ignore<T>(_x: T) {
}

} // verus!
