//! Frame-level properties of the decoder that span several calls: how the
//! ring offset evolves over successive decodes, and how the padding bit
//! moves the frame size.

use vstd::prelude::*;

verus! {

use crate::decoder::frame_size_spec;
use crate::decoder::h_bitrate_field;
use crate::decoder::h_sampling_frequency;
use crate::decoder::h_padding_bit;
use vstd::arithmetic::div_mod::lemma_small_mod;
use vstd::arithmetic::div_mod::lemma_add_mod_noop_right;
use vstd::arithmetic::div_mod::lemma_mod_multiples_vanish;

/// The ring offset after `n` successful decodes: each frame steps it by
/// 768 modulo 1024, as `decode_frame` ensures.
pub open spec fn voffs_after_frames(v0: int, n: nat) -> int
    decreases n,
{
    if n == 0 {
        v0
    } else {
        (voffs_after_frames(v0, (n - 1) as nat) + 768) % 1024
    }
}

/// After `n` successful decodes the ring offset is the initial offset
/// decremented by 64 for each of the 36 synthesis steps of each frame,
/// modulo 1024: `(v0 - 64 * 36 * n) mod 1024`, which is
/// `(v0 + 768 * n) mod 1024`.
pub proof fn lemma_voffs_after_frames(v0: int, n: nat)
    requires
        0 <= v0 < 1024,
    ensures
        voffs_after_frames(v0, n) == (v0 + 768 * n) % 1024,
        voffs_after_frames(v0, n) == (v0 - 64 * 36 * n) % 1024,
    decreases n,
{
    if n == 0 {
        lemma_small_mod(v0 as nat, 1024);
    } else {
        lemma_voffs_after_frames(v0, (n - 1) as nat);
        lemma_add_mod_noop_right(v0 + 768 * (n - 1), 768, 1024);
        lemma_small_mod(768nat, 1024);
        assert((voffs_after_frames(v0, (n - 1) as nat) + 768) % 1024 == (v0 + 768 * n) % 1024) by {
            lemma_add_mod_noop_right((v0 + 768 * (n - 1)) % 1024, 768, 1024);
            lemma_small_mod(((v0 + 768 * (n - 1)) % 1024) as nat, 1024);
            lemma_add_mod_noop_right(v0 + 768 * (n - 1), 768, 1024);
            assert(((v0 + 768 * (n - 1)) % 1024 + 768) % 1024 == (v0 + 768 * (n - 1) + 768) % 1024)
                by {
                lemma_mod_multiples_vanish(
                    (v0 + 768 * (n - 1)) / 1024,
                    (v0 + 768 * (n - 1)) % 1024 + 768,
                    1024,
                );
                vstd::arithmetic::div_mod::lemma_fundamental_div_mod(v0 + 768 * (n - 1), 1024);
            }
        }
    }
    // the positive and the subtractive form agree: they differ by 3072 * n
    assert((v0 + 768 * n) % 1024 == (v0 - 64 * 36 * n) % 1024) by {
        lemma_mod_multiples_vanish(3 * n as int, v0 - 2304 * n, 1024);
    }
}

/// Flipping the padding bit of a valid header from 0 to 1 grows the frame
/// size by exactly one byte.
pub proof fn lemma_padding_changes_frame_size(f0: Seq<u8>, f1: Seq<u8>)
    requires
        h_bitrate_field(f0) == h_bitrate_field(f1),
        1 <= h_bitrate_field(f0) <= 14,
        h_sampling_frequency(f0) == h_sampling_frequency(f1),
        h_sampling_frequency(f0) < 3,
        h_padding_bit(f0) == 0,
        h_padding_bit(f1) == 1,
    ensures
        frame_size_spec(f1) == frame_size_spec(f0) + 1,
{
}

} // verus!
