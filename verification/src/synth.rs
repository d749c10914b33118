//! The polyphase synthesis filter: matrixing against the cosine matrix,
//! construction of the 512-entry vector U from the rolling history V,
//! windowing by D, and emission of 32 clamped PCM samples per channel and
//! time slot.  All arithmetic is the wrapping 32-bit arithmetic of the
//! fixed-point pipeline, so each output is an exact function of the
//! history, the ring offset and the subband samples.

use vstd::prelude::*;

verus! {

use crate::decoder::MP2Stream;
use crate::tables::n_coef;
use crate::tables::D;
use vstd::arithmetic::div_mod::lemma_fundamental_div_mod;
use vstd::arithmetic::div_mod::lemma_fundamental_div_mod_converse;

/// The matrixing accumulator: the sum of the first `j` products
/// `N[i][k] * s[k]`, in wrapping arithmetic.
pub open spec fn mat_acc(s: Seq<i32>, i: int, j: int) -> i32
    decreases j,
{
    if j <= 0 {
        0
    } else {
        mat_acc(s, i, (j - 1) as int).wrapping_add(n_coef(i, j - 1).wrapping_mul(s[j - 1]))
    }
}

/// Row `i` of the matrixing output: the full 32-term sum, rounded and
/// scaled down to 14 bits.
pub open spec fn matrixed(s: Seq<i32>, i: int) -> i32 {
    mat_acc(s, i, 32).wrapping_add(8192) >> 14u32
}

/// The history ring of one channel after one matrixing step: the 64
/// entries from `voffs` hold the matrixing output, the rest are kept.
pub open spec fn v_after(v: Seq<i32>, voffs: int, s: Seq<i32>) -> Seq<i32> {
    Seq::new(1024, |k: int| if voffs <= k < voffs + 64 { matrixed(s, k - voffs) } else { v[k] })
}

/// Which history entry feeds slot `t` of U: the ring walk of the standard,
/// eight groups of two 32-entry half-blocks 128 apart, the second half
/// offset by a further 64.
pub open spec fn u_index(voffs: int, t: int) -> int {
    (voffs + 128 * (t / 64) + t % 64 + if t % 64 >= 32 { 64int } else { 0int }) % 1024
}

/// Slot `t` of U as first constructed from the history.
pub open spec fn u_built(v: Seq<i32>, voffs: int, t: int) -> i32 {
    v[u_index(voffs, t)]
}

/// Slot `t` of U after windowing by D.
pub open spec fn u_windowed(v: Seq<i32>, voffs: int, t: int) -> i32 {
    u_built(v, voffs, t).wrapping_mul(D[t]).wrapping_add(32) >> 6u32
}

/// The output accumulator for sample `j`: the negated sum of the first `i`
/// of the 16 windowed taps 32 apart.
pub open spec fn out_acc(v: Seq<i32>, voffs: int, j: int, i: int) -> i32
    decreases i,
{
    if i <= 0 {
        0
    } else {
        out_acc(v, voffs, j, (i - 1) as int).wrapping_sub(u_windowed(v, voffs, 32 * (i - 1) + j))
    }
}

/// Clamp a 32-bit value into the 16-bit PCM range.
pub open spec fn clamp16(x: i32) -> i16 {
    if x < -32768 {
        -32768i16
    } else if x > 32767 {
        32767i16
    } else {
        x as i16
    }
}

/// PCM sample `j` of one channel and time slot: the 16-tap sum, rounded,
/// scaled down by 4 bits and clamped.  `v` is the channel history after
/// matrixing.
pub open spec fn synth_out(v: Seq<i32>, voffs: int, j: int) -> i16 {
    clamp16(out_acc(v, voffs, j, 16).wrapping_add(8) >> 4u32)
}

/// Every synthesized PCM sample lies in the 16-bit signed range.
pub proof fn lemma_synth_out_in_range(v: Seq<i32>, voffs: int, j: int)
    ensures
        -32768 <= synth_out(v, voffs, j) <= 32767,
{
}

impl<'a> MP2Stream<'a> {
    /// Run one synthesis time slot for one channel: matrixing into the
    /// history ring at the current offset, U construction, windowing, and
    /// the 32 output samples.  The other channel's history and the ring
    /// offset are untouched, so equal histories and equal samples give
    /// bitwise equal outputs for the two channels.
    #[verifier::rlimit(100)]
    pub fn synthesize_channel(&mut self, ch: usize, s: &[i32; 32]) -> (out: [i16; 32])
        requires
            old(self).wf(),
            ch < 2,
        ensures
            final(self).wf(),
            final(self).context == old(self).context,
            final(self).Voffs == old(self).Voffs,
            final(self).V[ch as int]@ == v_after(
                old(self).V[ch as int]@,
                old(self).Voffs as int,
                s@,
            ),
            final(self).V[1 - ch as int] == old(self).V[1 - ch as int],
            forall|t: int| 0 <= t < 512 ==> final(self).U[t] == u_windowed(
                final(self).V[ch as int]@,
                old(self).Voffs as int,
                t,
            ),
            forall|j: int| 0 <= j < 32 ==> out[j] == synth_out(
                final(self).V[ch as int]@,
                old(self).Voffs as int,
                j,
            ),
    {
        let voffs = self.Voffs;
        let ghost s_seq = s@;
        let ghost v0 = self.V[ch as int]@;
        proof {
            crate::decoder::lemma_context_wf(*self.context);
            lemma_fundamental_div_mod(voffs as int, 64);
            assert(voffs + 64 <= 1024);
        }
        // matrixing: 64 new history entries at the ring offset
        let mut i: usize = 0;
        while i < 64
            invariant
                forall|a: int, b: int|
                    0 <= a < 64 && 0 <= b < 32 ==> self.context.N[a][b] == n_coef(a, b),
                i <= 64,
                ch < 2,
                voffs == self.Voffs,
                voffs + 64 <= 1024,
                self.context == old(self).context,
                s@ == s_seq,
                self.U == old(self).U,
                self.V[1 - ch as int] == old(self).V[1 - ch as int],
                forall|k: int|
                    0 <= k < 1024 && !(voffs <= k < voffs + i) ==> self.V[ch as int][k] == v0[k],
                forall|k: int|
                    voffs <= k < voffs + i ==> self.V[ch as int][k] == matrixed(s_seq, k - voffs),
            decreases 64 - i,
        {
            let mut sum: i32 = 0;
            let mut j: usize = 0;
            while j < 32
                invariant
                    j <= 32,
                    i < 64,
                    forall|a: int, b: int|
                        0 <= a < 64 && 0 <= b < 32 ==> self.context.N[a][b] == n_coef(a, b),
                    s@ == s_seq,
                    sum == mat_acc(s_seq, i as int, j as int),
                decreases 32 - j,
            {
                sum = sum.wrapping_add(self.context.N[i][j].wrapping_mul(s[j]));
                j = j + 1;
            }
            self.V[ch][voffs + i] = sum.wrapping_add(8192) >> 14u32;
            i = i + 1;
        }
        proof {
            assert(self.V[ch as int]@ =~= v_after(v0, voffs as int, s_seq));
        }
        let ghost v1 = self.V[ch as int]@;
        let ghost vsnap = self.V;
        // construction of U from the ring
        let mut i: usize = 0;
        while i < 8
            invariant
                i <= 8,
                ch < 2,
                voffs == self.Voffs,
                voffs + 64 <= 1024,
                self.context == old(self).context,
                self.V == vsnap,
                v1 == self.V[ch as int]@,
                forall|t: int| 0 <= t < 64 * i ==> self.U[t] == u_built(v1, voffs as int, t),
            decreases 8 - i,
        {
            let mut j: usize = 0;
            while j < 32
                invariant
                    j <= 32,
                    i < 8,
                    ch < 2,
                    voffs == self.Voffs,
                    voffs + 64 <= 1024,
                    self.context == old(self).context,
                    self.V == vsnap,
                    v1 == self.V[ch as int]@,
                    forall|t: int| 0 <= t < 64 * i ==> self.U[t] == u_built(v1, voffs as int, t),
                    forall|t: int|
                        64 * i <= t < 64 * i + j ==> self.U[t] == u_built(v1, voffs as int, t),
                    forall|t: int|
                        64 * i + 32 <= t < 64 * i + 32 + j ==> self.U[t] == u_built(
                            v1,
                            voffs as int,
                            t,
                        ),
                decreases 32 - j,
            {
                proof {
                    lemma_fundamental_div_mod_converse(64 * i + j, 64, i as int, j as int);
                    lemma_fundamental_div_mod_converse(64 * i + j + 32, 64, i as int, j + 32);
                }
                self.U[i * 64 + j] = self.V[ch][(voffs + i * 128 + j) % 1024];
                self.U[i * 64 + j + 32] = self.V[ch][(voffs + i * 128 + j + 96) % 1024];
                j = j + 1;
            }
            i = i + 1;
        }
        // windowing by D
        let mut t: usize = 0;
        while t < 512
            invariant
                t <= 512,
                ch < 2,
                voffs == self.Voffs,
                voffs + 64 <= 1024,
                self.context == old(self).context,
                self.V == vsnap,
                v1 == self.V[ch as int]@,
                forall|k: int| 0 <= k < t ==> self.U[k] == u_windowed(v1, voffs as int, k),
                forall|k: int| t <= k < 512 ==> self.U[k] == u_built(v1, voffs as int, k),
            decreases 512 - t,
        {
            self.U[t] = self.U[t].wrapping_mul(D[t]).wrapping_add(32) >> 6u32;
            t = t + 1;
        }
        // output: 32 clamped samples
        let mut out: [i16; 32] = [0; 32];
        let mut j: usize = 0;
        while j < 32
            invariant
                j <= 32,
                ch < 2,
                voffs == self.Voffs,
                voffs + 64 <= 1024,
                self.context == old(self).context,
                self.V == vsnap,
                v1 == self.V[ch as int]@,
                forall|k: int| 0 <= k < 512 ==> self.U[k] == u_windowed(v1, voffs as int, k),
                forall|k: int| 0 <= k < j ==> out[k] == synth_out(v1, voffs as int, k),
            decreases 32 - j,
        {
            let mut sum: i32 = 0;
            let mut i: usize = 0;
            while i < 16
                invariant
                    i <= 16,
                    j < 32,
                    voffs == self.Voffs,
                    v1 == self.V[ch as int]@,
                    forall|k: int| 0 <= k < 512 ==> self.U[k] == u_windowed(v1, voffs as int, k),
                    sum == out_acc(v1, voffs as int, j as int, i as int),
                decreases 16 - i,
            {
                sum = sum.wrapping_sub(self.U[i * 32 + j]);
                i = i + 1;
            }
            let mut x: i32 = sum.wrapping_add(8) >> 4u32;
            if x < -32768 {
                x = -32768;
            }
            if x > 32767 {
                x = 32767;
            }
            out[j] = x as i16;
            j = j + 1;
        }
        out
    }
}

} // verus!
