//! The frame parser and the per-stream decode state: header validation,
//! allocation and scale-factor reading, sample dequantization, and the
//! frame-level decode loop that drives the synthesis filter.

use vstd::prelude::*;

verus! {

use crate::bits::Bitstream;
use crate::bits::frame_byte;
use crate::bits::read_bits;
use crate::bits::lemma_read_bits_byte;
use crate::bits::lemma_read_bits_split;
use crate::bits::lemma_read_bits_bounds;
use crate::tables::MP2Constants;
use crate::tables::QuantizerSpec;
use crate::tables::q_wf;
use crate::tables::spec_quantizer_table;
use crate::tables::lemma_quantizer_table_wf;
use crate::tables::lemma_step3_range;
use crate::tables::lemma_step4_range;
use crate::tables::n_coef;
use crate::tables::build_cosine_matrix;
use crate::tables::QUANT_LUT_STEP3;
use crate::tables::QUANT_LUT_STEP4;
use crate::tables::SAMPLE_RATES;
use crate::tables::SCF_VALUE;
use vstd::arithmetic::power2::pow2;
use vstd::arithmetic::power2::lemma_pow2_strictly_increases;
use vstd::arithmetic::power2::lemma2_to64;
use vstd::arithmetic::div_mod::lemma_fundamental_div_mod_converse;
use vstd::arithmetic::div_mod::lemma_add_mod_noop;
use vstd::arithmetic::div_mod::lemma_add_mod_noop_right;
use vstd::arithmetic::div_mod::lemma_small_mod;
use vstd::arithmetic::div_mod::lemma_fundamental_div_mod;
use vstd::arithmetic::div_mod::lemma_mod_multiples_vanish;
use crate::tables::BITRATES;

/// The errors a frame can be rejected with.
#[derive(Clone, Copy, PartialEq, Eq, Structural, Debug)]
pub enum MP2Error {
    /// The first byte is not 0xFF, or the version and layer bits do not say
    /// MPEG-1 Audio Layer II.
    Sync,
    /// The bitrate index is 0 (free format) or 15 (reserved).
    InvalidBitRate,
    /// The sampling-frequency code is 3.
    InvalidSamplingFrequency,
    /// The PCM output buffer has fewer than 2304 slots.
    OutputBufferTooSmall,
}

/// The result of a decode operation.
pub type MP2Result<T> = Result<T, MP2Error>;

/// The channel mode of a frame.
#[derive(Clone, Copy, PartialEq, Eq, Structural, Debug)]
pub enum Mode {
    Stereo,
    JointStereo,
    DualChannel,
    Mono,
}

/// The mode denoted by the 2-bit mode field.
pub open spec fn spec_mode(n: int) -> Mode {
    if n == 0 {
        Mode::Stereo
    } else if n == 1 {
        Mode::JointStereo
    } else if n == 2 {
        Mode::DualChannel
    } else {
        Mode::Mono
    }
}

/// Decode the 2-bit mode field.
pub fn Mode(n: u32) -> (m: Mode)
    requires
        n < 4,
    ensures
        m == spec_mode(n as int),
{
    if n == 0 {
        Mode::Stereo
    } else if n == 1 {
        Mode::JointStereo
    } else if n == 2 {
        Mode::DualChannel
    } else {
        Mode::Mono
    }
}

/// The header bytes name MPEG-1 Audio Layer II: sync byte 0xFF, then the
/// version and layer bits.
pub open spec fn h_sync_ok(f: Seq<u8>) -> bool {
    &&& frame_byte(f, 0) == 0xff
    &&& frame_byte(f, 1) & 0xfe == 0xfc
}

/// The 4-bit bitrate index: the high nibble of byte 2.
pub open spec fn h_bitrate_field(f: Seq<u8>) -> int {
    frame_byte(f, 2) as int / 16
}

/// The 2-bit sampling-frequency code of byte 2.
pub open spec fn h_sampling_frequency(f: Seq<u8>) -> int {
    (frame_byte(f, 2) as int / 4) % 4
}

/// The padding bit of byte 2.
pub open spec fn h_padding_bit(f: Seq<u8>) -> int {
    (frame_byte(f, 2) as int / 2) % 2
}

/// The 2-bit mode field: the high bits of byte 3.
pub open spec fn h_mode_bits(f: Seq<u8>) -> int {
    frame_byte(f, 3) as int / 64
}

/// The byte length of a frame whose header is valid: bitrate and sample
/// rate fix it, and the padding bit adds one byte.
pub open spec fn frame_size_spec(f: Seq<u8>) -> int {
    144000 * crate::tables::BITRATES[h_bitrate_field(f) - 1] as int / SAMPLE_RATES[
        h_sampling_frequency(f)] as int + h_padding_bit(f)
}

/// What `decode_frame` returns, for every frame and output buffer: the
/// checks run in this order, and a frame that passes them all is decoded
/// and reports its byte length.
pub open spec fn spec_decode_result(f: Seq<u8>, pcm_len: int) -> MP2Result<u32> {
    if !h_sync_ok(f) {
        Err(MP2Error::Sync)
    } else if h_bitrate_field(f) == 0 || h_bitrate_field(f) == 15 {
        Err(MP2Error::InvalidBitRate)
    } else if h_sampling_frequency(f) == 3 {
        Err(MP2Error::InvalidSamplingFrequency)
    } else if pcm_len < 2304 {
        Err(MP2Error::OutputBufferTooSmall)
    } else {
        Ok(frame_size_spec(f) as u32)
    }
}

/// What `get_sample_rate` returns: the same sync and bitrate checks, then
/// the rate named by the sampling-frequency code (code 3 maps to 0).
pub open spec fn spec_sample_rate_result(f: Seq<u8>) -> MP2Result<i32> {
    if !h_sync_ok(f) {
        Err(MP2Error::Sync)
    } else if h_bitrate_field(f) == 0 || h_bitrate_field(f) == 15 {
        Err(MP2Error::InvalidBitRate)
    } else {
        Ok(SAMPLE_RATES[h_sampling_frequency(f)] as i32)
    }
}

/// The read-only decode context: the lookup tables and the cosine matrix,
/// built once and shared by any number of streams.
pub struct MP2Context {
    pub constants: MP2Constants,
    pub N: [[i32; 32]; 64],
}

impl MP2Context {
    /// The context holds exactly the canonical tables and matrix.
    #[verifier::opaque]
    pub open spec fn wf(self) -> bool {
        &&& self.constants.wf()
        &&& forall|i: int, j: int| 0 <= i < 64 && 0 <= j < 32 ==> self.N[i][j] == n_coef(i, j)
    }
}

/// What the well-formedness of a context gives: canonical tables and the
/// canonical cosine matrix.
pub proof fn lemma_context_wf(c: MP2Context)
    requires
        c.wf(),
    ensures
        c.constants.wf(),
        forall|i: int, j: int| 0 <= i < 64 && 0 <= j < 32 ==> c.N[i][j] == n_coef(i, j),
{
    reveal(MP2Context::wf);
}

/// Build the decode context.
pub fn MP2Context() -> (c: MP2Context)
    ensures
        c.wf(),
{
    let c = MP2Context { constants: crate::tables::MP2Constants(), N: build_cosine_matrix() };
    proof {
        reveal(MP2Context::wf);
    }
    c
}

/// One decode stream: a reference to the shared context, the 1024-sample
/// polyphase history per channel, the shared ring offset, and the 512-entry
/// window scratchpad.
pub struct MP2Stream<'a> {
    pub context: &'a MP2Context,
    pub V: [[i32; 1024]; 2],
    pub Voffs: usize,
    pub U: [i32; 512],
}

impl<'a> MP2Stream<'a> {
    /// The stream invariant: the context is canonical and the ring offset
    /// is a multiple of 64 below 1024.
    pub open spec fn wf(self) -> bool {
        &&& self.context.wf()
        &&& self.Voffs < 1024
        &&& self.Voffs % 64 == 0
    }
}

/// Build a stream bound to a context, with zeroed history.
pub fn MP2Stream<'a>(context: &'a MP2Context) -> (s: MP2Stream<'a>)
    ensures
        s.context == context,
        context.wf() ==> s.wf(),
        s.Voffs == 0,
        forall|ch: int, k: int| 0 <= ch < 2 && 0 <= k < 1024 ==> s.V[ch][k] == 0,
{
    MP2Stream { context, V: [[0; 1024]; 2], Voffs: 0, U: [0; 512] }
}

/// The number of allocation bits read for a subband: `nbal` from the
/// step-3 table.
pub open spec fn alloc_nbal(sb: int, b2_table: int) -> nat {
    (QUANT_LUT_STEP3[b2_table][sb] / 16) as nat
}

/// The allocation denoted by the `nbal` bits at `pos`: no bits, or one of
/// the 17 quantizers, through the step-3 and step-4 tables.
pub open spec fn spec_read_allocation(f: Seq<u8>, pos: int, sb: int, b2_table: int) -> Option<
    QuantizerSpec,
> {
    let t = QUANT_LUT_STEP3[b2_table][sb];
    let code = read_bits(f, pos, (t / 16) as nat);
    let qidx = QUANT_LUT_STEP4[(t % 16) as int][code];
    if qidx == 0 {
        None
    } else {
        Some(spec_quantizer_table()[qidx - 1])
    }
}

/// Truncating division, as 32-bit integer division behaves: the quotient
/// is rounded toward zero.
pub open spec fn tdiv(a: int, b: int) -> int {
    if a >= 0 {
        a / b
    } else {
        -((-a) / b)
    }
}

/// Truncating division of a decoded sample value by a positive 16-bit
/// renormalization divisor.
fn tdiv_exec(a: i32, b: u16) -> (r: i32)
    requires
        b >= 1,
        a > i32::MIN,
    ensures
        r as int == tdiv(a as int, b as int),
{
    if a >= 0 {
        ((a as u32) / (b as u32)) as i32
    } else {
        let q = ((-a) as u32) / (b as u32);
        -(q as i32)
    }
}

/// The renormalization adjustment of a quantizer: half its level count,
/// rounded up, minus one.
pub open spec fn spec_adj(q: QuantizerSpec) -> int {
    (q.nlevels + 1) as int / 2 - 1
}

/// Renormalize a raw code `x` into a fixed-point value in about
/// `[-1, 1)`: `(adj - x) * Smul + (adj - x) / Sdiv`, in wrapping 32-bit
/// arithmetic with truncating division.
pub open spec fn spec_requantize(x: int, q: QuantizerSpec) -> i32 {
    let val = (spec_adj(q) - x) as i32;
    val.wrapping_mul(q.Smul as i32).wrapping_add(tdiv(val as int, q.Sdiv as int) as i32)
}

/// The high 13 bits of a scale-factor magnitude.
pub open spec fn scf_hi(scf: i32) -> i32 {
    ((scf as u32) / 4096) as i32
}

/// The low 12 bits of a scale-factor magnitude.
pub open spec fn scf_lo(scf: i32) -> i32 {
    ((scf as u32) % 4096) as i32
}

/// Apply a scale factor to a renormalized value: the two-part
/// multiply-and-add of the standard, which preserves precision without
/// 64-bit intermediates.
pub open spec fn spec_scale(y: i32, scf: i32) -> i32 {
    y.wrapping_mul(scf_hi(scf)).wrapping_add(
        y.wrapping_mul(scf_lo(scf)).wrapping_add(2048) >> 12u32,
    ) >> 12u32
}

/// A fully dequantized sample: raw code `x` renormalized by quantizer `q`
/// and scaled by the magnitude at `scf_index`.
pub open spec fn spec_dequant(x: int, q: QuantizerSpec, scf_index: int) -> i32 {
    spec_scale(spec_requantize(x, q), SCF_VALUE[scf_index])
}

/// The `k`-th of three codes packed into one grouped codeword `v` by
/// successive division by the level count.
pub open spec fn group_code(v: int, n: int, k: int) -> int {
    if k == 0 {
        v % n
    } else if k == 1 {
        (v / n) % n
    } else {
        (v / n) / n
    }
}

/// Sample `k` of the three decoded from the bits at `pos`: one grouped
/// codeword, or three independent ones.
pub open spec fn spec_samples(f: Seq<u8>, pos: int, q: QuantizerSpec, scf_index: int, k: int) -> i32 {
    if q.grouping != 0 {
        spec_dequant(group_code(read_bits(f, pos, q.cw_bits as nat), q.nlevels as int, k), q, scf_index)
    } else {
        spec_dequant(read_bits(f, pos + k * q.cw_bits, q.cw_bits as nat), q, scf_index)
    }
}

/// How many bits the three samples of one subband occupy.
pub open spec fn sample_bits(q_opt: Option<QuantizerSpec>) -> int {
    match q_opt {
        Option::None => 0,
        Option::Some(q) => if q.grouping != 0 {
            q.cw_bits as int
        } else {
            3 * q.cw_bits
        },
    }
}

impl<'a> MP2Stream<'a> {
    /// Read the bit allocation of one subband: `nbal` bits, mapped through
    /// the step-4 table to a quantizer or to "no bits allocated".
    pub fn read_allocation(&self, bitstream: &mut Bitstream, sb: usize, b2_table: usize) -> (r:
        Option<QuantizerSpec>)
        requires
            self.wf(),
            old(bitstream).wf(),
            sb < 32,
            b2_table < 2,
        ensures
            final(bitstream).wf(),
            final(bitstream).frame == old(bitstream).frame,
            final(bitstream).bitpos@ == old(bitstream).bitpos@ + alloc_nbal(
                sb as int,
                b2_table as int,
            ),
            r == spec_read_allocation(
                old(bitstream).frame@,
                old(bitstream).bitpos@,
                sb as int,
                b2_table as int,
            ),
            r matches Some(q) ==> q_wf(q),
    {
        proof {
            lemma_step3_range();
            lemma_step4_range();
            lemma_quantizer_table_wf();
            lemma_context_wf(*self.context);
            crate::tables::lemma_constants_wf(self.context.constants);
        }
        let t = self.context.constants.QUANT_LUT_STEP3[b2_table][sb];
        let nbal = (t / 16) as u32;
        let code = bitstream.get_bits(nbal);
        proof {
            lemma2_to64();
            if nbal < 4 {
                lemma_pow2_strictly_increases(nbal as nat, 4);
            }
            assert(code < 16);
        }
        let row = (t % 16) as usize;
        let qidx = self.context.constants.QUANT_LUT_STEP4[row][code as usize];
        if qidx != 0 {
            Some(self.context.constants.QUANTIZER_TABLE[(qidx - 1) as usize])
        } else {
            None
        }
    }

    /// Read and dequantize the three samples of one subband, or three
    /// zeros where no bits are allocated.
    #[verifier::rlimit(50)]
    pub fn read_samples(&self, bitstream: &mut Bitstream, q_opt: Option<QuantizerSpec>,
        scalefactor: u32) -> (sample: [i32; 3])
        requires
            old(bitstream).wf(),
            scalefactor < 64,
            q_opt matches Some(q) ==> q_wf(q),
        ensures
            final(bitstream).wf(),
            final(bitstream).frame == old(bitstream).frame,
            final(bitstream).bitpos@ == old(bitstream).bitpos@ + sample_bits(q_opt),
            q_opt is None ==> forall|k: int| 0 <= k < 3 ==> sample[k] == 0,
            q_opt matches Some(q) ==> forall|k: int|
                0 <= k < 3 ==> sample[k] == spec_samples(
                    old(bitstream).frame@,
                    old(bitstream).bitpos@,
                    q,
                    scalefactor as int,
                    k,
                ),
    {
        let q = match q_opt {
            None => { return [0, 0, 0]; },
            Some(q) => q,
        };
        let ghost f = bitstream.frame@;
        let ghost pos = bitstream.bitpos@;
        let scf: i32 = SCF_VALUE[scalefactor as usize];
        proof {
            assert(forall|k: int| 0 <= k < 64 ==> SCF_VALUE[k] >= 0);
        }
        let mut raw: [u32; 3] = [0, 0, 0];
        proof {
            lemma2_to64();
            if (q.cw_bits as nat) < 16 {
                lemma_pow2_strictly_increases(q.cw_bits as nat, 16);
            }
        }
        if q.grouping != 0 {
            // three samples packed into one codeword: repeated
            // modulo-then-divide keeps every intermediate small
            let v = bitstream.get_bits(q.cw_bits as u32);
            let n = q.nlevels as u32;
            raw[0] = v % n;
            let v2 = v / n;
            raw[1] = v2 % n;
            raw[2] = v2 / n;
            proof {
                assert(raw[0] as int == group_code(read_bits(f, pos, q.cw_bits as nat), q.nlevels as int, 0));
                assert(raw[1] as int == group_code(read_bits(f, pos, q.cw_bits as nat), q.nlevels as int, 1));
                assert(raw[2] as int == group_code(read_bits(f, pos, q.cw_bits as nat), q.nlevels as int, 2));
            }
        } else {
            raw[0] = bitstream.get_bits(q.cw_bits as u32);
            raw[1] = bitstream.get_bits(q.cw_bits as u32);
            raw[2] = bitstream.get_bits(q.cw_bits as u32);
        }
        proof {
            assert(forall|k: int| 0 <= k < 3 ==> raw[k] < 65536) by {
                lemma_read_bits_bounds(f, pos, q.cw_bits as nat);
            }
        }
        let adj_u: u32 = ((q.nlevels as u32) + 1) / 2 - 1;
        let adj: i32 = adj_u as i32;
        let mut sample: [i32; 3] = [0, 0, 0];
        let ghost raws = raw;
        let ghost scf0 = scf;
        for idx in 0..3usize
            invariant
                adj as int == spec_adj(q),
                q_wf(q),
                raw == raws,
                scf == scf0,
                scf >= 0,
                forall|k: int| 0 <= k < 3 ==> raw[k] < 65536,
                forall|k: int| 0 <= k < idx ==> sample[k] == spec_scale(
                    spec_requantize(raw[k] as int, q),
                    scf0,
                ),
        {
            // renormalization to about [-1, 1)
            let val: i32 = adj - (raw[idx] as i32);
            let y: i32 = val.wrapping_mul(q.Smul as i32).wrapping_add(tdiv_exec(val, q.Sdiv));
            // apply the scale factor in two parts
            let hi: i32 = ((scf as u32) / 4096) as i32;
            let lo: i32 = ((scf as u32) % 4096) as i32;
            sample[idx] = y.wrapping_mul(hi).wrapping_add(
                y.wrapping_mul(lo).wrapping_add(2048) >> 12u32,
            ) >> 12u32;
        }
        proof {
            if q.grouping != 0 {
                assert(sample[0] == spec_samples(f, pos, q, scalefactor as int, 0));
                assert(sample[1] == spec_samples(f, pos, q, scalefactor as int, 1));
                assert(sample[2] == spec_samples(f, pos, q, scalefactor as int, 2));
            } else {
                assert(sample[0] == spec_samples(f, pos, q, scalefactor as int, 0));
                assert(sample[1] == spec_samples(f, pos, q, scalefactor as int, 1));
                assert(sample[2] == spec_samples(f, pos, q, scalefactor as int, 2));
            }
        }
        sample
    }

    /// Probe the sample rate of a frame from its first three bytes.  The
    /// layer check accepts the same headers as `decode_frame`, CRC or not,
    /// so the probe and the decoder agree on which streams they take.
    #[verifier::rlimit(50)]
    pub fn get_sample_rate(&self, frame: &[u8]) -> (r: MP2Result<i32>)
        requires
            frame@.len() >= 3,
        ensures
            r == spec_sample_rate_result(frame@),
    {
        if frame[0] != 0xff {
            return Err(MP2Error::Sync);
        }
        if (frame[1] & 0xfe) != 0xfc {
            return Err(MP2Error::Sync);
        }
        let b2 = frame[2];
        if b2 < 0x10 || b2 >= 0xf0 {
            return Err(MP2Error::InvalidBitRate);
        }
        let sf = ((b2 as usize) / 4) % 4;
        let rate = SAMPLE_RATES[sf];
        proof {
            assert(forall|k: int| 0 <= k < 4 ==> SAMPLE_RATES[k] <= 48000);
        }
        Ok(rate as i32)
    }
}

/// The bit fields of the header, as the reader returns them, are exactly
/// the byte-level fields: the high nibble of byte 2 is the bitrate index,
/// then the sampling frequency, the padding bit, and the mode bits of
/// byte 3.
proof fn lemma_header_fields(f: Seq<u8>)
    ensures
        read_bits(f, 16, 4) == h_bitrate_field(f),
        read_bits(f, 20, 2) == h_sampling_frequency(f),
        read_bits(f, 22, 1) == h_padding_bit(f),
        read_bits(f, 24, 2) == h_mode_bits(f),
{
    let b2 = frame_byte(f, 2) as int;
    let b3 = frame_byte(f, 3) as int;
    lemma_read_bits_byte(f, 2);
    lemma_read_bits_byte(f, 3);
    let r4 = read_bits(f, 16, 4);
    let r2 = read_bits(f, 20, 2);
    let r1 = read_bits(f, 22, 1);
    let r0 = read_bits(f, 23, 1);
    lemma_read_bits_split(f, 16, 4, 4);
    lemma_read_bits_split(f, 20, 2, 2);
    lemma_read_bits_split(f, 22, 1, 1);
    lemma_read_bits_bounds(f, 16, 4);
    lemma_read_bits_bounds(f, 20, 2);
    lemma_read_bits_bounds(f, 22, 1);
    lemma_read_bits_bounds(f, 23, 1);
    lemma2_to64();
    assert(b2 == r4 * 16 + (r2 * 4 + (r1 * 2 + r0)));
    lemma_fundamental_div_mod_converse(b2, 16, r4, r2 * 4 + r1 * 2 + r0);
    lemma_fundamental_div_mod_converse(b2, 4, r4 * 4 + r2, r1 * 2 + r0);
    lemma_fundamental_div_mod_converse(r4 * 4 + r2, 4, r4, r2);
    lemma_fundamental_div_mod_converse(b2, 2, r4 * 8 + r2 * 2 + r1, r0);
    lemma_fundamental_div_mod_converse(r4 * 8 + r2 * 2 + r1, 2, r4 * 4 + r2, r1);
    let rm = read_bits(f, 24, 2);
    lemma_read_bits_split(f, 24, 2, 6);
    lemma_read_bits_bounds(f, 24, 2);
    lemma_read_bits_bounds(f, 26, 6);
    lemma_fundamental_div_mod_converse(b3, 64, rm, read_bits(f, 26, 6));
}


impl<'a> MP2Stream<'a> {
    /// Decode one MP2 frame into 2304 interleaved 16-bit PCM samples at
    /// the start of `pcm`, and report the frame's byte length.
    ///
    /// The header checks and the returned value are pinned by
    /// `spec_decode_result`; a rejected frame leaves the stream and the
    /// buffer untouched.  A successful decode advances the ring offset by
    /// 36 steps of 64, touches nothing beyond the first 2304 PCM slots,
    /// and, for a mono frame decoded on a stream whose two channel
    /// histories agree, emits bitwise equal left and right samples.
    ///
    /// The buffer must hold at least 2304 slots, the exact amount one
    /// frame produces; a shorter buffer is rejected.
    #[verifier::rlimit(100)]
    #[verifier::loop_isolation(false)]
    pub fn decode_frame(&mut self, frame: &[u8], pcm: &mut Vec<i16>) -> (r: MP2Result<u32>)
        requires
            old(self).wf(),
            frame@.len() >= 3,
        ensures
            final(self).wf(),
            final(self).context == old(self).context,
            final(pcm)@.len() == old(pcm)@.len(),
            forall|k: int| 2304 <= k < old(pcm)@.len() ==> final(pcm)@[k] == old(pcm)@[k],
            r == spec_decode_result(frame@, old(pcm)@.len() as int),
            r is Err ==> *final(self) == *old(self) && final(pcm)@ == old(pcm)@,
            r is Ok ==> final(self).Voffs as int == (old(self).Voffs + 768) % 1024,
            r is Ok && spec_mode(h_mode_bits(frame@)) == Mode::Mono && old(self).V[0]@ == old(
                self,
            ).V[1]@ ==> final(self).V[0]@ == final(self).V[1]@ && (forall|k: int|
                0 <= k < 1152 ==> #[trigger] final(pcm)@[2 * k] == final(pcm)@[2 * k + 1]),
    {
        let ghost f = frame@;
        // check for a valid header: syncword, MPEG-1 Audio Layer II
        if frame[0] != 0xff || (frame[1] & 0xfe) != 0xfc {
            return Err(MP2Error::Sync);
        }
        let mut bs = Bitstream::new(frame);
        proof {
            lemma_header_fields(f);
            lemma2_to64();
        }
        // read the rest of the header
        let brfield = bs.get_bits(4);
        if brfield == 0 || brfield == 15 {
            return Err(MP2Error::InvalidBitRate);
        }
        let bri = (brfield - 1) as usize;
        let sampling_frequency = bs.get_bits(2) as usize;
        if sampling_frequency == 3 {
            return Err(MP2Error::InvalidSamplingFrequency);
        }
        let padding_bit = bs.get_bits(1);
        crate::ignore(bs.get_bits(1));  // discard the private bit
        let mode = Mode(bs.get_bits(2));
        // parse the mode extension; set up the stereo bound
        let mut bound: usize;
        match mode {
            Mode::JointStereo => {
                bound = ((bs.get_bits(2) + 1) * 4) as usize;
            },
            Mode::Mono => {
                crate::ignore(bs.get_bits(2));
                bound = 0;
            },
            _ => {
                crate::ignore(bs.get_bits(2));
                bound = 32;
            },
        }
        // discard the last 4 header bits and the CRC value if present
        crate::ignore(bs.get_bits(4));
        if (frame[1] & 1) == 0 {
            crate::ignore(bs.get_bits(16));
        }
        // compute the frame size
        proof {
            assert(forall|k: int| 0 <= k < 14 ==> BITRATES[k] <= 384);
            assert(SAMPLE_RATES[0] == 44100 && SAMPLE_RATES[1] == 48000 && SAMPLE_RATES[2]
                == 32000);
        }
        let frame_size: u32 = 144000 * BITRATES[bri] / SAMPLE_RATES[sampling_frequency]
            + padding_bit;
        proof {
            assert(frame_size as int == frame_size_spec(f));
        }
        // the frame always yields 2304 PCM samples, so ask for that many
        // output slots outright
        if pcm.len() < 2304 {
            return Err(MP2Error::OutputBufferTooSmall);
        }
        // prepare the quantizer table lookups
        proof {
            crate::tables::lemma_step1_range();
            crate::tables::lemma_step2_range();
            lemma_context_wf(*self.context);
            crate::tables::lemma_constants_wf(self.context.constants);
        }
        let row0: usize = if mode == Mode::Mono {
            0
        } else {
            1
        };
        let t1 = self.context.constants.QUANT_LUT_STEP1[row0][bri] as usize;
        let t2 = self.context.constants.QUANT_LUT_STEP2[t1][sampling_frequency];
        let sblimit = (t2 % 64) as usize;
        let table_idx = (t2 / 64) as usize;
        if bound > sblimit {
            bound = sblimit;
        }
        // read the allocation information
        let mut allocation: [[Option<QuantizerSpec>; 32]; 2] = [[None;32], [None;32]];
        let mut sb: usize = 0;
        while sb < bound
            invariant
                sb <= bound,
                bs.wf(),
                bs.frame == frame,
                forall|c: int, s2: int|
                    0 <= c < 2 && 0 <= s2 < 32 ==> (#[trigger] allocation[c][s2] matches Some(q)
                        ==> q_wf(q)),
            decreases bound - sb,
        {
            let a0 = self.read_allocation(&mut bs, sb, table_idx);
            allocation[0][sb] = a0;
            let a1 = self.read_allocation(&mut bs, sb, table_idx);
            allocation[1][sb] = a1;
            sb = sb + 1;
        }
        while sb < sblimit
            invariant
                bound <= sb <= sblimit,
                bs.wf(),
                bs.frame == frame,
                forall|c: int, s2: int|
                    0 <= c < 2 && 0 <= s2 < 32 ==> (#[trigger] allocation[c][s2] matches Some(q)
                        ==> q_wf(q)),
                forall|s2: int| bound <= s2 < sb ==> allocation[1][s2] == allocation[0][s2],
            decreases sblimit - sb,
        {
            let a = self.read_allocation(&mut bs, sb, table_idx);
            allocation[0][sb] = a;
            allocation[1][sb] = a;
            sb = sb + 1;
        }
        // read scale factor selector information
        let num_channels: usize = if mode == Mode::Mono {
            1
        } else {
            2
        };
        let mut scfsi: [[u32; 32]; 2] = [[0;32], [0;32]];
        let mut sb: usize = 0;
        while sb < sblimit
            invariant
                sb <= sblimit,
                bs.wf(),
                bs.frame == frame,
                forall|c: int, s2: int| 0 <= c < 2 && 0 <= s2 < 32 ==> #[trigger] scfsi[c][s2] < 4,
            decreases sblimit - sb,
        {
            let mut ch: usize = 0;
            while ch < num_channels
                invariant
                    ch <= num_channels,
                    bs.wf(),
                    bs.frame == frame,
                    forall|c: int, s2: int|
                        0 <= c < 2 && 0 <= s2 < 32 ==> #[trigger] scfsi[c][s2] < 4,
                decreases num_channels - ch,
            {
                if allocation[ch][sb].is_some() {
                    scfsi[ch][sb] = bs.get_bits(2);
                    proof {
                        lemma2_to64();
                    }
                }
                ch = ch + 1;
            }
            if mode == Mode::Mono {
                scfsi[1][sb] = scfsi[0][sb];
            }
            sb = sb + 1;
        }
        // read the scale factors
        let mut scalefactor: [[[u32; 3]; 32]; 2] = [[[0;3];32], [[0;3];32]];
        let mut sb: usize = 0;
        while sb < sblimit
            invariant
                sb <= sblimit,
                bs.wf(),
                bs.frame == frame,
                forall|c: int, s2: int, p: int|
                    0 <= c < 2 && 0 <= s2 < 32 && 0 <= p < 3 ==> #[trigger] scalefactor[c][s2][p]
                        < 64,
            decreases sblimit - sb,
        {
            let mut ch: usize = 0;
            while ch < num_channels
                invariant
                    ch <= num_channels,
                    bs.wf(),
                    bs.frame == frame,
                    forall|c: int, s2: int, p: int|
                        0 <= c < 2 && 0 <= s2 < 32 && 0 <= p < 3 ==> #[trigger] scalefactor[c][
                            s2][p] < 64,
                decreases num_channels - ch,
            {
                if allocation[ch][sb].is_some() {
                    proof {
                        lemma2_to64();
                    }
                    match scfsi[ch][sb] {
                        0 => {
                            scalefactor[ch][sb][0] = bs.get_bits(6);
                            scalefactor[ch][sb][1] = bs.get_bits(6);
                            scalefactor[ch][sb][2] = bs.get_bits(6);
                        },
                        1 => {
                            let a = bs.get_bits(6);
                            scalefactor[ch][sb][0] = a;
                            scalefactor[ch][sb][1] = a;
                            scalefactor[ch][sb][2] = bs.get_bits(6);
                        },
                        2 => {
                            let a = bs.get_bits(6);
                            scalefactor[ch][sb][0] = a;
                            scalefactor[ch][sb][1] = a;
                            scalefactor[ch][sb][2] = a;
                        },
                        _ => {
                            scalefactor[ch][sb][0] = bs.get_bits(6);
                            let a = bs.get_bits(6);
                            scalefactor[ch][sb][1] = a;
                            scalefactor[ch][sb][2] = a;
                        },
                    }
                }
                ch = ch + 1;
            }
            if mode == Mode::Mono {
                scalefactor[1][sb][0] = scalefactor[0][sb][0];
                scalefactor[1][sb][1] = scalefactor[0][sb][1];
                scalefactor[1][sb][2] = scalefactor[0][sb][2];
            }
            sb = sb + 1;
        }
        // coefficient input, reconstruction and synthesis
        let ghost voffs_start = self.Voffs as int;
        let ghost mono_mirror = mode == Mode::Mono && old(self).V[0]@ == old(self).V[1]@;
        let mono = mode == Mode::Mono;
        let mut granule: usize = 0;
        while granule < 12
            invariant
                granule <= 12,
                bs.wf(),
                bs.frame == frame,
                self.wf(),
                self.context == old(self).context,
                self.Voffs as int == (voffs_start + 2880 * granule) % 1024,
                mono_mirror ==> self.V[0]@ == self.V[1]@,
                pcm@.len() == old(pcm)@.len(),
                forall|k: int| 192 * granule <= k < pcm@.len() ==> pcm@[k] == old(pcm)@[k],
                mono_mirror ==> forall|k: int|
                    0 <= k < 96 * granule ==> #[trigger] pcm@[2 * k] == pcm@[2 * k + 1],
            decreases 12 - granule,
        {
            let part = granule / 4;
            let ghost voffs_granule = self.Voffs as int;
            let ghost pcm_granule = pcm@;
            self.decode_granule(
                &mut bs,
                &allocation,
                &scalefactor,
                part,
                bound,
                sblimit,
                mono,
                pcm,
                192 * granule,
            );
            proof {
                lemma_small_mod(self.Voffs as nat, 1024);
                lemma_small_mod(voffs_granule as nat, 1024);
                lemma_add_mod_noop(voffs_start + 2880 * granule, 2880, 1024);
                lemma_add_mod_noop_right(voffs_granule, 2880, 1024);
                assert(self.Voffs as int == (voffs_start + 2880 * (granule + 1)) % 1024);
            }
            granule = granule + 1;
        }
        proof {
            lemma_mod_multiples_vanish(33, voffs_start + 768, 1024);
            assert(voffs_start + 2880 * 12 == 1024 * 33 + (voffs_start + 768));
        }
        Ok(frame_size)
    }

    /// Decode one granule: read and dequantize the samples of every
    /// subband for both channels (mirroring the shared and silent bands),
    /// then run three synthesis time slots, writing 192 interleaved PCM
    /// values at `base0`.
    #[verifier::rlimit(100)]
    #[verifier::loop_isolation(false)]
    fn decode_granule(&mut self, bs: &mut Bitstream, allocation: &[[Option<QuantizerSpec>; 32]; 2],
        scalefactor: &[[[u32; 3]; 32]; 2], part: usize, bound: usize, sblimit: usize, mono: bool,
        pcm: &mut Vec<i16>, base0: usize)
        requires
            old(self).wf(),
            old(bs).wf(),
            part < 3,
            bound <= sblimit,
            sblimit <= 30,
            mono ==> bound == 0,
            forall|c: int, s2: int|
                0 <= c < 2 && 0 <= s2 < 32 ==> (#[trigger] allocation[c][s2] matches Some(q)
                    ==> q_wf(q)),
            forall|s2: int| bound <= s2 < sblimit ==> allocation[1][s2] == allocation[0][s2],
            forall|c: int, s2: int, p: int|
                0 <= c < 2 && 0 <= s2 < 32 && 0 <= p < 3 ==> #[trigger] scalefactor[c][s2][p] < 64,
            base0 % 2 == 0,
            base0 + 192 <= 2304,
            old(pcm)@.len() >= 2304,
        ensures
            final(bs).wf(),
            final(bs).frame == old(bs).frame,
            final(self).wf(),
            final(self).context == old(self).context,
            final(self).Voffs as int == (old(self).Voffs + 2880) % 1024,
            final(pcm)@.len() == old(pcm)@.len(),
            forall|k: int|
                0 <= k < old(pcm)@.len() && !(base0 <= k < base0 + 192) ==> final(pcm)@[k] == old(
                    pcm,
                )@[k],
            (mono && old(self).V[0]@ == old(self).V[1]@) ==> final(self).V[0]@ == final(self).V[1]@
                && (forall|k: int|
                base0 <= 2 * k < base0 + 192 ==> #[trigger] final(pcm)@[2 * k] == final(pcm)@[2 * k
                    + 1]),
    {
        let ghost mirror = mono && old(self).V[0]@ == old(self).V[1]@;
        // read the samples of this granule
        let mut sample: [[[i32; 3]; 32]; 2] = [[[0;3];32], [[0;3];32]];
        let mut sb: usize = 0;
        while sb < bound
            invariant
                sb <= bound,
                bs.wf(),
                bs.frame == old(bs).frame,
            decreases bound - sb,
        {
            let s0 = self.read_samples(bs, allocation[0][sb], scalefactor[0][sb][part]);
            sample[0][sb] = s0;
            let s1 = self.read_samples(bs, allocation[1][sb], scalefactor[1][sb][part]);
            sample[1][sb] = s1;
            sb = sb + 1;
        }
        while sb < sblimit
            invariant
                bound <= sb <= sblimit,
                bs.wf(),
                bs.frame == old(bs).frame,
                forall|s2: int| bound <= s2 < sb ==> sample[1][s2] == sample[0][s2],
            decreases sblimit - sb,
        {
            let smp = self.read_samples(bs, allocation[0][sb], scalefactor[0][sb][part]);
            sample[0][sb] = smp;
            sample[1][sb] = smp;
            sb = sb + 1;
        }
        let mut sb2: usize = sblimit;
        while sb2 < 32
            invariant
                sblimit <= sb2 <= 32,
                forall|s2: int| bound <= s2 < sblimit ==> sample[1][s2] == sample[0][s2],
                forall|s2: int| sblimit <= s2 < sb2 ==> sample[1][s2] == sample[0][s2],
            decreases 32 - sb2,
        {
            sample[0][sb2] = [0, 0, 0];
            sample[1][sb2] = [0, 0, 0];
            sb2 = sb2 + 1;
        }
        // synthesis: three time slots of 32 stereo samples each
        let ghost v0start = self.Voffs as int;
        let mut idx: usize = 0;
        while idx < 3
            invariant
                idx <= 3,
                self.wf(),
                self.context == old(self).context,
                self.Voffs as int == (v0start + 960 * idx) % 1024,
                mirror ==> self.V[0]@ == self.V[1]@,
                pcm@.len() == old(pcm)@.len(),
                forall|k: int|
                    0 <= k < pcm@.len() && !(base0 <= k < base0 + 64 * idx) ==> pcm@[k] == old(
                        pcm,
                    )@[k],
                mirror ==> forall|k: int|
                    base0 <= 2 * k < base0 + 64 * idx ==> #[trigger] pcm@[2 * k] == pcm@[2 * k
                        + 1],
            decreases 3 - idx,
        {
            // ring advance: step the offset down by 64, modulo 1024
            let ghost prev = self.Voffs as int;
            if self.Voffs >= 64 {
                self.Voffs = self.Voffs - 64;
            } else {
                self.Voffs = self.Voffs + 960;
            }
            proof {
                lemma_small_mod(prev as nat, 1024);
                lemma_add_mod_noop_right(prev, 960, 1024);
                lemma_add_mod_noop(v0start + 960 * idx, 960, 1024);
                lemma_small_mod(960nat, 1024);
                if prev >= 64 {
                    lemma_fundamental_div_mod_converse(prev + 960, 1024, 1, prev - 64);
                } else {
                    lemma_fundamental_div_mod_converse(prev + 960, 1024, 0, prev + 960);
                }
                lemma_mod_multiples_vanish(15, prev, 64);
                assert(self.Voffs as int == (v0start + 960 * (idx + 1)) % 1024);
                assert(self.Voffs % 64 == 0);
            }
            // gather this time slot's subband samples per channel
            let mut s0: [i32; 32] = [0;32];
            let mut t: usize = 0;
            while t < 32
                invariant
                    t <= 32,
                    forall|k: int| 0 <= k < t ==> s0[k] == sample[0][k][idx as int],
                decreases 32 - t,
            {
                s0[t] = sample[0][t][idx];
                t = t + 1;
            }
            let mut s1: [i32; 32] = [0;32];
            let mut t: usize = 0;
            while t < 32
                invariant
                    t <= 32,
                    forall|k: int| 0 <= k < t ==> s1[k] == sample[1][k][idx as int],
                decreases 32 - t,
            {
                s1[t] = sample[1][t][idx];
                t = t + 1;
            }
            let out0 = self.synthesize_channel(0, &s0);
            let out1 = self.synthesize_channel(1, &s1);
            // emit 32 interleaved stereo pairs
            let base = base0 + 64 * idx;
            let ghost pcm_snap = pcm@;
            let mut jj: usize = 0;
            while jj < 32
                invariant
                    jj <= 32,
                    pcm@.len() == old(pcm)@.len(),
                    forall|k: int|
                        0 <= k < jj ==> pcm@[base + 2 * k] == out0[k] && pcm@[base + 2 * k + 1]
                            == out1[k],
                    forall|k: int|
                        0 <= k < pcm@.len() && !(base <= k < base + 2 * jj) ==> pcm@[k]
                            == pcm_snap[k],
                decreases 32 - jj,
            {
                pcm[base + 2 * jj] = out0[jj];
                pcm[base + 2 * jj + 1] = out1[jj];
                jj = jj + 1;
            }
            proof {
                if mirror {
                    assert(s0@ =~= s1@);
                    assert(self.V[0]@ == self.V[1]@);
                    assert(base % 2 == 0);
                    lemma_fundamental_div_mod(base as int, 2);
                    assert forall|k: int|
                        base0 <= 2 * k < base0 + 64 * (idx + 1) implies #[trigger] pcm@[2 * k]
                        == pcm@[2 * k + 1] by {
                        if 2 * k < base {
                            assert(pcm@[2 * k] == pcm_snap[2 * k]);
                            assert(pcm@[2 * k + 1] == pcm_snap[2 * k + 1]);
                        } else {
                            let j = k - base / 2;
                            assert(pcm@[base + 2 * j] == out0[j]);
                            assert(pcm@[base + 2 * j + 1] == out1[j]);
                            assert(out0[j] == out1[j]);
                        }
                    }
                }
            }
            idx = idx + 1;
        }
    }
}

} // verus!
