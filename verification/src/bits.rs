//! The bitstream reader: a byte cursor plus a 24-bit MSB-aligned window.
//!
//! The specification views the frame as a sequence of bits (MSB of byte 0
//! first), with bytes past the end of the frame reading as zero; `get_bits`
//! returns exactly the bits at the current bit position and advances it.

use vstd::prelude::*;

verus! {

use vstd::arithmetic::power2::pow2;
use vstd::arithmetic::power2::lemma_pow2_adds;
use vstd::arithmetic::power2::lemma_pow2_pos;
use vstd::arithmetic::power2::lemma_pow2_unfold;
use vstd::arithmetic::power2::lemma2_to64;
use vstd::arithmetic::div_mod::lemma_fundamental_div_mod;
use vstd::arithmetic::div_mod::lemma_fundamental_div_mod_converse;
use vstd::arithmetic::div_mod::lemma_div_basics;
use vstd::arithmetic::div_mod::lemma_div_denominator;
use vstd::arithmetic::mul::lemma_mul_is_distributive_add_other_way;
use vstd::arithmetic::mul::lemma_mul_is_associative;
use vstd::arithmetic::mul::lemma_mul_is_commutative;
use vstd::arithmetic::mul::lemma_mul_upper_bound;
use vstd::arithmetic::power2::lemma_pow2_strictly_increases;
use vstd::arithmetic::mul::lemma_mul_strict_inequality;
use vstd::bits::lemma_u32_shr_is_div;
use vstd::bits::lemma_u32_shl_is_mul;

/// Byte `i` of the frame; bytes past the end read as zero.
pub open spec fn frame_byte(frame: Seq<u8>, i: int) -> u8 {
    if 0 <= i < frame.len() {
        frame[i]
    } else {
        0
    }
}

/// Bit `i` of the frame, where bit 0 is the most significant bit of byte 0.
pub open spec fn frame_bit(frame: Seq<u8>, i: int) -> int {
    (frame_byte(frame, i / 8) as int / pow2((7 - i % 8) as nat) as int) % 2
}

/// The value of the `n` bits starting at bit position `pos`, MSB first.
pub open spec fn read_bits(frame: Seq<u8>, pos: int, n: nat) -> int
    decreases n,
{
    if n == 0 {
        0
    } else {
        2 * read_bits(frame, pos, (n - 1) as nat) + frame_bit(frame, pos + n - 1)
    }
}

/// A field of `n` bits is a value in `[0, 2^n)`.
pub proof fn lemma_read_bits_bounds(frame: Seq<u8>, pos: int, n: nat)
    ensures
        0 <= read_bits(frame, pos, n) < pow2(n),
    decreases n,
{
    if n == 0 {
        lemma2_to64();
    } else {
        lemma_read_bits_bounds(frame, pos, (n - 1) as nat);
        lemma_pow2_unfold(n);
    }
}

/// Reading `m + n` bits is reading `m` bits and then the following `n` bits.
pub proof fn lemma_read_bits_split(frame: Seq<u8>, pos: int, m: nat, n: nat)
    ensures
        read_bits(frame, pos, m + n) == read_bits(frame, pos, m) * pow2(n) + read_bits(
            frame,
            pos + m,
            n,
        ),
    decreases n,
{
    let a = read_bits(frame, pos, m);
    if n == 0 {
        lemma2_to64();
    } else {
        lemma_read_bits_split(frame, pos, m, (n - 1) as nat);
        lemma_pow2_unfold(n);
        let b = read_bits(frame, pos + m, (n - 1) as nat);
        assert(read_bits(frame, pos, (m + n - 1) as nat) == a * pow2((n - 1) as nat) + b);
        let bit = frame_bit(frame, pos + m + n - 1);
        assert(read_bits(frame, pos, m + n) == 2 * (a * pow2((n - 1) as nat) + b) + bit);
        assert(2 * (a * pow2((n - 1) as nat)) == a * (2 * pow2((n - 1) as nat))) by {
            lemma_mul_is_associative(2, a, pow2((n - 1) as nat) as int);
            lemma_mul_is_commutative(2, a);
            lemma_mul_is_associative(a, 2, pow2((n - 1) as nat) as int);
        }
        assert(read_bits(frame, pos + m, n) == 2 * b + bit);
    }
}

proof fn lemma_read_bits_byte_partial(frame: Seq<u8>, k: int, j: nat)
    requires
        k >= 0,
        j <= 8,
    ensures
        read_bits(frame, 8 * k, j) == frame_byte(frame, k) as int / pow2((8 - j) as nat) as int,
    decreases j,
{
    let b = frame_byte(frame, k) as int;
    lemma2_to64();
    if j == 0 {
        vstd::arithmetic::div_mod::lemma_basic_div(b, pow2(8) as int);
    } else {
        lemma_read_bits_byte_partial(frame, k, (j - 1) as nat);
        let p = pow2((8 - j) as nat) as int;
        lemma_pow2_pos((8 - j) as nat);
        // the bit read in this step is bit j - 1 of byte k
        assert((8 * k + j - 1) / 8 == k && (8 * k + j - 1) % 8 == j - 1) by {
            lemma_fundamental_div_mod_converse(8 * k + j - 1, 8, k, j - 1);
        }
        assert(frame_bit(frame, 8 * k + j - 1) == (b / p) % 2);
        let q = b / p;
        lemma_fundamental_div_mod(q, 2);
        assert(q / 2 == b / (p * 2)) by {
            lemma_div_denominator(b, p, 2);
        }
        assert(p * 2 == pow2((9 - j) as nat)) by {
            lemma_pow2_adds((8 - j) as nat, 1);
        }
        assert(read_bits(frame, 8 * k, j) == 2 * (q / 2) + q % 2);
    }
}

/// The 8 bits at a byte boundary are exactly that byte of the frame.
pub proof fn lemma_read_bits_byte(frame: Seq<u8>, k: int)
    requires
        k >= 0,
    ensures
        read_bits(frame, 8 * k, 8) == frame_byte(frame, k) as int,
    decreases k,
{
    lemma_read_bits_byte_partial(frame, k, 8);
    lemma2_to64();
    lemma_div_basics(frame_byte(frame, k) as int);
}

/// The bitstream reader over one frame.  `bit_window` holds the next
/// `bits_in_window` unread bits of the frame, MSB-aligned in 24 bits, with
/// zeros below them; `frame_pos` is the byte cursor of the next byte to pull
/// into the window; `bitpos` is the position of the next unread bit.
pub struct Bitstream<'a> {
    pub frame: &'a [u8],
    pub bit_window: u32,
    pub bits_in_window: u32,
    pub frame_pos: usize,
    pub bitpos: Ghost<int>,
}

impl<'a> Bitstream<'a> {
    /// The byte cursor sits at the first byte not yet pulled into the
    /// window, clamped to the end of the frame.
    pub open spec fn cursor_ok(self) -> bool {
        let end = self.bitpos@ + self.bits_in_window;
        &&& end % 8 == 0
        &&& if end / 8 <= self.frame@.len() {
            self.frame_pos == end / 8
        } else {
            self.frame_pos == self.frame@.len()
        }
    }

    /// The reader invariant, except that the window may be low on bits.
    pub open spec fn inv(self) -> bool {
        &&& self.bits_in_window <= 24
        &&& self.bitpos@ >= 0
        &&& self.bit_window < 0x100_0000
        &&& self.bit_window as int == read_bits(self.frame@, self.bitpos@, self.bits_in_window as nat)
            * pow2((24 - self.bits_in_window) as nat) as int
        &&& self.cursor_ok()
    }

    /// The reader invariant: at least 16 bits are present in the window, so
    /// any read of up to 16 bits is in order.
    pub open spec fn wf(self) -> bool {
        &&& self.inv()
        &&& self.bits_in_window >= 16
    }

    /// Start reading at bit 16, that is at byte 2, the first header byte
    /// after the two sync bytes.
    pub fn new(frame: &'a [u8]) -> (bs: Bitstream<'a>)
        requires
            frame@.len() >= 3,
        ensures
            bs.wf(),
            bs.frame == frame,
            bs.bitpos@ == 16,
    {
        let w = (frame[2] as u32) << 16u32;
        proof {
            lemma2_to64();
            lemma_u32_shl_is_mul(frame@[2] as u32, 16);
            lemma_read_bits_byte(frame@, 2);
        }
        let mut bs = Bitstream {
            frame,
            bit_window: w,
            bits_in_window: 8,
            frame_pos: 3,
            bitpos: Ghost(16int),
        };
        bs.refill();
        bs
    }

    /// Pull one byte (zero past the end of the frame) into the window.
    fn refill_once(&mut self)
        requires
            old(self).inv(),
            old(self).bits_in_window <= 16,
        ensures
            final(self).inv(),
            final(self).bits_in_window == old(self).bits_in_window + 8,
            final(self).frame == old(self).frame,
            final(self).bitpos == old(self).bitpos,
    {
        let ghost f = self.frame@;
        let ghost p = self.bitpos@;
        let ghost b = self.bits_in_window as nat;
        let ghost end = p + b;
        let ghost k = end / 8;
        let ch: u8 = if self.frame_pos < self.frame.len() {
            let c = self.frame[self.frame_pos];
            self.frame_pos = self.frame_pos + 1;
            c
        } else {
            0
        };
        proof {
            assert(ch as int == frame_byte(f, k) as int);
        }
        let shift: u32 = 16 - self.bits_in_window;
        proof {
            lemma2_to64();
            if shift < 16 {
                lemma_pow2_strictly_increases(shift as nat, 16);
            }
            lemma_pow2_pos(shift as nat);
            lemma_mul_upper_bound(ch as int, 255, pow2(shift as nat) as int, 65536);
            lemma_u32_shl_is_mul(ch as u32, shift);
        }
        let add: u32 = (ch as u32) << shift;
        proof {
            assert(add as int == ch as int * pow2((16 - b) as nat));
            // ch * 2^(16-b) < 2^(24-b) <= 2^24, so the addition keeps the
            // low bits of the window intact
            lemma_mul_strict_inequality(ch as int, 256, pow2((16 - b) as nat) as int);
            assert(256 * pow2((16 - b) as nat) == pow2((24 - b) as nat)) by {
                lemma_pow2_adds(8, (16 - b) as nat);
            }
            if b > 0 {
                lemma_pow2_strictly_increases((24 - b) as nat, 24);
            }
            assert(add < 0x100_0000);
        }
        self.bit_window = self.bit_window + add;
        self.bits_in_window = self.bits_in_window + 8;
        proof {
            let r = read_bits(f, p, b);
            let r2 = read_bits(f, p, b + 8);
            lemma_read_bits_split(f, p, b, 8);
            lemma_read_bits_byte(f, k);
            assert(8 * k == end);
            assert(r2 == r * 256 + ch) by {
                lemma2_to64();
            }
            // window value: r * 2^(24-b) + ch * 2^(16-b) == (r * 256 + ch) * 2^(16-b)
            assert(r * pow2((24 - b) as nat) == (r * 256) * pow2((16 - b) as nat)) by {
                lemma_pow2_adds(8, (16 - b) as nat);
                lemma2_to64();
                lemma_mul_is_associative(r, 256, pow2((16 - b) as nat) as int);
            }
            assert((r * 256) * pow2((16 - b) as nat) + ch as int * pow2((16 - b) as nat) == (r * 256
                + ch as int) * pow2((16 - b) as nat)) by {
                lemma_mul_is_distributive_add_other_way(
                    pow2((16 - b) as nat) as int,
                    r * 256,
                    ch as int,
                );
            }
            assert(self.bit_window as int == r2 * pow2((24 - (b + 8)) as nat) as int);
            // the window stays under 2^24
            lemma_read_bits_bounds(f, p, b + 8);
            assert(r2 * pow2((16 - b) as nat) < pow2((b + 8) as nat) * pow2((16 - b) as nat)) by {
                lemma_mul_strict_inequality(
                    r2,
                    pow2((b + 8) as nat) as int,
                    pow2((16 - b) as nat) as int,
                );
            }
            assert(pow2((b + 8) as nat) * pow2((16 - b) as nat) == 0x100_0000) by {
                lemma_pow2_adds((b + 8) as nat, (16 - b) as nat);
                lemma2_to64();
            }
        }
    }

    /// Pull bytes until the window holds at least 16 bits again.
    fn refill(&mut self)
        requires
            old(self).inv(),
        ensures
            final(self).wf(),
            final(self).frame == old(self).frame,
            final(self).bitpos == old(self).bitpos,
    {
        while self.bits_in_window < 16
            invariant
                self.inv(),
                self.frame == old(self).frame,
                self.bitpos == old(self).bitpos,
            decreases 24 - self.bits_in_window,
        {
            self.refill_once();
        }
    }

    /// Return the next `bit_count` bits without consuming them.
    pub fn show_bits(&self, bit_count: u32) -> (r: u32)
        requires
            self.wf(),
            bit_count <= 16,
        ensures
            r as int == read_bits(self.frame@, self.bitpos@, bit_count as nat),
            (r as int) < pow2(bit_count as nat) as int,
    {
        let r = self.bit_window >> (24 - bit_count);
        proof {
            self.lemma_window_top(bit_count);
        }
        r
    }

    /// The top `n` bits of the window are the `n` bits at `bitpos`.
    proof fn lemma_window_top(self, n: u32)
        requires
            self.wf(),
            n <= 16,
        ensures
            (self.bit_window >> (24 - n)) as int == read_bits(self.frame@, self.bitpos@, n as nat),
            read_bits(self.frame@, self.bitpos@, n as nat) < pow2(n as nat) as int,
            (self.bit_window >> (24 - n)) as int * pow2((24 - n) as nat) as int + (
            self.bit_window as int) % (pow2((24 - n) as nat) as int) == self.bit_window as int,
    {
        let f = self.frame@;
        let p = self.bitpos@;
        let b = self.bits_in_window as nat;
        let w = self.bit_window;
        let a = read_bits(f, p, n as nat);
        let c = read_bits(f, p + n, (b - n) as nat);
        lemma_u32_shr_is_div(w, (24 - n) as u32);
        lemma_read_bits_split(f, p, n as nat, (b - n) as nat);
        lemma_read_bits_bounds(f, p, n as nat);
        lemma_read_bits_bounds(f, p + n, (b - n) as nat);
        lemma_pow2_pos((24 - n) as nat);
        lemma_pow2_pos((24 - b) as nat);
        lemma_pow2_pos((b - n) as nat);
        // w == (a * 2^(b-n) + c) * 2^(24-b) == a * 2^(24-n) + c * 2^(24-b)
        assert(w as int == (a * pow2((b - n) as nat) + c) * pow2((24 - b) as nat));
        assert((a * pow2((b - n) as nat) + c) * pow2((24 - b) as nat) == (a * pow2(
            (b - n) as nat,
        )) * pow2((24 - b) as nat) + c * pow2((24 - b) as nat)) by {
            lemma_mul_is_distributive_add_other_way(
                pow2((24 - b) as nat) as int,
                a * pow2((b - n) as nat),
                c,
            );
        }
        assert((a * pow2((b - n) as nat)) * pow2((24 - b) as nat) == a * pow2((24 - n) as nat)) by {
            lemma_mul_is_associative(a, pow2((b - n) as nat) as int, pow2((24 - b) as nat) as int);
            lemma_pow2_adds((b - n) as nat, (24 - b) as nat);
        }
        assert(c * pow2((24 - b) as nat) < pow2((24 - n) as nat)) by {
            lemma_mul_strict_inequality(c, pow2((b - n) as nat) as int, pow2((24 - b) as nat) as int);
            lemma_pow2_adds((b - n) as nat, (24 - b) as nat);
        }
        assert(w as int == a * pow2((24 - n) as nat) + c * pow2((24 - b) as nat));
        lemma_fundamental_div_mod_converse(
            w as int,
            pow2((24 - n) as nat) as int,
            a,
            c * pow2((24 - b) as nat),
        );
    }

    /// Read and consume the next `bit_count` bits of the frame.
    pub fn get_bits(&mut self, bit_count: u32) -> (r: u32)
        requires
            old(self).wf(),
            bit_count <= 16,
        ensures
            final(self).wf(),
            final(self).frame == old(self).frame,
            final(self).bitpos@ == old(self).bitpos@ + bit_count,
            r as int == read_bits(old(self).frame@, old(self).bitpos@, bit_count as nat),
            (r as int) < pow2(bit_count as nat) as int,
    {
        let ghost f = self.frame@;
        let ghost p = self.bitpos@;
        let ghost b = self.bits_in_window as nat;
        let n = bit_count;
        let r = self.show_bits(n);
        proof {
            self.lemma_window_top(n);
            lemma_pow2_pos((24 - n) as nat);
            vstd::bits::lemma_u32_pow2_no_overflow((24 - n) as nat);
        }
        let m: u32 = 1u32 << (24 - n);
        proof {
            lemma_u32_shl_is_mul(1u32, (24 - n) as u32);
            assert(m as int == pow2((24 - n) as nat) as int);
            // the bits below the consumed field are c * 2^(24-b)
            let a = read_bits(f, p, n as nat);
            let c = read_bits(f, p + n, (b - n) as nat);
            assert(self.bit_window as int % m as int == c * pow2((24 - b) as nat)) by {
                lemma_read_bits_split(f, p, n as nat, (b - n) as nat);
                lemma_read_bits_bounds(f, p + n, (b - n) as nat);
                lemma_pow2_pos((24 - b) as nat);
                lemma_mul_strict_inequality(
                    c,
                    pow2((b - n) as nat) as int,
                    pow2((24 - b) as nat) as int,
                );
                lemma_pow2_adds((b - n) as nat, (24 - b) as nat);
                lemma_pow2_pos((24 - b) as nat);
                assert(self.bit_window as int == a * pow2((24 - n) as nat) + c * pow2(
                    (24 - b) as nat,
                )) by {
                    self.lemma_window_top(n);
                    lemma_mul_is_distributive_add_other_way(
                        pow2((24 - b) as nat) as int,
                        a * pow2((b - n) as nat),
                        c,
                    );
                    lemma_mul_is_associative(
                        a,
                        pow2((b - n) as nat) as int,
                        pow2((24 - b) as nat) as int,
                    );
                }
                lemma_fundamental_div_mod_converse(
                    self.bit_window as int,
                    m as int,
                    a,
                    c * pow2((24 - b) as nat),
                );
            }
        }
        let low: u32 = self.bit_window % m;
        proof {
            vstd::bits::lemma_u32_pow2_no_overflow(n as nat);
            lemma_u32_shl_is_mul(1u32, n);
            let c = read_bits(f, p + n, (b - n) as nat);
            // low * 2^n == c * 2^(24 - (b - n))
            lemma_read_bits_bounds(f, p + n, (b - n) as nat);
            assert((c * pow2((24 - b) as nat)) * pow2(n as nat) == c * pow2((24 - (b - n)) as nat))
                by {
                lemma_mul_is_associative(c, pow2((24 - b) as nat) as int, pow2(n as nat) as int);
                lemma_pow2_adds((24 - b) as nat, n as nat);
            }
            assert(c * pow2((24 - (b - n)) as nat) < 0x100_0000) by {
                lemma_pow2_pos((24 - (b - n)) as nat);
                lemma_mul_strict_inequality(
                    c,
                    pow2((b - n) as nat) as int,
                    pow2((24 - (b - n)) as nat) as int,
                );
                lemma_pow2_adds((b - n) as nat, (24 - (b - n)) as nat);
                lemma2_to64();
                lemma_pow2_pos((24 - (b - n)) as nat);
            }
        }
        let shifted: u32 = low * (1u32 << n);
        self.bit_window = shifted;
        self.bits_in_window = self.bits_in_window - n;
        proof {
            self.bitpos@ = p + n;
        }
        self.refill();
        r
    }
}

} // verus!
