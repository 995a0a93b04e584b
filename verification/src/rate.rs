//! Sample rates as the platform reports them: double-precision values, held
//! here by their bit pattern, and their reduction to whole Hertz.
//!
//! Hardware reports rates with sub-Hertz jitter, so rates are compared after
//! truncation to an integer. The truncation is the saturating conversion of a
//! double to an unsigned integer: the fractional part is dropped, values below
//! zero and NaN give zero, values above the largest integer give that integer.

use vstd::arithmetic::power2::*;
use vstd::bits::*;
use vstd::prelude::*;

verus! {

/// Two to the power 52: the weight of the implicit leading bit of a double.
pub const HIDDEN_BIT: u64 = 0x10_0000_0000_0000;

/// Two to the power 63: the sign bit of a double.
pub const SIGN_BIT: u64 = 0x8000_0000_0000_0000;

/// The exponent field of infinities and NaNs.
pub const EXPONENT_SPECIAL: u64 = 0x7ff;

/// The exponent field at which the significand counts units: a double with
/// exponent field `e` has the value `significand * 2^(e - 1075)`.
pub const EXPONENT_UNIT: u64 = 1075;

/// A sample rate in Hz, held as the IEEE 754 bit pattern of a double.
#[derive(Clone, Copy, Debug, PartialEq, Eq, Structural)]
pub struct SampleRate {
    pub bits: u64,
}

impl SampleRate {
    /// Whether the sign bit is set.
    pub open spec fn negative(self) -> bool {
        self.bits >= SIGN_BIT
    }

    /// The eleven-bit exponent field.
    pub open spec fn exponent(self) -> nat {
        ((self.bits as nat) / (HIDDEN_BIT as nat)) % 0x800
    }

    /// The 52-bit fraction field.
    pub open spec fn fraction(self) -> nat {
        (self.bits as nat) % (HIDDEN_BIT as nat)
    }

    /// Whether the pattern is a NaN.
    pub open spec fn is_nan(self) -> bool {
        self.exponent() == EXPONENT_SPECIAL && self.fraction() != 0
    }

    /// Whether the pattern is an infinity.
    pub open spec fn is_infinite(self) -> bool {
        self.exponent() == EXPONENT_SPECIAL && self.fraction() == 0
    }

    /// The integer significand: the fraction field, with the implicit leading
    /// bit unless the value is subnormal.
    pub open spec fn significand(self) -> nat {
        if self.exponent() == 0 {
            self.fraction()
        } else {
            self.fraction() + HIDDEN_BIT as nat
        }
    }

    /// The power of two by which the significand is scaled.
    pub open spec fn scale(self) -> int {
        if self.exponent() == 0 {
            1 - EXPONENT_UNIT as int
        } else {
            self.exponent() - EXPONENT_UNIT as int
        }
    }

    /// The integer part of the magnitude of a finite value:
    /// `floor(significand * 2^scale)`.
    pub open spec fn magnitude_floor(self) -> nat {
        if self.scale() >= 0 {
            self.significand() * pow2(self.scale() as nat)
        } else {
            self.significand() / pow2((-self.scale()) as nat)
        }
    }

    /// The value truncated toward zero and saturated to `0..=max`; NaN gives
    /// zero.
    pub open spec fn truncated(self, max: nat) -> nat {
        if self.is_nan() || self.negative() {
            0
        } else if self.is_infinite() {
            max
        } else if self.magnitude_floor() > max {
            max
        } else {
            self.magnitude_floor()
        }
    }

    /// The rate in whole Hz, as a 32-bit value.
    pub open spec fn hz(self) -> nat {
        self.truncated(u32::MAX as nat)
    }

    /// The rate in whole Hz, as a 64-bit value.
    pub open spec fn hz_wide(self) -> nat {
        self.truncated(u64::MAX as nat)
    }

    /// Wraps the bit pattern of a double.
    pub fn from_bits(bits: u64) -> (rate: SampleRate)
        ensures
            rate.bits == bits,
    {
        SampleRate { bits }
    }

    /// The bit pattern of the double.
    pub fn to_bits(&self) -> (bits: u64)
        ensures
            bits == self.bits,
    {
        self.bits
    }

    /// The rate truncated to whole Hz and saturated to 64 bits.
    pub fn whole_hz_wide(&self) -> (hz: u64)
        ensures
            hz == self.hz_wide(),
    {
        let bits: u64 = self.bits;
        let exponent: u64 = (bits >> 52) & 0x7ff;
        let fraction: u64 = bits & 0xf_ffff_ffff_ffff;
        let sign: u64 = bits >> 63;
        proof {
            lemma_fields(bits);
        }
        if sign != 0 {
            return 0;
        }
        if exponent == EXPONENT_SPECIAL {
            if fraction != 0 {
                return 0;
            } else {
                return u64::MAX;
            }
        }
        if exponent < 1023 {
            proof {
                lemma_below_one(*self);
            }
            return 0;
        }
        let significand: u64 = fraction | HIDDEN_BIT;
        assert(significand == fraction + HIDDEN_BIT) by (bit_vector)
            requires
                significand == fraction | 0x10_0000_0000_0000u64,
                fraction == bits & 0xf_ffff_ffff_ffffu64,
                HIDDEN_BIT == 0x10_0000_0000_0000u64,
        ;
        if exponent >= 1087 {
            proof {
                lemma_beyond_wide(*self);
            }
            u64::MAX
        } else if exponent >= EXPONENT_UNIT {
            let shift: u64 = exponent - EXPONENT_UNIT;
            proof {
                lemma_pow2_bound(shift as nat, 11);
                lemma2_to64();
                assert(significand * pow2(shift as nat) <= 0x1f_ffff_ffff_ffff * 0x800)
                    by (nonlinear_arith)
                    requires
                        significand <= 0x1f_ffff_ffff_ffff,
                        pow2(shift as nat) <= 0x800,
                ;
                lemma_u64_shl_is_mul(significand, shift);
            }
            significand << shift
        } else {
            let shift: u64 = EXPONENT_UNIT - exponent;
            proof {
                lemma_u64_shr_is_div(significand, shift);
            }
            significand >> shift
        }
    }

    /// The rate truncated to whole Hz and saturated to 32 bits.
    pub fn whole_hz(&self) -> (hz: u32)
        ensures
            hz == self.hz(),
    {
        let wide: u64 = self.whole_hz_wide();
        if wide > 0xffff_ffff {
            u32::MAX
        } else {
            wide as u32
        }
    }

    /// Whether two rates are the same number of whole Hz.
    pub fn same_hz(&self, other: &SampleRate) -> (same: bool)
        ensures
            same == (self.hz() == other.hz()),
    {
        self.whole_hz() == other.whole_hz()
    }

    /// Whether two rates are the same number of whole Hz at 64-bit width.
    pub fn same_hz_wide(&self, other: &SampleRate) -> (same: bool)
        ensures
            same == (self.hz_wide() == other.hz_wide()),
    {
        self.whole_hz_wide() == other.whole_hz_wide()
    }
}

/// The fields that shifts and masks extract from a bit pattern are the
/// arithmetic fields of the encoding.
proof fn lemma_fields(bits: u64)
    ensures
        ((bits >> 52) & 0x7ff) == (SampleRate { bits }).exponent(),
        (bits & 0xf_ffff_ffff_ffff) == (SampleRate { bits }).fraction(),
        (bits >> 63 != 0) == (SampleRate { bits }).negative(),
        (bits & 0xf_ffff_ffff_ffff) < HIDDEN_BIT,
{
    assert(((bits >> 52) & 0x7ff) == (bits / 0x10_0000_0000_0000) % 0x800) by (bit_vector);
    assert((bits & 0xf_ffff_ffff_ffff) == bits % 0x10_0000_0000_0000) by (bit_vector);
    assert((bits >> 63 != 0) == (bits >= 0x8000_0000_0000_0000)) by (bit_vector);
}

/// `pow2` does not decrease, stated with a literal bound on the exponent.
proof fn lemma_pow2_bound(e: nat, top: nat)
    requires
        e <= top,
    ensures
        pow2(e) <= pow2(top),
        pow2(e) >= 1,
{
    lemma_pow2_pos(e);
    if e < top {
        lemma_pow2_strictly_increases(e, top);
    }
}

/// A finite value whose exponent field is below that of one has integer part
/// zero.
proof fn lemma_below_one(rate: SampleRate)
    requires
        rate.exponent() < 1023,
    ensures
        rate.magnitude_floor() == 0,
{
    let s: nat = (-rate.scale()) as nat;
    assert(s >= 53);
    lemma_pow2_bound(53, s);
    lemma2_to64_rest();
    assert(rate.significand() < 0x20_0000_0000_0000);
    assert(rate.significand() / pow2(s) == 0) by (nonlinear_arith)
        requires
            rate.significand() < 0x20_0000_0000_0000,
            pow2(s) >= 0x20_0000_0000_0000,
    ;
}

/// A finite value whose exponent field is at least that of two to the power 64
/// has an integer part beyond 64 bits.
proof fn lemma_beyond_wide(rate: SampleRate)
    requires
        1087 <= rate.exponent() < EXPONENT_SPECIAL,
    ensures
        rate.magnitude_floor() > u64::MAX,
{
    let s: nat = rate.scale() as nat;
    assert(s >= 12);
    lemma_pow2_bound(12, s);
    lemma2_to64();
    assert(rate.significand() >= 0x10_0000_0000_0000);
    assert(rate.significand() * pow2(s) >= 0x10_0000_0000_0000 * 0x1000) by (nonlinear_arith)
        requires
            rate.significand() >= 0x10_0000_0000_0000,
            pow2(s) >= 0x1000,
    ;
}

impl SampleRate {
    /// The number of low bits of the pattern that hold the part of the value
    /// below one: for a value of at least one and below two to the power 52,
    /// the bits of the fraction field that stand behind the binary point.
    pub open spec fn sub_unit_bits(self) -> nat {
        if 1023 <= self.exponent() <= EXPONENT_UNIT {
            (EXPONENT_UNIT - self.exponent()) as nat
        } else {
            0
        }
    }
}

/// Noise below one Hertz does not count. Two patterns that differ only in
/// the bits behind the binary point stand for values with the same integer
/// part, and so for the same number of whole Hz at either width.
pub proof fn lemma_sub_unit_bits_do_not_count(a: SampleRate, b: SampleRate)
    requires
        1023 <= a.exponent() <= EXPONENT_UNIT,
        a.bits as nat / pow2(a.sub_unit_bits()) == b.bits as nat / pow2(a.sub_unit_bits()),
    ensures
        a.exponent() == b.exponent(),
        a.negative() == b.negative(),
        a.magnitude_floor() == b.magnitude_floor(),
        a.hz() == b.hz(),
        a.hz_wide() == b.hz_wide(),
{
    let k: nat = a.sub_unit_bits();
    let p: int = pow2(k) as int;
    let q: int = pow2((52 - k) as nat) as int;
    let unit: int = HIDDEN_BIT as int;
    lemma_pow2_pos(k);
    lemma_pow2_pos((52 - k) as nat);
    lemma_pow2_adds(k, (52 - k) as nat);
    lemma2_to64_rest();
    assert(p * q == unit);
    let top: int = (a.bits as int) / unit;
    assert((a.bits as int) / unit == (b.bits as int) / unit) by {
        vstd::arithmetic::div_mod::lemma_div_denominator(a.bits as int, p, q);
        vstd::arithmetic::div_mod::lemma_div_denominator(b.bits as int, p, q);
    }
    assert(a.exponent() == b.exponent());
    assert(a.negative() == b.negative()) by {
        lemma_sign_is_in_top(a.bits);
        lemma_sign_is_in_top(b.bits);
    }
    // The significand is the pattern with its top part replaced by one.
    assert(a.significand() == a.bits - top * unit + unit) by {
        vstd::arithmetic::div_mod::lemma_fundamental_div_mod(a.bits as int, unit);
    }
    assert(b.significand() == b.bits - top * unit + unit) by {
        vstd::arithmetic::div_mod::lemma_fundamental_div_mod(b.bits as int, unit);
    }
    if k == 0 {
        lemma2_to64();
        assert(p == 1);
        assert(a.bits == b.bits);
    } else {
        let j: int = (1 - top) * q;
        assert(a.significand() == a.bits + j * p) by (nonlinear_arith)
            requires
                a.significand() == a.bits - top * unit + unit,
                p * q == unit,
                j == (1 - top) * q,
        ;
        assert(b.significand() == b.bits + j * p) by (nonlinear_arith)
            requires
                b.significand() == b.bits - top * unit + unit,
                p * q == unit,
                j == (1 - top) * q,
        ;
        vstd::arithmetic::div_mod::lemma_hoist_over_denominator(a.bits as int, j, p as nat);
        vstd::arithmetic::div_mod::lemma_hoist_over_denominator(b.bits as int, j, p as nat);
        assert(a.significand() as int / p == b.significand() as int / p);
    }
}

/// The sign bit is set exactly when the part of the pattern above the
/// fraction field is at least two to the power eleven.
proof fn lemma_sign_is_in_top(bits: u64)
    ensures
        (bits >= SIGN_BIT) == (bits / HIDDEN_BIT >= 0x800),
{
    assert((bits >= 0x8000_0000_0000_0000) == (bits / 0x10_0000_0000_0000 >= 0x800))
        by (bit_vector);
}

} // verus!
