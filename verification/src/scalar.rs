//! Single-precision numbers as IEEE-754 binary32 bit patterns.
//!
//! Every finite binary32 value is an integer multiple of 2^-149, so the
//! mathematical model of a number is that integer: `Finite(k)` stands for
//! k · 2^-149. Both zeros are `Finite(0)`.

use vstd::arithmetic::div_mod::{
    lemma_div_multiples_vanish_quotient, lemma_fundamental_div_mod, lemma_mod_bound,
    lemma_small_mod, lemma_truncate_middle,
};
use vstd::arithmetic::power2::{
    lemma2_to64, lemma2_to64_rest, lemma_pow2_adds, lemma_pow2_pos,
    lemma_pow2_strictly_increases, lemma_pow2_unfold, pow2,
};
use vstd::bits::lemma_u64_shl_is_mul;
use vstd::prelude::*;
use vstd::std_specs::cmp::PartialEqSpecImpl;

verus! {

/// The value that a bit pattern denotes.
pub enum ScalarValue {
    /// Not a number.
    Nan,
    /// Negative infinity.
    NegInfinity,
    /// Positive infinity.
    PosInfinity,
    /// The finite value k · 2^-149.
    Finite(int),
}

impl ScalarValue {
    /// IEEE `<=`: false as soon as either side is not a number.
    pub open spec fn le(self, other: ScalarValue) -> bool {
        match (self, other) {
            (ScalarValue::Nan, _) => false,
            (_, ScalarValue::Nan) => false,
            (ScalarValue::NegInfinity, _) => true,
            (_, ScalarValue::PosInfinity) => true,
            (ScalarValue::Finite(a), ScalarValue::Finite(b)) => a <= b,
            _ => false,
        }
    }

    /// IEEE `<`: false as soon as either side is not a number.
    pub open spec fn lt(self, other: ScalarValue) -> bool {
        self.le(other) && self != other
    }

    /// IEEE `==`: equal values, neither of them not-a-number.
    pub open spec fn float_eq(self, other: ScalarValue) -> bool {
        self == other && !(self is Nan)
    }

    /// Equality of the total order used for hashing: as `float_eq`, but all
    /// not-a-number values are equal to each other.
    pub open spec fn ordered_eq(self, other: ScalarValue) -> bool {
        self == other
    }

    /// The zero value.
    pub open spec fn zero() -> ScalarValue {
        ScalarValue::Finite(0)
    }

    /// The ceiling of the value as a count: the least integer that is not
    /// below it, brought into the range of `usize`. Not-a-number counts as 0.
    pub open spec fn ceil_to_usize(self) -> usize {
        match self {
            ScalarValue::Nan => 0,
            ScalarValue::NegInfinity => 0,
            ScalarValue::PosInfinity => usize::MAX,
            ScalarValue::Finite(k) => saturate_to_usize(ceil_units(k)),
        }
    }
}

/// The least integer that is not below k · 2^-149.
pub open spec fn ceil_units(k: int) -> int {
    if k % (pow2(149) as int) == 0 {
        k / (pow2(149) as int)
    } else {
        k / (pow2(149) as int) + 1
    }
}

/// The integer `n` brought into the range of `usize`.
pub open spec fn saturate_to_usize(n: int) -> usize {
    if n <= 0 {
        0
    } else if n >= usize::MAX {
        usize::MAX
    } else {
        n as usize
    }
}

/// Is the sign bit set?
pub open spec fn sign_negative(bits: u32) -> bool {
    bits >= 0x8000_0000
}

/// The eight exponent bits.
pub open spec fn biased_exponent(bits: u32) -> nat {
    ((bits / 0x80_0000) % 0x100) as nat
}

/// The twenty-three fraction bits.
pub open spec fn fraction(bits: u32) -> nat {
    (bits % 0x80_0000) as nat
}

/// The absolute value of a finite pattern, in units of 2^-149.
pub open spec fn magnitude(bits: u32) -> nat {
    if biased_exponent(bits) == 0 {
        fraction(bits)
    } else {
        (0x80_0000 + fraction(bits)) * pow2((biased_exponent(bits) - 1) as nat)
    }
}

/// The value that `bits` denotes as a binary32 number.
pub open spec fn value_of_bits(bits: u32) -> ScalarValue {
    if biased_exponent(bits) == 0xff {
        if fraction(bits) != 0 {
            ScalarValue::Nan
        } else if sign_negative(bits) {
            ScalarValue::NegInfinity
        } else {
            ScalarValue::PosInfinity
        }
    } else if sign_negative(bits) {
        ScalarValue::Finite(-(magnitude(bits) as int))
    } else {
        ScalarValue::Finite(magnitude(bits) as int)
    }
}

/// A single-precision number, held as its IEEE-754 bit pattern.
#[derive(Clone, Copy, Debug)]
pub struct Scalar {
    pub bits: u32,
}

impl View for Scalar {
    type V = ScalarValue;

    open spec fn view(&self) -> ScalarValue {
        value_of_bits(self.bits)
    }
}

/// A nonzero finite pattern has a nonzero magnitude.
pub proof fn lemma_magnitude_zero(bits: u32)
    ensures
        magnitude(bits) == 0 <==> (biased_exponent(bits) == 0 && fraction(bits) == 0),
{
    if biased_exponent(bits) != 0 {
        lemma_pow2_pos((biased_exponent(bits) - 1) as nat);
        assert((0x80_0000 + fraction(bits)) * pow2((biased_exponent(bits) - 1) as nat) > 0)
            by (nonlinear_arith)
            requires
                pow2((biased_exponent(bits) - 1) as nat) > 0,
        ;
    }
}

/// The pattern without its sign bit.
pub open spec fn abs_bits(bits: u32) -> nat {
    (bits % 0x8000_0000) as nat
}

/// A pattern is its sign, exponent and fraction fields side by side.
pub proof fn lemma_bit_fields(bits: u32)
    ensures
        abs_bits(bits) == biased_exponent(bits) * 0x80_0000 + fraction(bits),
        bits == (if sign_negative(bits) {
            0x8000_0000nat
        } else {
            0nat
        }) + abs_bits(bits),
        fraction(bits) < 0x80_0000,
        biased_exponent(bits) < 0x100,
{
    assert(bits % 0x8000_0000 == ((bits / 0x80_0000) % 0x100) * 0x80_0000 + bits % 0x80_0000)
        by (bit_vector);
    assert(bits >= 0x8000_0000 ==> bits == 0x8000_0000 + bits % 0x8000_0000) by (bit_vector);
    assert(bits < 0x8000_0000 ==> bits == bits % 0x8000_0000) by (bit_vector);
}

/// Among finite patterns, the larger pattern (sign aside) has the larger
/// magnitude.
pub proof fn lemma_magnitude_increases(a: u32, b: u32)
    requires
        abs_bits(a) < abs_bits(b),
        biased_exponent(b) < 0xff,
    ensures
        magnitude(a) < magnitude(b),
{
    lemma_bit_fields(a);
    lemma_bit_fields(b);
    let ea = biased_exponent(a);
    let eb = biased_exponent(b);
    let fa = fraction(a);
    let fb = fraction(b);
    if ea == eb {
        if ea != 0 {
            let p = pow2((ea - 1) as nat);
            lemma_pow2_pos((ea - 1) as nat);
            assert((0x80_0000 + fa) * p < (0x80_0000 + fb) * p) by (nonlinear_arith)
                requires
                    fa < fb,
                    p > 0,
            ;
        }
    } else {
        assert(ea < eb);
        let pb = pow2((eb - 1) as nat);
        lemma_pow2_pos((eb - 1) as nat);
        assert(0x80_0000 * pb <= (0x80_0000 + fb) * pb) by (nonlinear_arith)
            requires
                pb > 0,
        ;
        if ea == 0 {
            assert(0x80_0000 <= 0x80_0000 * pb) by (nonlinear_arith)
                requires
                    pb > 0,
            ;
        } else {
            let pa = pow2((ea - 1) as nat);
            lemma_pow2_pos((ea - 1) as nat);
            lemma_pow2_unfold(ea);
            if ea < eb - 1 {
                lemma_pow2_strictly_increases(ea, (eb - 1) as nat);
            }
            assert(pow2(ea) <= pb);
            assert((0x80_0000 + fa) * pa < 0x80_0000 * pb) by (nonlinear_arith)
                requires
                    fa < 0x80_0000,
                    pa > 0,
                    2 * pa <= pb,
            ;
        }
    }
}

/// Two patterns that are not not-a-number denote the same value exactly when
/// they are the same pattern or are both zeros.
pub proof fn lemma_same_value(a: u32, b: u32)
    requires
        !(value_of_bits(a) is Nan),
        !(value_of_bits(b) is Nan),
    ensures
        value_of_bits(a) == value_of_bits(b) <==> (a == b || (abs_bits(a) == 0 && abs_bits(b)
            == 0)),
{
    lemma_bit_fields(a);
    lemma_bit_fields(b);
    lemma_magnitude_zero(a);
    lemma_magnitude_zero(b);
    if value_of_bits(a) == value_of_bits(b) && a != b {
        if biased_exponent(a) == 0xff || biased_exponent(b) == 0xff {
            assert(false);
        } else if magnitude(a) != 0 {
            assert(sign_negative(a) == sign_negative(b));
            if abs_bits(a) < abs_bits(b) {
                lemma_magnitude_increases(a, b);
            } else if abs_bits(b) < abs_bits(a) {
                lemma_magnitude_increases(b, a);
            }
            assert(false);
        }
    }
}

/// `ceil_units(k)` is the one integer whose unit interval ends at or after k
/// and begins before it.
pub proof fn lemma_ceil_units_bounds(k: int)
    ensures
        (ceil_units(k) - 1) * pow2(149) < k <= ceil_units(k) * pow2(149),
{
    let u = pow2(149) as int;
    lemma_pow2_pos(149);
    lemma_fundamental_div_mod(k, u);
    lemma_mod_bound(k, u);
    let q = k / u;
    assert((q + 1 - 1) * u == u * q && (q + 1) * u == u * q + u && (q - 1) * u == u * q - u)
        by (nonlinear_arith);
}

/// The ceiling of zero is zero.
pub proof fn lemma_ceil_units_zero()
    ensures
        ceil_units(0) == 0,
{
    lemma_pow2_pos(149);
    lemma_small_mod(0, pow2(149));
}

/// The ceiling never decreases as the value grows.
pub proof fn lemma_ceil_units_monotone(j: int, k: int)
    requires
        j <= k,
    ensures
        ceil_units(j) <= ceil_units(k),
{
    let u = pow2(149) as int;
    lemma_pow2_pos(149);
    lemma_ceil_units_bounds(j);
    lemma_ceil_units_bounds(k);
    let cj = ceil_units(j);
    let ck = ceil_units(k);
    if cj > ck {
        assert(ck * u <= (cj - 1) * u) by (nonlinear_arith)
            requires
                ck <= cj - 1,
                u > 0,
        ;
    }
}

/// The ceiling of m · p, where d · p is the unit 2^149, is the ceiling of m / d.
proof fn lemma_ceil_scaled(m: int, d: int, p: int)
    requires
        0 <= m,
        0 < d,
        0 < p,
        p * d == pow2(149),
    ensures
        ceil_units(p * m) == if m % d == 0 {
            m / d
        } else {
            m / d + 1
        },
{
    lemma_div_multiples_vanish_quotient(p, m, d);
    lemma_truncate_middle(m, p, d);
    lemma_mod_bound(m, d);
    assert(p * (m % d) == 0 <==> m % d == 0) by (nonlinear_arith)
        requires
            p > 0,
            m % d >= 0,
    ;
}

/// What a number contributes to a hash: one entry for both zeros, one for
/// every not-a-number, and otherwise the bit pattern itself.
#[derive(Clone, Copy, Debug, PartialEq, Eq, Structural, Hash)]
pub enum ScalarKey {
    Zero,
    Nan,
    Bits(u32),
}

impl Scalar {
    /// The number with the given bit pattern.
    pub fn from_bits(bits: u32) -> (s: Scalar)
        ensures
            s.bits == bits,
    {
        Scalar { bits }
    }

    /// The bit pattern of the number.
    pub fn to_bits(self) -> (bits: u32)
        ensures
            bits == self.bits,
    {
        self.bits
    }

    /// Is this not a number?
    pub fn is_nan(self) -> (r: bool)
        ensures
            r == (self@ is Nan),
    {
        let b: u32 = self.bits;
        assert(((b & 0x7fff_ffff) > 0x7f80_0000) <==> ((b / 0x80_0000) % 0x100 == 0xff && b
            % 0x80_0000 != 0)) by (bit_vector);
        (b & 0x7fff_ffff) > 0x7f80_0000
    }

    /// Is this positive or negative zero?
    pub fn is_zero(self) -> (r: bool)
        ensures
            r == (self@ == ScalarValue::zero()),
    {
        let b: u32 = self.bits;
        assert(((b & 0x7fff_ffff) == 0) <==> ((b / 0x80_0000) % 0x100 == 0 && b % 0x80_0000
            == 0)) by (bit_vector);
        proof {
            lemma_magnitude_zero(b);
        }
        (b & 0x7fff_ffff) == 0
    }

    /// `self <= 0.0`: negative, or a zero of either sign; never for not-a-number.
    pub fn le_zero(self) -> (r: bool)
        ensures
            r == self@.le(ScalarValue::zero()),
    {
        let b: u32 = self.bits;
        assert(((b & 0x7fff_ffff) > 0x7f80_0000) <==> ((b / 0x80_0000) % 0x100 == 0xff && b
            % 0x80_0000 != 0)) by (bit_vector);
        assert((b == 0) <==> (b < 0x8000_0000 && (b / 0x80_0000) % 0x100 == 0 && b % 0x80_0000
            == 0)) by (bit_vector);
        assert(b < 0x8000_0000 && (b / 0x80_0000) % 0x100 == 0xff && b % 0x80_0000 == 0 ==> (b
            & 0x7fff_ffff) <= 0x7f80_0000 && b != 0) by (bit_vector);
        proof {
            lemma_magnitude_zero(b);
        }
        (b & 0x7fff_ffff) <= 0x7f80_0000 && (b >= 0x8000_0000 || b == 0)
    }

    /// `self < 0.0`: strictly negative; never for a zero or not-a-number.
    pub fn lt_zero(self) -> (r: bool)
        ensures
            r == self@.lt(ScalarValue::zero()),
    {
        let b: u32 = self.bits;
        assert((b > 0x8000_0000 && b <= 0xff80_0000) <==> (b >= 0x8000_0000 && !((b / 0x80_0000)
            % 0x100 == 0xff && b % 0x80_0000 != 0) && !((b / 0x80_0000) % 0x100 == 0 && b
            % 0x80_0000 == 0))) by (bit_vector);
        proof {
            lemma_magnitude_zero(b);
        }
        b > 0x8000_0000 && b <= 0xff80_0000
    }

    /// The ceiling of the number as a count, as `ceil` followed by a cast to
    /// `usize` gives it: 0 for not-a-number and for anything not above zero,
    /// `usize::MAX` for what is too large.
    pub fn ceil_to_usize(self) -> (n: usize)
        ensures
            n == self@.ceil_to_usize(),
    {
        let b: u32 = self.bits;
        let e: u32 = (b >> 23) & 0xff;
        let f: u32 = b & 0x7f_ffff;
        assert(e == (b / 0x80_0000) % 0x100 && f == b % 0x80_0000) by (bit_vector)
            requires
                e == (b >> 23) & 0xff,
                f == b & 0x7f_ffff,
        ;
        proof {
            lemma_bit_fields(b);
            lemma_magnitude_zero(b);
            lemma2_to64();
            lemma2_to64_rest();
            lemma_pow2_pos(149);
        }
        if e == 0xff {
            return if f == 0 && b < 0x8000_0000 {
                usize::MAX
            } else {
                0
            };
        }
        if b >= 0x8000_0000 || (e == 0 && f == 0) {
            proof {
                lemma_ceil_units_monotone(-(magnitude(b) as int), 0);
                lemma_ceil_units_zero();
            }
            return 0;
        }
        let m: u64 = if e == 0 {
            f as u64
        } else {
            0x80_0000 + f as u64
        };
        let ghost pe: nat = if e == 0 {
            0
        } else {
            (e - 1) as nat
        };
        assert(magnitude(b) == m * pow2(pe) && m > 0) by (nonlinear_arith)
            requires
                pow2(0) == 1,
                magnitude(b) == (if e == 0 {
                    f as nat
                } else {
                    (0x80_0000 + f as nat) * pow2(pe)
                }),
                m == (if e == 0 {
                    f as int
                } else {
                    0x80_0000 + f as int
                }),
                e == 0 ==> pe == 0 && f != 0,
        ;
        if e >= 150 {
            let s: u32 = e - 150;
            proof {
                lemma_pow2_adds(s as nat, 149);
                lemma_pow2_pos(s as nat);
                assert(m * pow2(pe) == pow2(149) * (m * pow2(s as nat))) by (nonlinear_arith)
                    requires
                        pow2(pe) == pow2(s as nat) * pow2(149),
                ;
                assert(0 <= m * pow2(s as nat)) by (nonlinear_arith);
                lemma_ceil_scaled(m * pow2(s as nat), 1, pow2(149) as int);
            }
            if s > 40 {
                proof {
                    if s > 41 {
                        lemma_pow2_strictly_increases(41, s as nat);
                    }
                    assert(m * pow2(s as nat) >= 0x1_0000_0000_0000_0000) by (nonlinear_arith)
                        requires
                            m >= 0x80_0000,
                            pow2(s as nat) >= 0x200_0000_0000,
                    ;
                }
                return usize::MAX;
            }
            proof {
                if s < 40 {
                    lemma_pow2_strictly_increases(s as nat, 40);
                }
                assert(m * pow2(s as nat) <= u64::MAX) by (nonlinear_arith)
                    requires
                        m < 0x100_0000,
                        pow2(s as nat) <= 0x100_0000_0000,
                ;
                lemma_u64_shl_is_mul(m, s as u64);
            }
            let v: u64 = m << (s as u64);
            if v >= usize::MAX as u64 {
                usize::MAX
            } else {
                v as usize
            }
        } else if e < 127 {
            proof {
                let d = pow2((149 - pe) as nat);
                lemma_pow2_adds(pe, (149 - pe) as nat);
                if pe < 125 {
                    lemma_pow2_strictly_increases(24, (149 - pe) as nat);
                }
                lemma_ceil_scaled(m as int, d as int, pow2(pe) as int);
                lemma_pow2_pos(pe);
                lemma_small_mod(m as nat, d);
                assert(m as int / d as int == 0) by (nonlinear_arith)
                    requires
                        0 <= m < d,
                ;
                assert(pow2(pe) * m == m * pow2(pe)) by (nonlinear_arith);
            }
            1
        } else {
            let rs: u32 = 150 - e;
            proof {
                lemma_pow2_adds(pe, rs as nat);
                lemma_pow2_pos(pe);
                lemma_pow2_pos(rs as nat);
                if rs < 23 {
                    lemma_pow2_strictly_increases(rs as nat, 23);
                }
                lemma_u64_shl_is_mul(1, rs as u64);
                lemma_ceil_scaled(m as int, pow2(rs as nat) as int, pow2(pe) as int);
                assert(pow2(pe) * m == m * pow2(pe)) by (nonlinear_arith);
            }
            let d: u64 = 1u64 << (rs as u64);
            let q: u64 = m / d;
            assert(q <= m) by (nonlinear_arith)
                requires
                    q == m / d,
                    d > 0,
            ;
            if m % d == 0 {
                q as usize
            } else {
                (q + 1) as usize
            }
        }
    }

    /// The key of this number's value: see [`ScalarKey`].
    pub open spec fn spec_hash_key(self) -> ScalarKey {
        if self@ == ScalarValue::zero() {
            ScalarKey::Zero
        } else if self@ is Nan {
            ScalarKey::Nan
        } else {
            ScalarKey::Bits(self.bits)
        }
    }

    /// The key under which this number is hashed, so that numbers that
    /// compare equal hash alike.
    pub fn hash_key(self) -> (k: ScalarKey)
        ensures
            k == self.spec_hash_key(),
    {
        if self.is_zero() {
            ScalarKey::Zero
        } else if self.is_nan() {
            ScalarKey::Nan
        } else {
            ScalarKey::Bits(self.bits)
        }
    }
}

impl PartialEq for Scalar {
    /// IEEE equality: the zeros are equal, not-a-number equals nothing.
    fn eq(&self, other: &Self) -> (r: bool) {
        let a: u32 = self.bits;
        let b: u32 = other.bits;
        assert(((a | b) & 0x7fff_ffff) == 0 <==> (a % 0x8000_0000 == 0 && b % 0x8000_0000 == 0))
            by (bit_vector);
        if self.is_nan() || other.is_nan() {
            false
        } else {
            proof {
                lemma_same_value(a, b);
            }
            a == b || ((a | b) & 0x7fff_ffff) == 0
        }
    }
}

impl PartialEqSpecImpl for Scalar {
    open spec fn obeys_eq_spec() -> bool {
        true
    }

    open spec fn eq_spec(&self, other: &Self) -> bool {
        self@.float_eq(other@)
    }
}

/// Two numbers have the same hash key exactly when they denote the same
/// value, all not-a-number patterns counting as one value.
pub proof fn lemma_hash_key_canonical(a: Scalar, b: Scalar)
    ensures
        a.spec_hash_key() == b.spec_hash_key() <==> a@.ordered_eq(b@),
{
    lemma_bit_fields(a.bits);
    lemma_bit_fields(b.bits);
    lemma_magnitude_zero(a.bits);
    lemma_magnitude_zero(b.bits);
    if !(a@ is Nan) && !(b@ is Nan) {
        lemma_same_value(a.bits, b.bits);
    }
}

} // verus!
