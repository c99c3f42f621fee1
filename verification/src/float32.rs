//! Single-precision numbers as their IEEE-754 bit patterns.
//!
//! The container format stores such numbers as four little-endian bytes of
//! the pattern, and the builder only ever compares and clamps them, so the
//! library works on the pattern. A pattern's number is modelled exactly, as
//! an integer multiple of 2^-149, the smallest positive single.

use vstd::prelude::*;
use vstd::arithmetic::power2::*;

verus! {

/// A single-precision number, held as its bit pattern.
#[derive(Clone, Copy, Debug, PartialEq, Eq, Structural)]
pub struct Float32 {
    pub bits: u32,
}

/// A double-precision number, held as its bit pattern.
#[derive(Clone, Copy, Debug, PartialEq, Eq, Structural)]
pub struct Float64 {
    pub bits: u64,
}

impl Float64 {
    pub fn from_bits(bits: u64) -> (x: Float64)
        ensures
            x.bits == bits,
    {
        Float64 { bits }
    }

    pub fn to_bits(self) -> (bits: u64)
        ensures
            bits == self.bits,
    {
        self.bits
    }
}

/// The position of the highest set bit of `n`; 0 for `n` below 2.
pub open spec fn top_bit(n: nat) -> nat
    decreases n,
{
    if n < 2 {
        0
    } else {
        1 + top_bit(n / 2)
    }
}

/// `n` lies between the power of two at its top bit and the next one.
pub proof fn lemma_top_bit_bounds(n: nat)
    requires
        n > 0,
    ensures
        pow2(top_bit(n)) <= n < 2 * pow2(top_bit(n)),
    decreases n,
{
    reveal(pow2);
    if n < 2 {
        lemma2_to64();
    } else {
        lemma_top_bit_bounds(n / 2);
        lemma_pow2_unfold(top_bit(n));
    }
}

/// The top bit is the only exponent whose power of two brackets `n`.
pub proof fn lemma_top_bit_unique(n: nat, e: nat)
    requires
        pow2(e) <= n < 2 * pow2(e),
    ensures
        top_bit(n) == e,
{
    lemma_pow2_pos(e);
    lemma_top_bit_bounds(n);
    let t = top_bit(n);
    if t < e {
        lemma_pow2_unfold(e);
        if t + 1 < e {
            lemma_pow2_strictly_increases(t + 1, e);
        }
        lemma_pow2_unfold(t + 1);
    } else if e < t {
        lemma_pow2_unfold(t);
        if e + 1 < t {
            lemma_pow2_strictly_increases(e + 1, t);
        }
        lemma_pow2_unfold(e + 1);
    }
}

impl Float32 {
    /// The eight exponent bits.
    pub open spec fn exponent(self) -> nat {
        (self.bits / 0x80_0000 % 256) as nat
    }

    /// The twenty-three fraction bits.
    pub open spec fn fraction(self) -> nat {
        (self.bits % 0x80_0000) as nat
    }

    /// The sign bit.
    pub open spec fn negative(self) -> bool {
        self.bits >= 0x8000_0000
    }

    /// Whether the pattern is one of the not-a-number patterns.
    pub open spec fn is_nan(self) -> bool {
        self.exponent() == 255 && self.fraction() != 0
    }

    /// The absolute value in units of 2^-149. An infinity counts as the
    /// power of two above every finite single.
    pub open spec fn magnitude(self) -> nat {
        if self.exponent() == 0 {
            self.fraction()
        } else {
            (0x80_0000 + self.fraction()) * pow2((self.exponent() - 1) as nat)
        }
    }

    /// The number in units of 2^-149: the integer `v` such that the pattern
    /// denotes v * 2^-149. Meaningful for every pattern that is not a NaN.
    pub open spec fn value(self) -> int {
        if self.negative() {
            -(self.magnitude() as int)
        } else {
            self.magnitude() as int
        }
    }

    /// The pattern read as a sign and a magnitude: an integer that orders
    /// the patterns that are no NaNs as their numbers are ordered.
    pub open spec fn key(self) -> int {
        if self.negative() {
            -(self.bits - 0x8000_0000)
        } else {
            self.bits as int
        }
    }

    /// The pattern of the non-negative integer `n`, exact below 2^24.
    pub open spec fn of_nat(n: nat) -> Float32 {
        if n == 0 {
            Float32 { bits: 0 }
        } else {
            let e = top_bit(n);
            Float32 {
                bits: ((127 + e) * 0x80_0000 + n * pow2((23 - e) as nat) - 0x80_0000) as u32,
            }
        }
    }

    /// The same number with the opposite sign.
    pub open spec fn negated(self) -> Float32 {
        Float32 {
            bits: if self.bits >= 0x8000_0000 {
                (self.bits - 0x8000_0000) as u32
            } else {
                (self.bits + 0x8000_0000) as u32
            },
        }
    }

    /// The number limited to the range from `min` to `max`: a number below
    /// the range becomes `min`, one above it `max`, and a NaN stays itself.
    pub open spec fn clamped(self, min: Float32, max: Float32) -> Float32 {
        if self.is_nan() {
            self
        } else if self.value() < min.value() {
            min
        } else if self.value() > max.value() {
            max
        } else {
            self
        }
    }

    /// Among patterns with a clear sign bit, a larger pattern is a larger
    /// number.
    pub proof fn lemma_magnitude_increases(a: Float32, b: Float32)
        requires
            a.bits < b.bits < 0x8000_0000,
        ensures
            a.magnitude() < b.magnitude(),
    {
        let ea = a.exponent();
        let eb = b.exponent();
        let ma = a.fraction();
        let mb = b.fraction();
        assert(a.bits == ea * 0x80_0000 + ma && b.bits == eb * 0x80_0000 + mb);
        assert(ea <= eb) by (nonlinear_arith)
            requires
                ea * 0x80_0000 + ma < eb * 0x80_0000 + mb,
                ma < 0x80_0000,
                mb < 0x80_0000,
        ;
        if ea == eb {
            if ea > 0 {
                let p = pow2((ea - 1) as nat);
                lemma_pow2_pos((ea - 1) as nat);
                assert((0x80_0000 + ma) * p < (0x80_0000 + mb) * p) by (nonlinear_arith)
                    requires
                        ma < mb,
                        p > 0,
                ;
            }
        } else {
            let pb = pow2((eb - 1) as nat);
            let pa = pow2(ea);
            lemma_pow2_pos(ea);
            if ea < eb - 1 {
                lemma_pow2_strictly_increases(ea, (eb - 1) as nat);
            }
            assert(0x80_0000 * pa <= (0x80_0000 + mb) * pb) by (nonlinear_arith)
                requires
                    0 < pa <= pb,
                    mb >= 0,
            ;
            if ea == 0 {
                lemma2_to64();
            } else {
                let q = pow2((ea - 1) as nat);
                lemma_pow2_pos((ea - 1) as nat);
                lemma_pow2_unfold(ea);
                assert((0x80_0000 + ma) * q < 0x80_0000 * (2 * q)) by (nonlinear_arith)
                    requires
                        ma < 0x80_0000,
                        q > 0,
                ;
            }
        }
    }

    /// Clearing the sign bit leaves the magnitude as it is.
    pub proof fn lemma_sign_cleared(self)
        ensures
            (Float32 { bits: (self.bits % 0x8000_0000) as u32 }).magnitude() == self.magnitude(),
    {
        let bits = self.bits;
        assert((bits % 0x8000_0000) / 0x80_0000 % 256 == bits / 0x80_0000 % 256 && (bits
            % 0x8000_0000) % 0x80_0000 == bits % 0x80_0000) by (bit_vector);
    }

    /// The patterns without their sign bits are ordered as the magnitudes.
    pub proof fn lemma_magnitude_orders(a: Float32, b: Float32)
        ensures
            (a.bits % 0x8000_0000 < b.bits % 0x8000_0000) == (a.magnitude() < b.magnitude()),
            (a.bits % 0x8000_0000 == b.bits % 0x8000_0000) == (a.magnitude() == b.magnitude()),
    {
        let ua = Float32 { bits: (a.bits % 0x8000_0000) as u32 };
        let ub = Float32 { bits: (b.bits % 0x8000_0000) as u32 };
        a.lemma_sign_cleared();
        b.lemma_sign_cleared();
        if ua.bits < ub.bits {
            Self::lemma_magnitude_increases(ua, ub);
        } else if ub.bits < ua.bits {
            Self::lemma_magnitude_increases(ub, ua);
        }
    }

    /// The key orders every two patterns as their numbers are ordered.
    pub proof fn lemma_key_orders(a: Float32, b: Float32)
        ensures
            (a.key() < b.key()) == (a.value() < b.value()),
            (a.key() == b.key()) == (a.value() == b.value()),
    {
        let zero = Float32 { bits: 0 };
        let la: int = (a.bits % 0x8000_0000) as int;
        let lb: int = (b.bits % 0x8000_0000) as int;
        let ma: int = a.magnitude() as int;
        let mb: int = b.magnitude() as int;
        Self::lemma_magnitude_orders(a, b);
        Self::lemma_magnitude_orders(a, zero);
        Self::lemma_magnitude_orders(b, zero);
        assert(zero.magnitude() == 0);
        assert((la == 0) == (ma == 0));
        assert((lb == 0) == (mb == 0));
        assert((la < lb) == (ma < mb));
        assert((la == lb) == (ma == mb));
        assert(a.key() == if a.negative() { -la } else { la });
        assert(b.key() == if b.negative() { -lb } else { lb });
        assert(a.value() == if a.negative() { -ma } else { ma });
        assert(b.value() == if b.negative() { -mb } else { mb });
    }

    /// Below 2^24 the pattern of an integer denotes that integer.
    pub proof fn lemma_of_nat_value(n: nat)
        requires
            n < 0x100_0000,
        ensures
            Self::of_nat(n).value() == n * pow2(149),
            !Self::of_nat(n).is_nan(),
            !Self::of_nat(n).negative(),
            n > 0 ==> Self::of_nat(n).exponent() == 127 + top_bit(n),
    {
        if n > 0 {
            let e = top_bit(n);
            lemma_top_bit_bounds(n);
            lemma2_to64();
            assert(e <= 23) by {
                if e > 24 {
                    lemma_pow2_strictly_increases(24, e);
                }
            }
            let s = pow2((23 - e) as nat);
            lemma_pow2_adds(e, (23 - e) as nat);
            assert(pow2(e) * s == 0x80_0000);
            lemma_pow2_pos((23 - e) as nat);
            let m = n * s;
            assert(0x80_0000 <= m < 0x100_0000) by (nonlinear_arith)
                requires
                    m == n * s,
                    pow2(e) <= n < 2 * pow2(e),
                    pow2(e) * s == 0x80_0000,
                    s > 0,
            ;
            let x = Self::of_nat(n);
            assert(x.bits == (127 + e) * 0x80_0000 + (m - 0x80_0000));
            assert(x.exponent() == 127 + e);
            assert(x.fraction() == m - 0x80_0000);
            lemma_pow2_adds((23 - e) as nat, 126 + e);
            assert(x.magnitude() == n * pow2(149)) by (nonlinear_arith)
                requires
                    x.magnitude() == m * pow2(126 + e),
                    m == n * s,
                    s * pow2(126 + e) == pow2(149),
            ;
        }
    }

    /// Changing the sign changes the sign of the number and nothing else.
    pub proof fn lemma_negated_value(self)
        ensures
            self.negated().value() == -self.value(),
            self.negated().is_nan() == self.is_nan(),
    {
        let y = self.negated();
        assert(y.exponent() == self.exponent());
        assert(y.fraction() == self.fraction());
    }

    pub fn from_bits(bits: u32) -> (x: Float32)
        ensures
            x.bits == bits,
    {
        Float32 { bits }
    }

    pub fn to_bits(self) -> (bits: u32)
        ensures
            bits == self.bits,
    {
        self.bits
    }

    /// Whether the pattern is a NaN.
    pub fn is_not_a_number(self) -> (nan: bool)
        ensures
            nan == self.is_nan(),
    {
        let bits: u32 = self.bits;
        let low: u32 = bits % 0x8000_0000;
        assert((low > 0x7f80_0000) == (bits / 0x80_0000 % 256 == 255 && bits % 0x80_0000 != 0))
            by (bit_vector)
            requires
                low == bits % 0x8000_0000,
        ;
        low > 0x7f80_0000
    }

    fn ordering_key(self) -> (k: i64)
        ensures
            k == self.key(),
    {
        if self.bits >= 0x8000_0000 {
            -((self.bits - 0x8000_0000) as i64)
        } else {
            self.bits as i64
        }
    }

    /// Whether this number is below `other`. A NaN is below nothing, and
    /// nothing is below a NaN.
    pub open spec fn below(self, other: Float32) -> bool {
        !self.is_nan() && !other.is_nan() && self.value() < other.value()
    }

    /// Whether this number is below `other`.
    pub fn less_than(self, other: Float32) -> (below: bool)
        ensures
            below == self.below(other),
    {
        proof {
            Self::lemma_key_orders(self, other);
        }
        if self.is_not_a_number() || other.is_not_a_number() {
            false
        } else {
            self.ordering_key() < other.ordering_key()
        }
    }

    /// The number with its sign changed.
    pub fn negate(self) -> (x: Float32)
        ensures
            x == self.negated(),
    {
        if self.bits >= 0x8000_0000 {
            Float32 { bits: self.bits - 0x8000_0000 }
        } else {
            Float32 { bits: self.bits + 0x8000_0000 }
        }
    }

    /// The single that equals the integer `n`.
    pub fn from_small_int(n: u32) -> (x: Float32)
        requires
            n < 0x100_0000,
        ensures
            x == Self::of_nat(n as nat),
            x.value() == n * pow2(149),
            !x.is_nan(),
    {
        proof {
            Self::lemma_of_nat_value(n as nat);
        }
        if n == 0 {
            return Float32 { bits: 0 };
        }
        let mut m: u32 = n;
        let mut e: u32 = 23;
        proof {
            lemma2_to64();
            assert(pow2(0) == 1);
            assert(n * pow2(0) == n);
        }
        while m < 0x80_0000
            invariant
                0 < m < 0x100_0000,
                e <= 23,
                m == n * pow2((23 - e) as nat),
                m < 0x80_0000 ==> e > 0,
            decreases 0x100_0000 - m,
        {
            proof {
                lemma2_to64();
                lemma_pow2_unfold((23 - e + 1) as nat);
                assert(2 * (n * pow2((23 - e) as nat)) == n * (2 * pow2((23 - e) as nat)))
                    by (nonlinear_arith);
            }
            m = m * 2;
            e = e - 1;
            proof {
                if m < 0x80_0000 && e == 0 {
                    lemma2_to64();
                    assert(pow2(23) == 0x80_0000);
                    assert(n >= 1 && n * 0x80_0000 >= 0x80_0000) by (nonlinear_arith)
                        requires
                            n >= 1,
                    ;
                }
            }
        }
        proof {
            let s = pow2((23 - e) as nat);
            lemma2_to64();
            lemma_pow2_adds(e as nat, (23 - e) as nat);
            lemma_pow2_pos((23 - e) as nat);
            lemma_pow2_pos(e as nat);
            assert(pow2(e as nat) <= n < 2 * pow2(e as nat)) by (nonlinear_arith)
                requires
                    0x80_0000 <= n * s < 0x100_0000,
                    pow2(e as nat) * s == 0x80_0000,
                    s > 0,
            ;
            lemma_top_bit_unique(n as nat, e as nat);
        }
        Float32 { bits: (127 + e) * 0x80_0000 + (m - 0x80_0000) }
    }

    /// The number limited to the range from `min` to `max`.
    pub fn clamp(self, min: Float32, max: Float32) -> (x: Float32)
        requires
            !min.is_nan(),
            !max.is_nan(),
            min.value() <= max.value(),
        ensures
            x == self.clamped(min, max),
    {
        if self.is_not_a_number() {
            self
        } else if self.less_than(min) {
            min
        } else if max.less_than(self) {
            max
        } else {
            self
        }
    }
}

} // verus!
