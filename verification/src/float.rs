//! Double-precision numbers, held by their bits.
//!
//! A price, a probability or an edge reaches the decision logic as the 64 bits of an
//! IEEE-754 double. The logic compares such numbers and now and then doubles one; it never
//! needs more arithmetic than that. The bits read as a sign and a magnitude: magnitudes of
//! numbers are ordered as the numbers are, and those above that of infinity are not numbers.
use vstd::arithmetic::power2::{lemma_pow2_pos, lemma_pow2_strictly_increases, lemma_pow2_unfold, pow2};
use vstd::prelude::*;

verus! {

pub const SIGN_BIT: u64 = 0x8000_0000_0000_0000;

pub const INFINITY_BITS: u64 = 0x7ff0_0000_0000_0000;

/// The bits of the largest power of two below infinity.
pub const TOP_BINADE_BITS: u64 = 0x7fe0_0000_0000_0000;

/// One unit of the exponent field; below it stand the subnormal numbers.
pub const EXPONENT_UNIT: u64 = 0x0010_0000_0000_0000;

/// 1.0
pub const ONE_BITS: u64 = 0x3ff0_0000_0000_0000;

/// 0.75
pub const THREE_QUARTERS_BITS: u64 = 0x3fe8_0000_0000_0000;

/// 0.25
pub const QUARTER_BITS: u64 = 0x3fd0_0000_0000_0000;

/// A double-precision number given by its bits. Derived equality is equality of the bits.
#[derive(Clone, Copy, Debug, PartialEq, Eq, Structural)]
pub struct Float {
    pub bits: u64,
}

/// The value of a finite magnitude, in units of the least positive double.
pub open spec fn scaled_magnitude(m: int) -> int {
    if m < EXPONENT_UNIT {
        m
    } else {
        (EXPONENT_UNIT + m % (EXPONENT_UNIT as int)) * pow2((m / (EXPONENT_UNIT as int) - 1) as nat)
    }
}

impl Float {
    pub open spec fn magnitude(self) -> int {
        if self.bits >= SIGN_BIT { self.bits - SIGN_BIT } else { self.bits as int }
    }

    pub open spec fn not_a_number(self) -> bool {
        self.magnitude() > INFINITY_BITS
    }

    pub open spec fn finite(self) -> bool {
        self.magnitude() < INFINITY_BITS
    }

    /// The place of a number among all numbers. Both zeros have place 0.
    pub open spec fn rank(self) -> int {
        if self.bits >= SIGN_BIT { -self.magnitude() } else { self.magnitude() }
    }

    /// `self < o`; never of something that is not a number.
    pub open spec fn lt(self, o: Float) -> bool {
        !self.not_a_number() && !o.not_a_number() && self.rank() < o.rank()
    }

    /// `self <= o`; never of something that is not a number.
    pub open spec fn le(self, o: Float) -> bool {
        !self.not_a_number() && !o.not_a_number() && self.rank() <= o.rank()
    }

    /// The greater of two; of one number and something that is none, the number.
    pub open spec fn max_of(self, o: Float) -> Float {
        if self.not_a_number() || self.lt(o) { o } else { self }
    }

    /// The lesser of two; of one number and something that is none, the number.
    pub open spec fn min_of(self, o: Float) -> Float {
        if self.not_a_number() || o.lt(self) { o } else { self }
    }

    /// The number with its sign changed.
    pub open spec fn negated(self) -> Float {
        if self.bits >= SIGN_BIT {
            Float { bits: (self.bits - SIGN_BIT) as u64 }
        } else {
            Float { bits: (self.bits + SIGN_BIT) as u64 }
        }
    }

    /// The number without its sign.
    pub open spec fn unsigned(self) -> Float {
        Float { bits: self.magnitude() as u64 }
    }

    /// The value of a finite number, in units of the least positive double.
    pub open spec fn scaled(self) -> int {
        if self.bits >= SIGN_BIT {
            -scaled_magnitude(self.magnitude())
        } else {
            scaled_magnitude(self.magnitude())
        }
    }

    pub open spec fn twice(self) -> Float {
        let m = self.magnitude();
        let d = if m >= INFINITY_BITS {
            m
        } else if m < EXPONENT_UNIT {
            2 * m
        } else if m >= TOP_BINADE_BITS {
            INFINITY_BITS as int
        } else {
            m + EXPONENT_UNIT
        };
        Float { bits: if self.bits >= SIGN_BIT { (d + SIGN_BIT) as u64 } else { d as u64 } }
    }

    pub fn from_bits(bits: u64) -> (r: Float)
        ensures
            r.bits == bits,
    {
        Float { bits }
    }

    fn magnitude_of(self) -> (r: u64)
        ensures
            r == self.magnitude(),
    {
        if self.bits >= SIGN_BIT { self.bits - SIGN_BIT } else { self.bits }
    }

    pub fn is_nan(self) -> (r: bool)
        ensures
            r == self.not_a_number(),
    {
        self.magnitude_of() > INFINITY_BITS
    }

    fn place(self) -> (r: i128)
        ensures
            r == self.rank(),
    {
        let m: i128 = self.magnitude_of() as i128;
        if self.bits >= SIGN_BIT { -m } else { m }
    }

    /// `self < o`.
    pub fn less(self, o: Float) -> (r: bool)
        ensures
            r == self.lt(o),
    {
        !self.is_nan() && !o.is_nan() && self.place() < o.place()
    }

    /// `self <= o`.
    pub fn less_eq(self, o: Float) -> (r: bool)
        ensures
            r == self.le(o),
    {
        !self.is_nan() && !o.is_nan() && self.place() <= o.place()
    }

    /// `self > 0`.
    pub fn positive(self) -> (r: bool)
        ensures
            r == (Float { bits: 0 }).lt(self),
    {
        (Float { bits: 0 }).less(self)
    }

    /// `self == 0`; of either zero.
    pub fn is_zero(self) -> (r: bool)
        ensures
            r == (self.rank() == 0),
    {
        self.magnitude_of() == 0
    }

    /// `-self`.
    pub fn negative(self) -> (r: Float)
        ensures
            r == self.negated(),
    {
        if self.bits >= SIGN_BIT {
            Float { bits: self.bits - SIGN_BIT }
        } else {
            Float { bits: self.bits + SIGN_BIT }
        }
    }

    /// The absolute value.
    pub fn absolute(self) -> (r: Float)
        ensures
            r == self.unsigned(),
    {
        Float { bits: self.magnitude_of() }
    }

    /// The greater of two numbers.
    pub fn larger(self, o: Float) -> (r: Float)
        ensures
            r == self.max_of(o),
    {
        if self.is_nan() || self.less(o) { o } else { self }
    }

    /// The lesser of two numbers.
    pub fn smaller(self, o: Float) -> (r: Float)
        ensures
            r == self.min_of(o),
    {
        if self.is_nan() || o.less(self) { o } else { self }
    }

    /// `self * 2`, which is exact unless it overflows to infinity.
    pub fn doubled(self) -> (r: Float)
        ensures
            r == self.twice(),
    {
        let m: u64 = self.magnitude_of();
        let d: u64 = if m >= INFINITY_BITS {
            m
        } else if m < EXPONENT_UNIT {
            2 * m
        } else if m >= TOP_BINADE_BITS {
            INFINITY_BITS
        } else {
            m + EXPONENT_UNIT
        };
        Float { bits: if self.bits >= SIGN_BIT { d + SIGN_BIT } else { d } }
    }
}

/// A setting that is a double: its value, and the text that displays it.
#[derive(Clone, Debug)]
pub struct Setting {
    pub value: Float,
    pub text: String,
}

proof fn scaled_magnitude_within(m: int)
    requires
        m >= EXPONENT_UNIT,
    ensures
        ({
            let p = pow2((m / (EXPONENT_UNIT as int) - 1) as nat) as int;
            &&& p > 0
            &&& EXPONENT_UNIT * p <= scaled_magnitude(m) < 2 * EXPONENT_UNIT * p
        }),
{
    let u = EXPONENT_UNIT as int;
    let p = pow2((m / u - 1) as nat) as int;
    lemma_pow2_pos((m / u - 1) as nat);
    let r = m % u;
    assert(u * p <= (u + r) * p < 2 * u * p) by (nonlinear_arith)
        requires
            p > 0,
            0 <= r < u,
    ;
}

proof fn scaled_magnitude_increases(a: int, b: int)
    requires
        0 <= a < b,
    ensures
        scaled_magnitude(a) < scaled_magnitude(b),
{
    let u = EXPONENT_UNIT as int;
    if b >= u {
        scaled_magnitude_within(b);
        let pb = pow2((b / u - 1) as nat) as int;
        if a < u {
            assert(u <= u * pb) by (nonlinear_arith)
                requires
                    pb > 0,
                    u > 0,
            ;
        } else {
            scaled_magnitude_within(a);
            let pa = pow2((a / u - 1) as nat) as int;
            if a / u == b / u {
                assert(a % u < b % u);
                let ra = a % u;
                let rb = b % u;
                assert((u + ra) * pa < (u + rb) * pa) by (nonlinear_arith)
                    requires
                        pa > 0,
                        ra < rb,
                ;
            } else {
                assert(a / u < b / u);
                assert(2 * pa <= pb) by {
                    lemma_pow2_unfold((a / u) as nat);
                    if a / u < b / u - 1 {
                        lemma_pow2_strictly_increases((a / u) as nat, (b / u - 1) as nat);
                    }
                }
                assert(2 * u * pa <= u * pb) by (nonlinear_arith)
                    requires
                        2 * pa <= pb,
                        u > 0,
                ;
            }
        }
    }
}

/// Comparison of the bits is comparison of the values.
pub proof fn order_is_order_of_values(a: Float, b: Float)
    requires
        a.finite(),
        b.finite(),
    ensures
        a.lt(b) <==> a.scaled() < b.scaled(),
        a.le(b) <==> a.scaled() <= b.scaled(),
{
    let ma = a.magnitude();
    let mb = b.magnitude();
    if ma < mb {
        scaled_magnitude_increases(ma, mb);
    }
    if mb < ma {
        scaled_magnitude_increases(mb, ma);
    }
    if ma > 0 {
        scaled_magnitude_increases(0, ma);
    }
    if mb > 0 {
        scaled_magnitude_increases(0, mb);
    }
}

/// Doubling doubles the value of every finite number below the top binade.
pub proof fn doubling_doubles(a: Float)
    requires
        a.magnitude() < TOP_BINADE_BITS,
    ensures
        a.twice().finite(),
        a.twice().scaled() == 2 * a.scaled(),
{
    let u = EXPONENT_UNIT as int;
    let m = a.magnitude();
    if m < u {
        lemma_pow2_pos(0);
        if 2 * m >= u {
            assert((2 * m) / u == 1 && (2 * m) % u == 2 * m - u);
            vstd::arithmetic::power2::lemma2_to64();
            let p = pow2(0) as int;
            assert(p == 1);
            let s = u + (2 * m) % u;
            assert(s * p == s) by (nonlinear_arith)
                requires
                    p == 1,
            ;
        }
    } else {
        let e = (m / u - 1) as nat;
        assert((m + u) / u == m / u + 1 && (m + u) % u == m % u);
        lemma_pow2_unfold(e + 1);
        let s = u + m % u;
        let p = pow2(e) as int;
        assert(s * (2 * p) == 2 * (s * p)) by (nonlinear_arith);
    }
}

/// Something that is not a number is neither below, nor equal to, nor above anything; of two
/// numbers exactly one of these holds.
pub proof fn numbers_are_comparable(a: Float, b: Float)
    ensures
        a.not_a_number() || b.not_a_number() ==> !a.lt(b) && !a.le(b) && !b.lt(a) && !b.le(a),
        !a.not_a_number() && !b.not_a_number() ==> (a.lt(b) <==> !b.le(a)) && (a.le(b) <==> !b.lt(a)),
        a.not_a_number() <==> (a.bits > 0x7ff0_0000_0000_0000 && a.bits < 0x8000_0000_0000_0000) || a.bits
            > 0xfff0_0000_0000_0000,
{
}

/// Infinity is above every finite number, and minus infinity below.
pub proof fn infinities_are_extreme(a: Float)
    requires
        a.finite(),
    ensures
        a.lt(Float { bits: 0x7ff0_0000_0000_0000 }),
        (Float { bits: 0xfff0_0000_0000_0000 }).lt(a),
{
}

/// The greater of two is one of them and below neither, the lesser is one of them and above
/// neither. A number goes before something that is none, and so it is whichever stands first.
pub proof fn extremes_are_among_the_two(a: Float, b: Float)
    ensures
        a.max_of(b) == a || a.max_of(b) == b,
        a.min_of(b) == a || a.min_of(b) == b,
        !a.max_of(b).lt(a) && !a.max_of(b).lt(b),
        !a.lt(a.min_of(b)) && !b.lt(a.min_of(b)),
        a.max_of(b).not_a_number() <==> a.not_a_number() && b.not_a_number(),
        a.min_of(b).not_a_number() <==> a.not_a_number() && b.not_a_number(),
{
}

/// Changing the sign twice changes nothing; once, it turns the value round, and dropping the sign
/// gives the distance from zero.
pub proof fn signs_turn_values_round(a: Float)
    ensures
        a.negated().negated() == a,
        a.negated().scaled() == -a.scaled(),
        a.unsigned().scaled() == (if a.scaled() < 0 { -a.scaled() } else { a.scaled() }),
        a.unsigned() == a || a.unsigned() == a.negated(),
        !a.not_a_number() ==> !a.unsigned().lt(Float { bits: 0 }),
{
    if a.magnitude() > 0 {
        scaled_magnitude_increases(0, a.magnitude());
    }
}

/// What cannot be doubled within the range becomes infinite, and what is not a number stays so.
pub proof fn doubling_overflows_to_infinity(a: Float)
    requires
        a.magnitude() >= 0x7fe0_0000_0000_0000,
    ensures
        !a.not_a_number() ==> a.twice().magnitude() == 0x7ff0_0000_0000_0000,
        a.not_a_number() ==> a.twice() == a,
        a.twice().bits >= 0x8000_0000_0000_0000 <==> a.bits >= 0x8000_0000_0000_0000,
{
}

} // verus!
