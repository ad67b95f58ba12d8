//! Prices as decimal numbers.
use rust_decimal::Decimal;
use vstd::arithmetic::power::pow;
use vstd::prelude::*;

verus! {

/// 2^96: mantissas stay below it.
pub const MANTISSA_LIMIT: i128 = 79_228_162_514_264_337_593_543_950_336;

/// A decimal number: the mantissa with the point moved left by `scale` digits.
#[derive(Clone, Copy, Debug, PartialEq, Eq, Structural)]
pub struct Price {
    pub mantissa: i128,
    pub scale: u32,
}

/// A power of ten.
pub open spec fn ten_to(k: int) -> int {
    pow(10, k as nat)
}

/// The shortest form of the number `m` with the point moved left by `k` digits.
pub open spec fn shortest(m: int, k: int) -> Price
    decreases k,
{
    if k > 0 && m % 10 == 0 {
        shortest(m / 10, k - 1)
    } else {
        Price { mantissa: m as i128, scale: k as u32 }
    }
}

/// A price in cents.
pub open spec fn cents_price(c: int) -> Price {
    shortest(c, 2)
}

/// A price in half cents.
pub open spec fn half_cents_price(h: int) -> Price {
    shortest(5 * h, 3)
}

impl Price {
    /// The number is within the range of the decimal type.
    pub open spec fn wf(self) -> bool {
        -MANTISSA_LIMIT < self.mantissa < MANTISSA_LIMIT && self.scale <= 28
    }

    /// No shorter form of the number exists.
    pub open spec fn is_shortest(self) -> bool {
        self.scale == 0 || self.mantissa % 10 != 0
    }

    /// The price is `c` cents.
    pub open spec fn is_cents(self, c: int) -> bool {
        self.mantissa * 100 == c * ten_to(self.scale as int)
    }
}

/// What `Decimal` gives for a number, mantissa and scale, divided by a whole one; in its
/// shortest form.
pub uninterp spec fn decimal_quotient(mantissa: int, scale: int, divisor: int) -> Price;

/// Division of the `rust_decimal` crate, followed by its `normalize`, which strips trailing
/// zeros. The quotient is rounded where it needs more digits than a decimal has. Where the
/// divisor divides 100, numbers below 2^66 with at most two decimals are divided exactly.
#[verifier::external_body]
fn divide(n: Price, d: i64) -> (r: Price)
    requires
        n.wf(),
        d != 0,
    ensures
        r == decimal_quotient(n.mantissa as int, n.scale as int, d as int),
        r.wf() && r.is_shortest(),
        0 < d && 100int % (d as int) == 0 && n.scale <= 2 && -0x4_0000_0000_0000_0000 < n.mantissa
            < 0x4_0000_0000_0000_0000 ==> r.mantissa * d * ten_to(n.scale as int) == n.mantissa * ten_to(
            r.scale as int,
        ),
{
    let q = (Decimal::from_i128_with_scale(n.mantissa, n.scale) / Decimal::from(d)).normalize();
    Price { mantissa: q.mantissa(), scale: q.scale() }
}

proof fn ten_to_steps(k: int)
    requires
        k >= 0,
    ensures
        ten_to(k + 1) == 10 * ten_to(k),
        ten_to(k) > 0,
{
    vstd::arithmetic::power::lemma_pow1(10);
    vstd::arithmetic::power::lemma_pow_adds(10, 1, k as nat);
    vstd::arithmetic::power::lemma_pow_positive(10, k as nat);
}

/// Two shortest forms of one number are the same.
pub proof fn shortest_form_is_unique(a: Price, b: Price)
    requires
        a.is_shortest(),
        b.is_shortest(),
        a.mantissa * ten_to(b.scale as int) == b.mantissa * ten_to(a.scale as int),
    ensures
        a == b,
    decreases a.scale + b.scale,
{
    vstd::arithmetic::power::lemma_pow0(10);
    assert(ten_to(0) == 1);
    if a.scale > 0 && b.scale > 0 {
        let x = Price { scale: (a.scale - 1) as u32, ..a };
        let y = Price { scale: (b.scale - 1) as u32, ..b };
        ten_to_steps(a.scale - 1);
        ten_to_steps(b.scale - 1);
        let ta = ten_to(a.scale - 1);
        let tb = ten_to(b.scale - 1);
        let am = a.mantissa as int;
        let bm = b.mantissa as int;
        assert(am * tb == bm * ta) by (nonlinear_arith)
            requires
                am * (10 * tb) == bm * (10 * ta),
        ;
        shortest_form_is_unique(x, y);
    } else if a.scale > 0 {
        ten_to_steps(a.scale - 1);
        let ta = ten_to(a.scale - 1);
        let am = a.mantissa as int;
        let bm = b.mantissa as int;
        assert(am == 10 * (bm * ta)) by (nonlinear_arith)
            requires
                am * 1 == bm * (10 * ta),
        ;
        assert(am % 10 == 0);
    } else if b.scale > 0 {
        ten_to_steps(b.scale - 1);
        let tb = ten_to(b.scale - 1);
        let am = a.mantissa as int;
        let bm = b.mantissa as int;
        assert(bm == 10 * (am * tb)) by (nonlinear_arith)
            requires
                am * (10 * tb) == bm * 1,
        ;
        assert(bm % 10 == 0);
    }
}

/// Shortening keeps the number, and nothing is left to strip.
pub proof fn shortest_keeps_value(m: int, k: int)
    requires
        -MANTISSA_LIMIT < m < MANTISSA_LIMIT,
        0 <= k <= 28,
    ensures
        shortest(m, k).is_shortest(),
        shortest(m, k).wf(),
        shortest(m, k).mantissa * ten_to(k) == m * ten_to(shortest(m, k).scale as int),
    decreases k,
{
    if k > 0 && m % 10 == 0 {
        shortest_keeps_value(m / 10, k - 1);
        ten_to_steps(k - 1);
        let s = shortest(m, k);
        let t = ten_to(k - 1);
        let u = ten_to(s.scale as int);
        let sm = s.mantissa as int;
        let q = m / 10;
        assert(sm * (10 * t) == (10 * q) * u) by (nonlinear_arith)
            requires
                sm * t == q * u,
        ;
    }
}

proof fn exact_quotient(r: Price, m: int, k: int, d: int, scaled: int, l: int)
    requires
        r.is_shortest(),
        d > 0,
        0 <= k,
        k <= l <= 28,
        -MANTISSA_LIMIT < scaled < MANTISSA_LIMIT,
        r.mantissa * d * ten_to(k) == m * ten_to(r.scale as int),
        m * ten_to(l) == scaled * (d * ten_to(k)),
    ensures
        r == shortest(scaled, l),
{
    shortest_keeps_value(scaled, l);
    let s = shortest(scaled, l);
    ten_to_steps(k);
    ten_to_steps(l);
    ten_to_steps(r.scale as int);
    let tk = ten_to(k);
    let tl = ten_to(l);
    let tr = ten_to(r.scale as int);
    let ts = ten_to(s.scale as int);
    let rm = r.mantissa as int;
    let sm = s.mantissa as int;
    let f = d * tk;
    assert(f > 0) by (nonlinear_arith)
        requires
            d > 0,
            tk > 0,
            f == d * tk,
    ;
    // The three equations say that the quotient, the scaled number and its shortest form agree.
    assert(rm * f == m * tr) by (nonlinear_arith)
        requires
            rm * d * tk == m * tr,
            f == d * tk,
    ;
    assert(m * tl == scaled * f);
    assert(sm * tl == scaled * ts);
    assert((rm * ts) * (f * tl) == (sm * tr) * (f * tl)) by (nonlinear_arith)
        requires
            rm * f == m * tr,
            m * tl == scaled * f,
            sm * tl == scaled * ts,
    {
        assert((rm * ts) * (f * tl) == (rm * f) * (ts * tl));
        assert((rm * f) * (ts * tl) == (m * tl) * (tr * ts));
        assert((m * tl) * (tr * ts) == (scaled * ts) * (f * tr));
        assert((scaled * ts) * (f * tr) == (sm * tr) * (f * tl));
    }
    assert(f * tl > 0) by (nonlinear_arith)
        requires
            f > 0,
            tl > 0,
    ;
    let x = rm * ts;
    let y = sm * tr;
    let z = f * tl;
    assert(x == y) by (nonlinear_arith)
        requires
            x * z == y * z,
            z > 0,
    ;
    shortest_form_is_unique(r, s);
}

/// A price in cents as a decimal.
pub fn cents_to_decimal(cents: i64) -> (r: Price)
    ensures
        r == cents_price(cents as int),
        r.wf(),
{
    wide_cents_to_decimal(cents as i128)
}

/// Half of a sum of cents as a decimal.
pub fn half_of_cents(sum: i128) -> (r: Price)
    requires
        -0x2_0000_0000_0000_0000 < sum < 0x2_0000_0000_0000_0000,
    ensures
        r == half_cents_price(sum as int),
        r.wf(),
{
    let r: Price = divide(Price { mantissa: sum, scale: 2 }, 2);
    proof {
        vstd::arithmetic::power::lemma_pow0(10);
        ten_to_steps(0);
        ten_to_steps(1);
        ten_to_steps(2);
        let s = sum as int;
        let t = ten_to(2);
        assert(t == 100 && ten_to(3) == 1000);
        assert(s * 1000 == (5 * s) * (2 * t)) by (nonlinear_arith)
            requires
                t == 100,
        ;
        exact_quotient(r, s, 2, 2, 5 * s, 3);
    }
    r
}

/// Cents beyond the range of 64 bits as a decimal.
pub fn wide_cents_to_decimal(cents: i128) -> (r: Price)
    requires
        -0x2_0000_0000_0000_0000 < cents < 0x2_0000_0000_0000_0000,
    ensures
        r == cents_price(cents as int),
        r.wf(),
{
    let r: Price = divide(Price { mantissa: cents, scale: 0 }, 100);
    proof {
        vstd::arithmetic::power::lemma_pow0(10);
        ten_to_steps(0);
        ten_to_steps(1);
        exact_quotient(r, cents as int, 0, 100, cents as int, 2);
    }
    r
}

/// A total in cents is shared without a remainder that decimals could not tell: the number divides
/// a hundred, and the total is not out of the ordinary.
pub open spec fn shares_exactly(total: int, size: int) -> bool {
    0 < size && 100int % size == 0 && -0x4_0000_0000_0000_0000 < total < 0x4_0000_0000_0000_0000
}

/// A total in cents, shared equally among `size`. Where that is exact, so is the result.
pub fn average_of_cents(total: i128, size: i64) -> (r: Price)
    requires
        -MANTISSA_LIMIT < total < MANTISSA_LIMIT,
        size != 0,
    ensures
        r == decimal_quotient(total as int, 2, size as int),
        r.wf() && r.is_shortest(),
        shares_exactly(total as int, size as int) ==> r == shortest(total * (100int / size as int), 4),
{
    let r: Price = divide(Price { mantissa: total, scale: 2 }, size);
    proof {
        let t = total as int;
        let d = size as int;
        if shares_exactly(t, d) {
            vstd::arithmetic::power::lemma_pow0(10);
            ten_to_steps(0);
            ten_to_steps(1);
            ten_to_steps(2);
            ten_to_steps(3);
            assert(ten_to(2) == 100 && ten_to(4) == 10000);
            let q = 100int / d;
            vstd::arithmetic::div_mod::lemma_fundamental_div_mod(100, d);
            assert(q * d == 100) by (nonlinear_arith)
                requires
                    d * q == 100,
            ;
            assert(0 < q <= 100) by (nonlinear_arith)
                requires
                    q * d == 100,
                    d > 0,
            ;
            assert(t * 10000 == (t * q) * (d * 100)) by (nonlinear_arith)
                requires
                    q * d == 100,
            ;
            assert(-MANTISSA_LIMIT < t * q < MANTISSA_LIMIT) by (nonlinear_arith)
                requires
                    0 < q <= 100,
                    -0x4_0000_0000_0000_0000 < t < 0x4_0000_0000_0000_0000,
                    MANTISSA_LIMIT == 79_228_162_514_264_337_593_543_950_336,
            ;
            exact_quotient(r, t, 2, d, t * q, 4);
        }
    }
    r
}

proof fn ten_to_the_limit()
    ensures
        ten_to(28) == 10_000_000_000_000_000_000_000_000_000,
{
    vstd::arithmetic::power::lemma_pow0(10);
    ten_to_steps(0);
    ten_to_steps(1);
    ten_to_steps(2);
    ten_to_steps(3);
    ten_to_steps(4);
    ten_to_steps(5);
    ten_to_steps(6);
    ten_to_steps(7);
    ten_to_steps(8);
    ten_to_steps(9);
    ten_to_steps(10);
    ten_to_steps(11);
    ten_to_steps(12);
    ten_to_steps(13);
    ten_to_steps(14);
    ten_to_steps(15);
    ten_to_steps(16);
    ten_to_steps(17);
    ten_to_steps(18);
    ten_to_steps(19);
    ten_to_steps(20);
    ten_to_steps(21);
    ten_to_steps(22);
    ten_to_steps(23);
    ten_to_steps(24);
    ten_to_steps(25);
    ten_to_steps(26);
    ten_to_steps(27);
}

/// The whole cents that a price is, where it is.
pub fn whole_cents(p: Price) -> (r: Option<i64>)
    requires
        p.wf(),
    ensures
        match r {
            Some(c) => p.is_cents(c as int),
            None => forall|c: i64| !p.is_cents(c as int),
        },
{
    let mut t: i128 = 1;
    let mut k: u32 = 0;
    proof {
        vstd::arithmetic::power::lemma_pow0(10);
        ten_to_the_limit();
        assert(ten_to(0) == 1);
    }
    while k < p.scale
        invariant
            k <= p.scale <= 28,
            t == ten_to(k as int),
            1 <= t,
            k == 0 ==> t == 1,
            t <= 10_000_000_000_000_000_000_000_000_000,
            t * ten_to(28 - k) == 10_000_000_000_000_000_000_000_000_000,
        decreases p.scale - k,
    {
        proof {
            ten_to_steps(k as int);
            ten_to_steps(28 - k - 1);
            let u = ten_to(28 - k - 1);
            let x = t as int;
            assert(x * (10 * u) == (x * 10) * u) by (nonlinear_arith);
            assert(x * 10 <= (x * 10) * u) by (nonlinear_arith)
                requires
                    x >= 1,
                    u >= 1,
            ;
        }
        t = t * 10;
        k = k + 1;
    }
    let negative: bool = p.mantissa < 0;
    let size: u128 = if negative { (-p.mantissa) as u128 * 100 } else { p.mantissa as u128 * 100 };
    let q: u128 = size / (t as u128);
    let ghost signed: int = if negative { -(q as int) } else { q as int };
    proof {
        let x = size as int;
        let y = t as int;
        vstd::arithmetic::div_mod::lemma_fundamental_div_mod(x, y);
        assert forall|c: int| #[trigger] p.is_cents(c) implies x % y == 0 && x / y == (if c < 0 { -c } else { c }) by {
            let a = if c < 0 { -c } else { c };
            assert(x == a * y) by (nonlinear_arith)
                requires
                    p.mantissa * 100 == c * y,
                    a == (if c < 0 { -c } else { c }),
                    x == (if p.mantissa < 0 { -p.mantissa * 100 } else { p.mantissa * 100 }),
                    y > 0,
            ;
            vstd::arithmetic::div_mod::lemma_div_by_multiple(a, y);
            vstd::arithmetic::div_mod::lemma_mod_multiples_basic(a, y);
        }
        if x % y == 0 {
            let b = x / y;
            assert(x == b * y) by (nonlinear_arith)
                requires
                    x == y * b + x % y,
                    x % y == 0,
            ;
            let c = if negative { -b } else { b };
            assert(p.mantissa * 100 == c * y) by (nonlinear_arith)
                requires
                    x == b * y,
                    c == (if negative { -b } else { b }),
                    negative == (p.mantissa < 0),
                    x == (if p.mantissa < 0 { -p.mantissa * 100 } else { p.mantissa * 100 }),
            ;
            assert(c == signed);
            assert(p.is_cents(signed));
        }
    }
    if size % (t as u128) != 0 {
        return None;
    }
    if negative {
        if q > 0x8000_0000_0000_0000u128 {
            return None;
        }
        let c: i64 = (-(q as i128)) as i64;
        assert(c == signed);
        Some(c)
    } else {
        if q > 0x7fff_ffff_ffff_ffffu128 {
            assert forall|c: i64| !p.is_cents(c as int) by {
                if p.is_cents(c as int) && c < 0 {
                    let x = c as int;
                    let y = t as int;
                    assert(x * y < 0) by (nonlinear_arith)
                        requires
                            x < 0,
                            y > 0,
                    ;
                }
            }
            return None;
        }
        let c: i64 = q as i64;
        assert(c == signed);
        Some(c)
    }
}

/// A price in cents is that many cents, in its shortest form.
pub proof fn cents_are_cents(c: int)
    requires
        -MANTISSA_LIMIT < c < MANTISSA_LIMIT,
    ensures
        cents_price(c).is_cents(c),
        cents_price(c).is_shortest(),
        cents_price(c).wf(),
{
    shortest_keeps_value(c, 2);
    vstd::arithmetic::power::lemma_pow0(10);
    ten_to_steps(0);
    ten_to_steps(1);
}

/// Twice a price in half cents is that many cents.
pub proof fn half_cents_are_half_cents(h: int)
    requires
        -0x1_0000_0000_0000_0000_0000 < h < 0x1_0000_0000_0000_0000_0000,
    ensures
        half_cents_price(h).mantissa * 200 == h * ten_to(half_cents_price(h).scale as int),
        half_cents_price(h).is_shortest(),
        half_cents_price(h).wf(),
{
    shortest_keeps_value(5 * h, 3);
    vstd::arithmetic::power::lemma_pow0(10);
    ten_to_steps(0);
    ten_to_steps(1);
    ten_to_steps(2);
    let p = half_cents_price(h);
    let m = p.mantissa as int;
    let t = ten_to(p.scale as int);
    assert(m * 200 == h * t) by (nonlinear_arith)
        requires
            m * 1000 == (5 * h) * t,
    ;
}

/// Equal prices are equal in cents, and different ones differ.
pub proof fn prices_tell_cents_apart(a: int, b: int)
    requires
        -MANTISSA_LIMIT < a < MANTISSA_LIMIT,
        -MANTISSA_LIMIT < b < MANTISSA_LIMIT,
    ensures
        cents_price(a) == cents_price(b) <==> a == b,
{
    cents_are_cents(a);
    cents_are_cents(b);
    let t = ten_to(cents_price(a).scale as int);
    if cents_price(a) == cents_price(b) {
        vstd::arithmetic::power::lemma_pow_positive(10, cents_price(a).scale as nat);
        assert(a == b) by (nonlinear_arith)
            requires
                a * t == b * t,
                t > 0,
        ;
    }
}

} // verus!
