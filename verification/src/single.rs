//! Single precision numbers held by their bit pattern.
//!
//! Nothing is computed with them here beyond what the pattern shows by itself: comparing,
//! picking the smaller or larger one, limiting, changing the sign, and telling real numbers
//! from infinities and from "not a number".

use vstd::arithmetic::power2::{lemma_pow2_adds, lemma_pow2_pos, lemma_pow2_strictly_increases, pow2};
use vstd::prelude::*;

verus! {

/// Patterns below this one (sign aside) are real numbers; this one is infinity.
pub const INFINITE_BITS: u32 = 0x7f80_0000;

/// The sign bit.
pub const SIGN_BIT: u32 = 0x8000_0000;

/// A single precision number, held by its bit pattern.
#[derive(Clone, Copy, Debug, PartialEq, Eq, Structural)]
pub struct Single {
    pub bits: u32,
}

/// What a pattern without its sign stands for, in units of the smallest positive number
/// (2 to the power of minus 149).
pub open spec fn scaled(magnitude: nat) -> nat {
    let exponent = magnitude / 0x80_0000;
    let fraction = magnitude % 0x80_0000;
    if exponent == 0 {
        fraction
    } else {
        (0x80_0000 + fraction) * pow2((exponent - 1) as nat)
    }
}

impl Single {
    pub open spec fn negative(self) -> bool {
        self.bits >= SIGN_BIT
    }

    pub open spec fn magnitude(self) -> nat {
        if self.bits >= SIGN_BIT {
            (self.bits - SIGN_BIT) as nat
        } else {
            self.bits as nat
        }
    }

    /// "Not a number".
    pub open spec fn nan(self) -> bool {
        self.magnitude() > INFINITE_BITS
    }

    /// Neither infinite nor "not a number".
    pub open spec fn finite(self) -> bool {
        self.magnitude() < INFINITE_BITS
    }

    /// The number itself, in units of 2 to the power of minus 149: every finite single
    /// precision number is a whole multiple of that unit. The infinities lie beyond all of
    /// them.
    #[verifier::opaque]
    pub open spec fn val(self) -> int {
        if self.negative() {
            -(scaled(self.magnitude()) as int)
        } else {
            scaled(self.magnitude()) as int
        }
    }

    /// `self < other` as IEEE 754 has it: never with "not a number".
    pub open spec fn less(self, other: Single) -> bool {
        !self.nan() && !other.nan() && self.val() < other.val()
    }

    /// `self <= other`.
    pub open spec fn at_most(self, other: Single) -> bool {
        !self.nan() && !other.nan() && self.val() <= other.val()
    }

    /// `self == other`: both zeros are equal, "not a number" equals nothing.
    pub open spec fn equal(self, other: Single) -> bool {
        !self.nan() && !other.nan() && self.val() == other.val()
    }

    /// The larger of two; "not a number" only if both are.
    pub open spec fn larger(self, other: Single) -> Single {
        if self.nan() {
            other
        } else if self.less(other) {
            other
        } else {
            self
        }
    }

    /// The smaller of two; "not a number" only if both are.
    pub open spec fn smaller(self, other: Single) -> Single {
        if self.nan() {
            other
        } else if other.less(self) {
            other
        } else {
            self
        }
    }

    /// Kept within `low` and `high`; "not a number" stays what it is.
    pub open spec fn limited(self, low: Single, high: Single) -> Single {
        if self.less(low) {
            low
        } else if high.less(self) {
            high
        } else {
            self
        }
    }

    /// Minus zero written as zero, everything else unchanged.
    pub open spec fn plain(self) -> Single {
        if self.magnitude() == 0 {
            Single { bits: 0 }
        } else {
            self
        }
    }

    /// The whole number of quarters `n`, where it can be written exactly.
    pub open spec fn is_quarters(self, n: int) -> bool {
        self.finite() && self.val() == n * pow2(147) && (n == 0 ==> self.bits == 0)
    }

    /// The whole number `n`, where it can be written exactly.
    pub open spec fn is_whole(self, n: int) -> bool {
        self.is_quarters(4 * n)
    }
}

/// A larger pattern stands for a larger number.
pub proof fn lemma_scaled_increases(a: nat, b: nat)
    requires
        a < b,
    ensures
        scaled(a) < scaled(b),
{
    let (ea, fa) = (a / 0x80_0000, a % 0x80_0000);
    let (eb, fb) = (b / 0x80_0000, b % 0x80_0000);
    assert(ea <= eb && fa < 0x80_0000 && fb < 0x80_0000);
    if ea == eb {
        if ea > 0 {
            lemma_pow2_pos((ea - 1) as nat);
            let p = pow2((ea - 1) as nat);
            assert((0x80_0000 + fa) * p < (0x80_0000 + fb) * p) by (nonlinear_arith)
                requires
                    fa < fb,
                    p > 0,
            ;
        }
    } else {
        let q = pow2((eb - 1) as nat);
        lemma_pow2_pos((eb - 1) as nat);
        assert(0x80_0000 * q <= (0x80_0000 + fb) * q) by (nonlinear_arith);
        if ea == 0 {
            assert(fa < 0x80_0000 * q) by (nonlinear_arith)
                requires
                    fa < 0x80_0000,
                    q > 0,
            ;
        } else {
            let p = pow2((ea - 1) as nat);
            lemma_pow2_pos((ea - 1) as nat);
            assert(2 * p <= q) by {
                lemma_pow2_adds(1, (ea - 1) as nat);
                lemma2_one();
                if ea < eb - 1 {
                    lemma_pow2_strictly_increases(ea, (eb - 1) as nat);
                }
            }
            assert((0x80_0000 + fa) * p < 0x80_0000 * q) by (nonlinear_arith)
                requires
                    fa < 0x80_0000,
                    p > 0,
                    2 * p <= q,
            ;
        }
    }
}

proof fn lemma2_one()
    ensures
        pow2(1) == 2,
{
    vstd::arithmetic::power2::lemma2_to64();
}

/// The number of quarters `n`. There is exactly one as long as it can be written exactly.
pub open spec fn quarters_of(n: int) -> Single {
    choose|r: Single| r.is_quarters(n)
}

/// The whole number `n`.
pub open spec fn whole_of(n: int) -> Single {
    quarters_of(4 * n)
}

/// A number of quarters has one pattern only.
pub proof fn lemma_quarters_unique(r: Single, n: int)
    requires
        r.is_quarters(n),
    ensures
        r == quarters_of(n),
{
    let s = quarters_of(n);
    assert(s.is_quarters(n));
    lemma_order(r, s);
    lemma_pow2_pos(147);
    let zero = Single { bits: 0 };
    assert(zero.val() == 0) by {
        reveal(Single::val);
    }
    lemma_order(r, zero);
    if n != 0 {
        assert(n * pow2(147) != 0) by (nonlinear_arith)
            requires
                n != 0,
                pow2(147) > 0,
        ;
    }
}

proof fn lemma_pattern(f: nat, e: nat, m: nat) -> (r: Single)
    requires
        0 < f < 0x100_0000,
        125 <= e <= 148,
        f * pow2((e - 1) as nat) == m * pow2(147),
        f >= pow2((148 - e) as nat),
    ensures
        r.finite(),
        r.val() == m * pow2(147),
    decreases e,
{
    if f < 0x80_0000 {
        lemma_pow2_adds(1, (e - 2) as nat);
        lemma2_one();
        assert(2 * f * pow2((e - 2) as nat) == f * (2 * pow2((e - 2) as nat))) by (nonlinear_arith);
        lemma_pow2_adds(1, (148 - e) as nat);
        if e == 125 {
            vstd::arithmetic::power2::lemma2_to64();
            assert(false);
        }
        lemma_pattern(2 * f, (e - 1) as nat, m)
    } else {
        let r = Single { bits: (e * 0x80_0000 + (f - 0x80_0000)) as u32 };
        reveal(Single::val);
        assert(r.magnitude() / 0x80_0000 == e);
        assert(r.magnitude() % 0x80_0000 == f - 0x80_0000);
        r
    }
}

/// Up to 24 bits a number of quarters can be written exactly.
pub proof fn lemma_quarters_of(n: int)
    requires
        -0x100_0000 < n < 0x100_0000,
    ensures
        quarters_of(n).is_quarters(n),
{
    if n == 0 {
        reveal(Single::val);
        assert((Single { bits: 0 }).is_quarters(0));
    } else {
        let m = if n < 0 {
            (-n) as nat
        } else {
            n as nat
        };
        vstd::arithmetic::power2::lemma2_to64();
        let r = lemma_pattern(m, 148, m);
        if n > 0 {
            assert(r.is_quarters(n));
        } else {
            lemma_pow2_pos(147);
            assert(m * pow2(147) > 0) by (nonlinear_arith)
                requires
                    m > 0,
                    pow2(147) > 0,
            ;
            reveal(Single::val);
            let s = Single { bits: (r.bits + SIGN_BIT) as u32 };
            assert(-(m * pow2(147)) == n * pow2(147)) by (nonlinear_arith)
                requires
                    m == -n,
            ;
            assert(s.is_quarters(n));
        }
    }
}

/// Numbers of quarters compare like the counts do.
pub proof fn lemma_quarters_order(a: Single, m: int, b: Single, n: int)
    requires
        a.is_quarters(m),
        b.is_quarters(n),
    ensures
        a.less(b) <==> m < n,
        a.at_most(b) <==> m <= n,
        a.equal(b) <==> m == n,
{
    lemma_pow2_pos(147);
    let p = pow2(147);
    assert(m * p < n * p <==> m < n) by (nonlinear_arith)
        requires
            p > 0,
    ;
    assert(m * p == n * p <==> m == n) by (nonlinear_arith)
        requires
            p > 0,
    ;
}

/// Comparing the patterns, the sign taken into account, compares the numbers.
pub proof fn lemma_order(a: Single, b: Single)
    ensures
        a.order_key() < b.order_key() <==> a.val() < b.val(),
        a.order_key() == b.order_key() <==> a.val() == b.val(),
{
    reveal(Single::val);
    let (m, n) = (a.magnitude(), b.magnitude());
    if m < n {
        lemma_scaled_increases(m, n);
    } else if n < m {
        lemma_scaled_increases(n, m);
    }
    if m > 0 {
        lemma_scaled_increases(0, m);
    }
    if n > 0 {
        lemma_scaled_increases(0, n);
    }
}

impl Single {
    /// The pattern as a whole number that orders like the numbers do.
    pub open spec fn order_key(self) -> int {
        if self.negative() {
            -(self.magnitude() as int)
        } else {
            self.magnitude() as int
        }
    }

    fn key(self) -> (key: i64)
        ensures
            key == self.order_key(),
    {
        if self.bits >= SIGN_BIT {
            -((self.bits - SIGN_BIT) as i64)
        } else {
            self.bits as i64
        }
    }

    fn magnitude_bits(self) -> (m: u32)
        ensures
            m == self.magnitude(),
    {
        if self.bits >= SIGN_BIT {
            self.bits - SIGN_BIT
        } else {
            self.bits
        }
    }

    /// Whether it is "not a number".
    pub fn is_nan(self) -> (r: bool)
        ensures
            r == self.nan(),
    {
        self.magnitude_bits() > INFINITE_BITS
    }

    /// Whether it is neither infinite nor "not a number".
    pub fn is_finite(self) -> (r: bool)
        ensures
            r == self.finite(),
    {
        self.magnitude_bits() < INFINITE_BITS
    }

    /// `self < other`.
    pub fn lt(self, other: Single) -> (r: bool)
        ensures
            r == self.less(other),
    {
        proof {
            lemma_order(self, other);
        }
        !self.is_nan() && !other.is_nan() && self.key() < other.key()
    }

    /// `self <= other`.
    pub fn le(self, other: Single) -> (r: bool)
        ensures
            r == self.at_most(other),
    {
        proof {
            lemma_order(other, self);
        }
        !self.is_nan() && !other.is_nan() && self.key() <= other.key()
    }

    /// `self == other`.
    pub fn same(self, other: Single) -> (r: bool)
        ensures
            r == self.equal(other),
    {
        proof {
            lemma_order(self, other);
        }
        !self.is_nan() && !other.is_nan() && self.key() == other.key()
    }

    /// The larger of two.
    pub fn max(self, other: Single) -> (r: Single)
        ensures
            r == self.larger(other),
    {
        if self.is_nan() {
            other
        } else if self.lt(other) {
            other
        } else {
            self
        }
    }

    /// The smaller of two.
    pub fn min(self, other: Single) -> (r: Single)
        ensures
            r == self.smaller(other),
    {
        if self.is_nan() {
            other
        } else if other.lt(self) {
            other
        } else {
            self
        }
    }

    /// Keeps the number within `low` and `high`, which must not be the wrong way round.
    pub fn clamp(self, low: Single, high: Single) -> (r: Single)
        requires
            low.at_most(high),
        ensures
            r == self.limited(low, high),
            !self.nan() ==> low.at_most(r) && r.at_most(high),
    {
        if self.lt(low) {
            low
        } else if high.lt(self) {
            high
        } else {
            self
        }
    }

    /// The distance from zero.
    pub fn abs(self) -> (r: Single)
        ensures
            r.magnitude() == self.magnitude(),
            !r.negative(),
            r.val() == if self.val() < 0 {
                -self.val()
            } else {
                self.val()
            },
    {
        proof {
            reveal(Single::val);
        }
        Single { bits: self.magnitude_bits() }
    }

    /// The same number with the other sign.
    pub fn neg(self) -> (r: Single)
        ensures
            r.magnitude() == self.magnitude(),
            r.negative() != self.negative(),
            r.val() == -self.val(),
    {
        proof {
            reveal(Single::val);
        }
        if self.bits >= SIGN_BIT {
            Single { bits: self.bits - SIGN_BIT }
        } else {
            Single { bits: self.bits + SIGN_BIT }
        }
    }

    /// Adds zero: the only thing that changes is minus zero.
    pub fn plus_zero(self) -> (r: Single)
        ensures
            r == self.plain(),
            r.val() == self.val(),
    {
        proof {
            reveal(Single::val);
        }
        if self.magnitude_bits() == 0 {
            Single { bits: 0 }
        } else {
            self
        }
    }

    /// The number of quarters `n`, exactly.
    pub fn quarters(n: i32) -> (r: Single)
        requires
            -0x100_0000 < n < 0x100_0000,
        ensures
            r.is_quarters(n as int),
            r == quarters_of(n as int),
    {
        if n == 0 {
            let zero = Single { bits: 0 };
            proof {
                reveal(Single::val);
                lemma_quarters_unique(zero, 0);
            }
            return zero;
        }
        let m: u32 = if n < 0 {
            (-n) as u32
        } else {
            n as u32
        };
        let mut f: u32 = m;
        let mut e: u32 = 148;
        proof {
            vstd::arithmetic::power2::lemma2_to64();
        }
        while f < 0x80_0000
            invariant
                0 < m < 0x100_0000,
                0 < f < 0x100_0000,
                e <= 148,
                e >= 125,
                f * pow2((e - 1) as nat) == m * pow2(147),
                (f as int) >= pow2((148 - e) as nat),
            decreases e,
        {
            proof {
                lemma_pow2_adds(1, (e - 2) as nat);
                lemma2_one();
                assert(2 * f * pow2((e - 2) as nat) == f * (2 * pow2((e - 2) as nat))) by (nonlinear_arith);
                lemma_pow2_adds(1, (148 - e) as nat);
                if e == 125 {
                    vstd::arithmetic::power2::lemma2_to64();
                    assert(false);
                }
            }
            f = 2 * f;
            e = e - 1;
        }
        let bits: u32 = e * 0x80_0000 + (f - 0x80_0000);
        let magnitude = Single { bits };
        proof {
            reveal(Single::val);
            assert(bits as nat / 0x80_0000 == e);
            assert(bits as nat % 0x80_0000 == f - 0x80_0000);
        }
        if n < 0 {
            let r = magnitude.neg();
            proof {
                assert(-(m * pow2(147)) == (-(m as int)) * pow2(147)) by (nonlinear_arith);
                lemma_quarters_unique(r, n as int);
            }
            r
        } else {
            proof {
                lemma_quarters_unique(magnitude, n as int);
            }
            magnitude
        }
    }

    /// The whole number `n`, exactly.
    pub fn whole(n: i32) -> (r: Single)
        requires
            -0x40_0000 < n < 0x40_0000,
        ensures
            r.is_whole(n as int),
            r == whole_of(n as int),
    {
        Single::quarters(4 * n)
    }
}

/// A whole number stands where it should: in units of 2 to the power of minus 149.
pub proof fn lemma_whole_val(n: int)
    requires
        -0x40_0000 < n < 0x40_0000,
    ensures
        whole_of(n).finite(),
        !whole_of(n).nan(),
        whole_of(n).val() == n * pow2(149),
{
    lemma_quarters_of(4 * n);
    lemma_pow2_adds(2, 147);
    vstd::arithmetic::power2::lemma2_to64();
    assert((4 * n) * pow2(147) == n * (4 * pow2(147))) by (nonlinear_arith);
}

/// Numbers are ordered as their patterns are: without a sign upwards, with a sign downwards, and
/// every one with a sign below every one without, except that both zeros are equal.
pub proof fn law_patterns_order_the_numbers(a: Single, b: Single)
    requires
        !a.nan(),
        !b.nan(),
    ensures
        a.bits < 0x8000_0000 && b.bits < 0x8000_0000 ==> (a.less(b) <==> a.bits < b.bits),
        a.bits >= 0x8000_0000 && b.bits >= 0x8000_0000 ==> (a.less(b) <==> a.bits > b.bits),
        a.bits > 0x8000_0000 && b.bits < 0x8000_0000 ==> a.less(b) && !b.less(a),
        a.bits == 0x8000_0000 && b.bits == 0 ==> a.equal(b) && a.at_most(b) && b.at_most(a),
        a.at_most(b) <==> !b.less(a),
        a.equal(b) <==> a.at_most(b) && b.at_most(a),
{
    lemma_order(a, b);
    lemma_order(b, a);
}

/// Nothing compares with "not a number".
pub proof fn law_nothing_compares_with_nan(a: Single, b: Single)
    requires
        0x7f80_0000 < a.bits < 0x8000_0000 || a.bits > 0xff80_0000,
    ensures
        !a.less(b) && !b.less(a) && !a.at_most(b) && !b.at_most(a) && !a.equal(b) && !b.equal(a),
{
}

/// The larger and the smaller of two numbers are those; beside "not a number" it is the other one.
pub proof fn law_larger_and_smaller(a: Single, b: Single, max: Single, min: Single)
    requires
        call_ensures(Single::max, (a, b), max),
        call_ensures(Single::min, (a, b), min),
    ensures
        a.nan() ==> max == b && min == b,
        b.nan() && !a.nan() ==> max == a && min == a,
        !a.nan() && !b.nan() ==> {
            &&& max == a || max == b
            &&& min == a || min == b
            &&& a.val() <= max.val() && b.val() <= max.val()
            &&& min.val() <= a.val() && min.val() <= b.val()
        },
{
}

/// A number within its bounds is kept as it is, one beyond them is put at the nearer one.
pub proof fn law_limits_are_kept(x: Single, low: Single, high: Single, r: Single)
    requires
        call_ensures(Single::clamp, (x, low, high), r),
        low.at_most(high),
    ensures
        x.nan() ==> r == x,
        !x.nan() && low.val() <= x.val() <= high.val() ==> r == x,
        !x.nan() && x.val() < low.val() ==> r == low,
        !x.nan() && x.val() > high.val() ==> r == high,
{
}

} // verus!
