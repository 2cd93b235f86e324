//! Single-precision numbers as plain values.
//!
//! A [`Scalar`] holds the IEEE 754 bit pattern of a single-precision number. The library
//! carries, compares, selects and clamps such numbers exactly; arithmetic on them is
//! done by whoever owns the floating-point unit and handed in as a result or a closure.

use vstd::prelude::*;
use vstd::arithmetic::power2::{lemma2_to64, lemma_pow2_pos, lemma_pow2_unfold, pow2};

verus! {

/// A single-precision number, by its bit pattern. `==` is identity of the pattern;
/// [`Scalar::le`], [`Scalar::lt`] and [`Scalar::ge`] are the numeric comparisons.
#[derive(Debug, Clone, Copy, PartialEq, Eq, Structural)]
pub struct Scalar {
    pub bits: u32,
}

/// Positive zero.
pub const ZERO: u32 = 0;

/// The bit pattern of one.
pub const ONE: u32 = 0x3f80_0000;

impl Scalar {
    /// The pattern without its sign bit.
    pub open spec fn magnitude(self) -> int {
        if self.bits < 0x8000_0000 {
            self.bits as int
        } else {
            self.bits - 0x8000_0000
        }
    }

    /// Whether the pattern is one of the "not a number" patterns.
    pub open spec fn nan(self) -> bool {
        self.magnitude() > 0x7f80_0000
    }

    /// A whole number that orders the numeric patterns as the numbers they stand for:
    /// magnitudes grow with their pattern, and both zeros have rank 0.
    pub open spec fn rank(self) -> int {
        if self.bits < 0x8000_0000 {
            self.bits as int
        } else {
            0x8000_0000 - self.bits
        }
    }

    /// The number that the pattern stands for, in units of 2^-149, the smallest step there is.
    pub open spec fn units(self) -> int {
        let exponent = self.magnitude() / 0x80_0000;
        let fraction = self.magnitude() % 0x80_0000;
        let size: int = if exponent == 0 {
            fraction
        } else {
            (0x80_0000 + fraction) * pow2((exponent - 1) as nat)
        };
        if self.bits < 0x8000_0000 {
            size
        } else {
            -size
        }
    }

    /// Whether the pattern stands for a number of finite size.
    pub open spec fn finite(self) -> bool {
        self.magnitude() < 0x7f80_0000
    }

    /// How far the next larger size is from this one, in units.
    pub open spec fn spacing(self) -> nat {
        let exponent = self.magnitude() / 0x80_0000;
        pow2(
            if exponent == 0 {
                0
            } else {
                (exponent - 1) as nat
            },
        )
    }

    /// `d` is this number less `other`, in single precision: no finite number is nearer to the
    /// exact difference.
    pub open spec fn less(self, other: Scalar, d: Scalar) -> bool {
        let exact = self.units() - other.units();
        &&& d.finite()
        &&& forall|z: Scalar| #[trigger]
            z.finite() ==> apart(d.units(), exact) <= apart(z.units(), exact)
    }

    /// Numeric `self <= other`.
    pub open spec fn at_most(self, other: Scalar) -> bool {
        !self.nan() && !other.nan() && self.rank() <= other.rank()
    }

    /// Numeric `self < other`.
    pub open spec fn below(self, other: Scalar) -> bool {
        !self.nan() && !other.nan() && self.rank() < other.rank()
    }

    pub fn is_nan(self) -> (r: bool)
        ensures
            r == self.nan(),
    {
        let magnitude: u32 = if self.bits < 0x8000_0000 {
            self.bits
        } else {
            self.bits - 0x8000_0000
        };
        magnitude > 0x7f80_0000
    }

    fn rank_of(self) -> (r: i64)
        ensures
            r == self.rank(),
    {
        if self.bits < 0x8000_0000 {
            self.bits as i64
        } else {
            0x8000_0000i64 - self.bits as i64
        }
    }

    /// `self <= other` as numbers; false if either is not a number.
    pub fn le(self, other: Scalar) -> (r: bool)
        ensures
            r == self.at_most(other),
    {
        !self.is_nan() && !other.is_nan() && self.rank_of() <= other.rank_of()
    }

    /// `self < other` as numbers; false if either is not a number.
    pub fn lt(self, other: Scalar) -> (r: bool)
        ensures
            r == self.below(other),
    {
        !self.is_nan() && !other.is_nan() && self.rank_of() < other.rank_of()
    }

    /// `self >= other` as numbers; false if either is not a number.
    pub fn ge(self, other: Scalar) -> (r: bool)
        ensures
            r == other.at_most(self),
    {
        other.le(self)
    }

    /// What clamping `self` into `lo..=hi` gives: the nearer bound outside the range,
    /// `self` inside it, and `self` if it is not a number.
    pub open spec fn clamped(self, lo: Scalar, hi: Scalar) -> Scalar {
        if self.below(lo) {
            lo
        } else if hi.below(self) {
            hi
        } else {
            self
        }
    }

    pub fn clamp(self, lo: Scalar, hi: Scalar) -> (r: Scalar)
        ensures
            r == self.clamped(lo, hi),
    {
        if self.lt(lo) {
            lo
        } else if hi.lt(self) {
            hi
        } else {
            self
        }
    }

    /// The larger of the two; the other one if either is not a number.
    pub open spec fn floored(self, floor: Scalar) -> Scalar {
        if self.nan() || self.below(floor) {
            floor
        } else {
            self
        }
    }

    pub fn max(self, floor: Scalar) -> (r: Scalar)
        ensures
            r == self.floored(floor),
    {
        if self.is_nan() || self.lt(floor) {
            floor
        } else {
            self
        }
    }

    /// The smaller of the two; the other one if either is not a number.
    pub open spec fn capped(self, cap: Scalar) -> Scalar {
        if self.nan() || cap.below(self) {
            cap
        } else {
            self
        }
    }

    pub fn min(self, cap: Scalar) -> (r: Scalar)
        ensures
            r == self.capped(cap),
    {
        if self.is_nan() || cap.lt(self) {
            cap
        } else {
            self
        }
    }
}

/// Zero.
pub fn zero() -> (r: Scalar)
    ensures
        r == (Scalar { bits: ZERO }),
{
    Scalar { bits: ZERO }
}

/// One.
pub fn one() -> (r: Scalar)
    ensures
        r == (Scalar { bits: ONE }),
{
    Scalar { bits: ONE }
}

/// The distance of two whole numbers.
pub open spec fn apart(a: int, b: int) -> int {
    if a < b {
        b - a
    } else {
        a - b
    }
}

proof fn next_size(n: u32)
    requires
        n < 0x7f7f_ffff,
    ensures
        (Scalar { bits: (n + 1) as u32 }).units() == (Scalar { bits: n }).units() + (Scalar {
            bits: n,
        }).spacing(),
        (Scalar { bits: n }).spacing() <= (Scalar { bits: (n + 1) as u32 }).spacing(),
        (Scalar { bits: n }).spacing() > 0,
{
    let next = (n + 1) as u32;
    let (e, f) = (n as int / 0x80_0000, n as int % 0x80_0000);
    let (e2, f2) = (next as int / 0x80_0000, next as int % 0x80_0000);
    let k = if e == 0 {
        0
    } else {
        (e - 1) as nat
    };
    lemma_pow2_pos(k);
    lemma2_to64();
    let p = pow2(k) as int;
    if f + 1 < 0x80_0000 {
        assert(e2 == e && f2 == f + 1);
        if e > 0 {
            assert((0x80_0000 + f2) * p == (0x80_0000 + f) * p + p) by (nonlinear_arith)
                requires
                    f2 == f + 1,
            ;
        }
    } else {
        assert(e2 == e + 1 && f2 == 0);
        if e > 0 {
            lemma_pow2_unfold(e as nat);
            assert((0x80_0000 + f2) * (2 * p) == (0x80_0000 + f) * p + p) by (nonlinear_arith)
                requires
                    f2 == 0,
                    f == 0x80_0000 - 1,
            ;
        }
    }
}

/// Larger patterns stand for larger numbers, which lie no closer together.
pub proof fn sizes_grow(m: u32, n: u32)
    requires
        m <= n < 0x7f80_0000,
    ensures
        (Scalar { bits: m }).units() <= (Scalar { bits: n }).units(),
        m < n ==> (Scalar { bits: m }).units() < (Scalar { bits: n }).units(),
        (Scalar { bits: m }).spacing() <= (Scalar { bits: n }).spacing(),
    decreases n - m,
{
    if m < n {
        next_size(m);
        sizes_grow((m + 1) as u32, n);
    }
}

/// Below a number, there is one within half its spacing of every whole number of units.
proof fn some_number_is_near(n: u32, target: int) -> (z: Scalar)
    requires
        n < 0x7f80_0000,
        0 <= target < (Scalar { bits: n }).units(),
    ensures
        z.finite(),
        2 * apart(z.units(), target) <= (Scalar { bits: n }).spacing(),
    decreases n,
{
    let m = (n - 1) as u32;
    next_size(m);
    let (low, high) = (Scalar { bits: m }, Scalar { bits: n });
    if low.units() > target {
        some_number_is_near(m, target)
    } else if target - low.units() <= high.units() - target {
        low
    } else {
        high
    }
}

/// Taking away a number no smaller than the spacing takes away at least half of it, or leaves
/// nothing.
pub proof fn subtraction_takes_away(a: Scalar, b: Scalar, d: Scalar)
    requires
        (Scalar { bits: 0 }).below(a),
        a.finite(),
        a.spacing() <= b.units(),
        a.less(b, d),
    ensures
        !d.nan(),
        d.units() <= 0 || 2 * d.units() + b.units() <= 2 * a.units(),
{
    let exact = a.units() - b.units();
    if exact < 0 {
        let z = Scalar { bits: 0 };
        assert(z.finite() && z.units() == 0);
    } else {
        sizes_grow(0, a.bits);
        lemma_pow2_pos(
            if a.magnitude() / 0x80_0000 == 0 {
                0
            } else {
                (a.magnitude() / 0x80_0000 - 1) as nat
            },
        );
        let z = some_number_is_near(a.bits, exact);
        assert(apart(d.units(), exact) <= apart(z.units(), exact));
    }
}

/// A number is above zero exactly if it has more than no units.
pub proof fn units_tell_sign(x: Scalar)
    requires
        !x.nan(),
    ensures
        (Scalar { bits: 0 }).below(x) <==> x.units() > 0,
{
    let exponent = x.magnitude() / 0x80_0000;
    let fraction = x.magnitude() % 0x80_0000;
    if exponent > 0 {
        lemma_pow2_pos((exponent - 1) as nat);
        let p = pow2((exponent - 1) as nat) as int;
        assert((0x80_0000 + fraction) * p > 0) by (nonlinear_arith)
            requires
                fraction >= 0,
                p > 0,
        ;
    }
}

/// Clamping leaves a number inside the bounds it was clamped to.
pub proof fn clamp_lands_in_range(x: Scalar, lo: Scalar, hi: Scalar)
    requires
        lo.at_most(hi),
        !x.nan(),
    ensures
        lo.at_most(x.clamped(lo, hi)),
        x.clamped(lo, hi).at_most(hi),
{
}

/// Ten to the power of `places`.
pub open spec fn tens(places: nat) -> nat
    decreases places,
{
    if places == 0 {
        1
    } else {
        10 * tens((places - 1) as nat)
    }
}

/// How often `den` has to be doubled until `num` is less than 2^24 times it.
pub open spec fn doublings(num: nat, den: nat) -> nat
    decreases num - den,
{
    if den == 0 || num < 0x100_0000 * den {
        0
    } else {
        1 + doublings(num, 2 * den)
    }
}

/// The whole number nearest to `num / den`, the even one of two equally near.
pub open spec fn nearest_even(num: nat, den: nat) -> nat {
    let q = num / den;
    let r = num % den;
    if 2 * r > den || (2 * r == den && q % 2 == 1) {
        q + 1
    } else {
        q
    }
}

/// The pattern of the single-precision number nearest to `mag / 10^places`, for a
/// positive `mag`: its 24-bit significand is the quotient rounded to even in the binade
/// the number lies in.
pub open spec fn positive_pattern(mag: nat, places: nat) -> nat {
    let num = mag * 0x1000_0000_0000_0000;
    let den = tens(places);
    let e = doublings(num, den);
    ((89 + e) * 0x80_0000 + nearest_even(num, den * pow2(e))) as nat
}

/// The single-precision number nearest to the decimal fraction `n / 10^places`.
pub open spec fn decimal(n: int, places: nat) -> Scalar {
    if n == 0 {
        Scalar { bits: 0 }
    } else if n > 0 {
        Scalar { bits: positive_pattern(n as nat, places) as u32 }
    } else {
        Scalar { bits: (0x8000_0000 + positive_pattern((-n) as nat, places)) as u32 }
    }
}

proof fn tens_bound(places: nat)
    requires
        places <= 9,
    ensures
        1 <= tens(places) <= 1_000_000_000,
{
    reveal_with_fuel(tens, 11);
}

fn ten_to(places: u8) -> (r: u128)
    requires
        places <= 9,
    ensures
        r == tens(places as nat),
{
    let mut r: u128 = 1;
    let mut i: u8 = 0;
    while i < places
        invariant
            i <= places <= 9,
            r == tens(i as nat),
        decreases places - i,
    {
        proof {
            tens_bound(i as nat);
        }
        r = r * 10;
        i = i + 1;
        assert(tens(i as nat) == 10 * tens((i - 1) as nat));
    }
    r
}

/// The number written `n / 10^places` in decimal, rounded to single precision.
pub fn dec(n: i32, places: u8) -> (r: Scalar)
    requires
        places <= 9,
    ensures
        r == decimal(n as int, places as nat),
{
    if n == 0 {
        return Scalar { bits: 0 };
    }
    let mag: u128 = if n > 0 {
        n as u128
    } else {
        (-(n as i64)) as u128
    };
    let den: u128 = ten_to(places);
    proof {
        tens_bound(places as nat);
        assert(mag * 0x1000_0000_0000_0000 <= 0x8000_0000 * 0x1000_0000_0000_0000)
            by (nonlinear_arith)
            requires
                mag <= 0x8000_0000;
        assert(mag * 0x1000_0000_0000_0000 >= 0x1000_0000_0000_0000) by (nonlinear_arith)
            requires
                mag >= 1;
    }
    let num: u128 = mag * 0x1000_0000_0000_0000;
    let mut d: u128 = den;
    let mut e: u32 = 0;
    proof {
        assert(pow2(0) == 1) by {
            vstd::arithmetic::power2::lemma2_to64();
        }
    }
    while num >= 0x100_0000 * d
        invariant
            0 < d,
            num <= 0x8000_0000 * 0x1000_0000_0000_0000,
            num >= 0x80_0000 * d,
            den == tens(places as nat),
            d == den * pow2(e as nat),
            doublings(num as nat, den as nat) == e + doublings(num as nat, d as nat),
            d >= pow2(e as nat),
            e <= 100,
            pow2(e as nat) <= num,
            0x100_0000 * d <= u128::MAX,
        decreases num - d,
    {
        proof {
            lemma_pow2_unfold((e + 1) as nat);
            assert(den * (2 * pow2(e as nat)) == 2 * (den * pow2(e as nat))) by (nonlinear_arith);
            assert(2 * d <= num);
            assert(pow2((e + 1) as nat) <= num);
            if e >= 100 {
                vstd::arithmetic::power2::lemma_pow2_strictly_increases(91, 100);
                pow2_91();
            }
        }
        d = d * 2;
        e = e + 1;
    }
    let floor: u128 = num / d;
    let rest: u128 = num % d;
    proof {
        assert(0x80_0000 <= floor < 0x100_0000) by (nonlinear_arith)
            requires
                floor == num / d,
                0 < d,
                0x80_0000 * d <= num,
                num < 0x100_0000 * d,
        ;
    }
    let q: u128 = if 2 * rest > d || (2 * rest == d && floor % 2 == 1) {
        floor + 1
    } else {
        floor
    };
    let pattern: u32 = (89 + e) * 0x80_0000 + q as u32;
    if n > 0 {
        Scalar { bits: pattern }
    } else {
        Scalar { bits: 0x8000_0000 + pattern }
    }
}

proof fn doublings_suffice(num: nat, den: nat)
    requires
        0 < den,
        0x80_0000 * den <= num,
    ensures
        num < 0x100_0000 * (den * pow2(doublings(num, den))),
        0x80_0000 * (den * pow2(doublings(num, den))) <= num,
    decreases num - den,
{
    let e = doublings(num, den);
    if num < 0x100_0000 * den {
        vstd::arithmetic::power2::lemma2_to64();
        assert(den * 1 == den);
    } else {
        doublings_suffice(num, 2 * den);
        lemma_pow2_unfold(e);
        assert((2 * den) * pow2((e - 1) as nat) == den * pow2(e)) by (nonlinear_arith)
            requires
                pow2(e) == 2 * pow2((e - 1) as nat),
        ;
    }
}

proof fn nearest_even_is_near(num: nat, den: nat)
    requires
        0 < den,
    ensures
        2 * (num - nearest_even(num, den) * den) <= den,
        2 * (nearest_even(num, den) * den - num) <= den,
        num / den <= nearest_even(num, den) <= num / den + 1,
{
    let q = num / den;
    let r = num % den;
    assert(num == q * den + r && 0 <= r < den) by (nonlinear_arith)
        requires
            q == num / den,
            r == num % den,
            0 < den,
    ;
    assert((q + 1) * den == q * den + den) by (nonlinear_arith);
}

/// How a positive decimal fraction is written in single precision: scaled into the binade
/// it lies in, it is rounded to a whole 24-bit significand, which is off by at most half
/// a unit.
pub proof fn decimal_is_nearest(mag: nat, places: nat)
    requires
        0 < mag <= 0x8000_0000,
        places <= 9,
    ensures
        ({
            let num = mag * 0x1000_0000_0000_0000;
            let e = doublings(num, tens(places));
            let unit = tens(places) * pow2(e);
            let significand = nearest_even(num, unit);
            &&& e <= 68
            &&& 0x80_0000 <= significand <= 0x100_0000
            &&& 2 * (num - significand * unit) <= unit
            &&& 2 * (significand * unit - num) <= unit
            &&& positive_pattern(mag, places) == (89 + e) * 0x80_0000 + significand
            &&& positive_pattern(mag, places) < 0x7f80_0000
        }),
{
    let num = mag * 0x1000_0000_0000_0000;
    let den = tens(places);
    let e = doublings(num, den);
    let unit = den * pow2(e);
    tens_bound(places);
    assert(0x1000_0000_0000_0000 <= num <= 0x8000_0000int * 0x1000_0000_0000_0000);
    doublings_suffice(num, den);
    lemma_pow2_pos(e);
    assert(unit >= pow2(e)) by (nonlinear_arith)
        requires
            unit == den * pow2(e),
            den >= 1,
            pow2(e) > 0,
    ;
    if e > 68 {
        vstd::arithmetic::power2::lemma_pow2_strictly_increases(68, e);
        vstd::arithmetic::power2::lemma2_to64();
        vstd::arithmetic::power2::lemma_pow2_adds(34, 34);
        vstd::arithmetic::power2::lemma_pow2_adds(17, 17);
        assert(pow2(34) == 0x2_0000 * 0x2_0000);
        assert(pow2(68) == 0x4_0000_0000int * 0x4_0000_0000);
        assert(0x80_0000 * pow2(e) <= num);
    }
    nearest_even_is_near(num, unit);
    assert(0x80_0000 <= num / unit < 0x100_0000) by (nonlinear_arith)
        requires
            unit > 0,
            0x80_0000 * unit <= num,
            num < 0x100_0000 * unit,
    ;
}

/// A decimal fraction is a number.
pub proof fn decimal_is_number(n: int, places: nat)
    requires
        -0x8000_0000 <= n <= 0x8000_0000,
        places <= 9,
    ensures
        !decimal(n, places).nan(),
{
    if n > 0 {
        decimal_is_nearest(n as nat, places);
    }
    if n < 0 {
        decimal_is_nearest((-n) as nat, places);
    }
}

proof fn pow2_91()
    ensures
        pow2(91) == 0x8000_0000int * 0x1000_0000_0000_0000,
{
    vstd::arithmetic::power2::lemma2_to64();
    vstd::arithmetic::power2::lemma_pow2_adds(31, 30);
    vstd::arithmetic::power2::lemma_pow2_adds(61, 30);
    assert(pow2(61) == 0x8000_0000 * 0x4000_0000);
}

/// Finite numbers compare as what they stand for.
pub proof fn numbers_compare_by_what_they_are(a: Scalar, b: Scalar, less: bool, no_more: bool)
    requires
        a.finite(),
        b.finite(),
        call_ensures(Scalar::lt, (a, b), less),
        call_ensures(Scalar::le, (a, b), no_more),
    ensures
        less <==> a.units() < b.units(),
        no_more <==> a.units() <= b.units(),
{
    let (m, n) = (a.magnitude() as u32, b.magnitude() as u32);
    let (x, y) = (Scalar { bits: m }, Scalar { bits: n });
    sizes_grow(0, m);
    sizes_grow(0, n);
    if m <= n {
        sizes_grow(m, n);
    } else {
        sizes_grow(n, m);
    }
    assert(a.units() == x.units() || a.units() == -x.units());
    assert(b.units() == y.units() || b.units() == -y.units());
    assert((Scalar { bits: 0 }).units() == 0);
}

/// What is not a number compares with nothing.
pub proof fn nothing_compares_with_no_number(a: Scalar, b: Scalar, less: bool, no_more: bool)
    requires
        a.nan() || b.nan(),
        call_ensures(Scalar::lt, (a, b), less),
        call_ensures(Scalar::le, (a, b), no_more),
    ensures
        !less,
        !no_more,
{
}

/// Clamping leaves what is in the range alone and otherwise gives the nearer end of it.
pub proof fn clamping_moves_as_little_as_it_can(x: Scalar, lo: Scalar, hi: Scalar, r: Scalar)
    requires
        lo.at_most(hi),
        call_ensures(Scalar::clamp, (x, lo, hi), r),
    ensures
        lo.at_most(x) && x.at_most(hi) ==> r == x,
        x.below(lo) ==> r == lo,
        hi.below(x) ==> r == hi,
        x.nan() ==> r == x,
{
}

/// The larger and the smaller of two are each one of the two, neither below nor above the other, and
/// what is not a number gives way.
pub proof fn extremes_are_one_of_the_two(a: Scalar, b: Scalar, high: Scalar, low: Scalar)
    requires
        call_ensures(Scalar::max, (a, b), high),
        call_ensures(Scalar::min, (a, b), low),
    ensures
        high == a || high == b,
        low == a || low == b,
        !a.nan() && !b.nan() ==> a.at_most(high) && b.at_most(high) && low.at_most(a) && low.at_most(
            b,
        ),
        a.nan() ==> high == b && low == b,
        b.nan() && !a.nan() ==> high == a && low == a,
{
}

/// A pattern is no number exactly if, its sign aside, it lies above that of infinity.
pub proof fn patterns_above_infinity_are_no_numbers(x: Scalar, r: bool)
    requires
        call_ensures(Scalar::is_nan, (x,), r),
    ensures
        r <==> x.bits % 0x8000_0000 > 0x7f80_0000,
{
}

} // verus!
