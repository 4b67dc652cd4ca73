//! `Fixed`: the concrete scalar of this crate.
//!
//! A `Fixed` is a signed decimal fixed-point number with six fractional
//! digits, stored as a count of millionths in an `i64`, together with a
//! not-a-number flag.  Arithmetic is exact where the result is
//! representable; results beyond the representable range saturate at the
//! two sentinels, quotients and products truncate toward zero at the
//! sixth fractional digit, and every operation on a NaN operand yields
//! NaN again.  The type satisfies every obligation of [`Scalar`], so all
//! geometry in this crate is verified for it.

use vstd::prelude::*;
use crate::scalar::Scalar;

verus! {

/// Number of raw units per one: six decimal fractional digits.
pub const SCALE: i64 = 1_000_000;

/// Largest raw magnitude a numeric `Fixed` may carry.
pub const MAX_RAW: i64 = 9_223_372_036_854_775_807;

/// Smallest raw value a numeric `Fixed` may carry; the range is symmetric
/// so that negation is exact.
pub const MIN_RAW: i64 = -9_223_372_036_854_775_807;

/// The circle constant and its relatives, in raw units.
pub const PI_RAW: i64 = 3_141_593;

/// Two pi in raw units.
pub const TWO_PI_RAW: i64 = 6_283_185;

/// Half pi in raw units.
pub const HALF_PI_RAW: i64 = 1_570_796;

/// Negated pi in raw units.
pub const NEG_PI_RAW: i64 = -3_141_593;

/// Negated half pi in raw units.
pub const NEG_HALF_PI_RAW: i64 = -1_570_796;

/// One half in raw units, used to round during range reduction.
pub const HALF_RAW: i64 = 500_000;

/// Sine polynomial coefficient for the cubic term, `1/6` in raw units.
pub const SIN_C3: i64 = 166_667;

/// Sine polynomial coefficient for the quintic term, `1/120` in raw units.
pub const SIN_C5: i64 = 8_333;

/// Sine polynomial coefficient for the degree-seven term, `1/5040` in raw units.
pub const SIN_C7: i64 = 198;

/// One hundred eighty degrees in raw units.
pub const DEG_HALF_TURN: i64 = 180_000_000;

/// Signed decimal fixed point with six fractional digits and a NaN flag.
#[derive(Clone, Copy, PartialEq, Eq, Structural, Debug)]
pub struct Fixed {
    /// Count of millionths.
    pub raw: i64,
    /// Set on the canonical not-a-number value, which carries `raw == 0`.
    pub nan: bool,
}

/// The canonical not-a-number value.
pub open spec fn nan_fixed() -> Fixed {
    Fixed { raw: 0, nan: true }
}

/// A numeric value out of a raw count of millionths.
pub open spec fn fx(raw: i64) -> Fixed {
    Fixed { raw, nan: false }
}

/// Whether a mathematical integer is representable as a raw count.
pub open spec fn fits(x: int) -> bool {
    -(MAX_RAW as int) <= x <= MAX_RAW as int
}

/// Saturate a mathematical integer into the representable raw range.
pub open spec fn clamp(x: int) -> Fixed {
    if x > MAX_RAW as int {
        fx(MAX_RAW)
    } else if x < -(MAX_RAW as int) {
        fx(MIN_RAW)
    } else {
        fx(x as i64)
    }
}

/// Absolute value of a mathematical integer.
pub open spec fn iabs(x: int) -> int {
    if x >= 0 {
        x
    } else {
        -x
    }
}

/// Quotient of `x` over `d`, truncated toward zero; `d` must not be zero.
pub open spec fn tdiv(x: int, d: int) -> int {
    if (0 <= x) == (0 < d) {
        iabs(x) / iabs(d)
    } else {
        -(iabs(x) / iabs(d))
    }
}

/// The integer square root: the unique `r >= 0` with
/// `r * r <= n < (r + 1) * (r + 1)`.
pub closed spec fn isqrt(n: int) -> int {
    choose|r: int| 0 <= r && #[trigger] (r * r) <= n && n < (r + 1) * (r + 1)
}

/// Pins `isqrt(n)` down once a witness with the defining property is shown.
pub proof fn lemma_isqrt_is(n: int, r: int)
    requires
        0 <= r,
        r * r <= n,
        n < (r + 1) * (r + 1),
    ensures
        isqrt(n) == r,
{
    assert(0 <= r && r * r <= n && n < (r + 1) * (r + 1));
    let q = isqrt(n);
    assert(0 <= q && q * q <= n && n < (q + 1) * (q + 1));
    if q < r {
        assert((q + 1) * (q + 1) <= r * r) by (nonlinear_arith)
            requires
                0 <= q + 1,
                q + 1 <= r,
        ;
    }
    if r < q {
        assert((r + 1) * (r + 1) <= q * q) by (nonlinear_arith)
            requires
                0 <= r + 1,
                r + 1 <= q,
        ;
    }
}

impl Fixed {
    /// A numeric value out of a raw count of millionths; the one raw count
    /// no number carries is pulled up to the lower sentinel.
    pub fn from_micros(raw: i64) -> (r: Fixed)
        ensures
            r == clamp(raw as int),
    {
        if raw < MIN_RAW {
            Fixed { raw: MIN_RAW, nan: false }
        } else {
            Fixed { raw, nan: false }
        }
    }

    /// A whole number, saturated into the representable range.
    pub fn from_int(i: i64) -> (r: Fixed)
        ensures
            r == clamp(i as int * SCALE as int),
    {
        let p: i128 = wide_mul(i, SCALE);
        Fixed { raw: clamp_to_raw(p), nan: false }
    }

    /// The canonical not-a-number value.
    pub fn nan() -> (r: Fixed)
        ensures
            r == nan_fixed(),
    {
        Fixed { raw: 0, nan: true }
    }

    /// The raw count of millionths behind this value.
    pub fn to_micros(self) -> (r: i64)
        ensures
            r == self.raw,
    {
        self.raw
    }
}

/// Product of two raw counts, carried out in the wide type.
fn wide_mul(a: i64, b: i64) -> (p: i128)
    ensures
        p as int == a as int * b as int,
        -0x40000000000000000000000000000000 <= p as int <= 0x40000000000000000000000000000000,
{
    proof {
        assert(-0x40000000000000000000000000000000 <= a as int * b as int
            <= 0x40000000000000000000000000000000) by (nonlinear_arith)
            requires
                -0x8000000000000000 <= a as int <= 0x7fffffffffffffff,
                -0x8000000000000000 <= b as int <= 0x7fffffffffffffff,
        ;
    }
    (a as i128) * (b as i128)
}

/// Saturate an `i128` into the representable raw range.
fn clamp_to_raw(x: i128) -> (r: i64)
    ensures
        fx(r) == clamp(x as int),
        r >= MIN_RAW,
{
    if x > MAX_RAW as i128 {
        MAX_RAW
    } else if x < MIN_RAW as i128 {
        MIN_RAW
    } else {
        x as i64
    }
}

/// Truncating signed division on magnitudes that stay clear of the
/// extreme `i128` value.
fn tdiv_exec(x: i128, d: i128) -> (r: i128)
    requires
        d != 0,
        x > -0x7fffffffffffffffffffffffffffffff - 1,
        d > -0x7fffffffffffffffffffffffffffffff - 1,
    ensures
        r as int == tdiv(x as int, d as int),
{
    let xm: u128 = if x >= 0 {
        x as u128
    } else {
        (-x) as u128
    };
    let dm: u128 = if d >= 0 {
        d as u128
    } else {
        (-d) as u128
    };
    let qm: u128 = xm / dm;
    proof {
        assert(xm as int == iabs(x as int));
        assert(dm as int == iabs(d as int));
        assert(qm <= xm) by (nonlinear_arith)
            requires
                dm >= 1,
                qm == xm / dm,
        ;
    }
    if (x >= 0) == (d >= 0) {
        qm as i128
    } else {
        -(qm as i128)
    }
}

/// Floor of the quotient `x / d` for positive `d`, computed on magnitudes.
fn fdiv_exec(x: i128, d: i128) -> (r: i128)
    requires
        0 < d,
        x > -0x7fffffffffffffffffffffffffffffff - 1,
    ensures
        r as int == x as int / d as int,
{
    if x >= 0 {
        let q = ((x as u128) / (d as u128)) as i128;
        proof {
            assert((x as u128) / (d as u128) <= x as u128) by (nonlinear_arith)
                requires
                    d as u128 >= 1,
            ;
        }
        q
    } else {
        let xm: u128 = (-x) as u128;
        let du: u128 = d as u128;
        let q: u128 = (xm + du - 1) / du;
        proof {
            assert(q <= xm) by (nonlinear_arith)
                requires
                    du >= 1,
                    xm >= 1,
                    q as int == (xm as int + du as int - 1) / (du as int),
            ;
            assert(-(q as int) == x as int / d as int) by (nonlinear_arith)
                requires
                    xm as int == -(x as int),
                    du as int == d as int,
                    du >= 1,
                    xm >= 1,
                    q as int == (xm as int + du as int - 1) / (du as int),
            ;
        }
        -(q as i128)
    }
}

/// Binary search for the integer square root.
fn isqrt_exec(n: u128) -> (r: u128)
    requires
        n < 0x1000000000000000000000,
    ensures
        r * r <= n,
        n < (r + 1) * (r + 1),
{
    let mut lo: u128 = 0;
    let mut hi: u128 = 0x40000000000;
    proof {
        assert((0x40000000000u128 as int) * (0x40000000000u128 as int) == 0x1000000000000000000000);
    }
    while lo + 1 < hi
        invariant
            lo < hi,
            hi <= 0x40000000000u128,
            lo * lo <= n,
            n < hi * hi,
        decreases hi - lo,
    {
        let mid = lo + (hi - lo) / 2;
        proof {
            assert(mid as int * mid as int <= 0x1000000000000000000000) by (nonlinear_arith)
                requires
                    0 <= mid as int,
                    mid as int <= 0x40000000000,
            ;
        }
        if mid * mid <= n {
            lo = mid;
        } else {
            hi = mid;
        }
    }
    lo
}

impl Scalar for Fixed {
    open spec fn spec_add(self, o: Self) -> Self {
        if self.spec_is_nan() || o.spec_is_nan() {
            nan_fixed()
        } else {
            clamp(self.raw as int + o.raw as int)
        }
    }

    open spec fn spec_sub(self, o: Self) -> Self {
        if self.spec_is_nan() || o.spec_is_nan() {
            nan_fixed()
        } else {
            clamp(self.raw as int - o.raw as int)
        }
    }

    open spec fn spec_mul(self, o: Self) -> Self {
        if self.spec_is_nan() || o.spec_is_nan() {
            nan_fixed()
        } else {
            clamp(tdiv(self.raw as int * o.raw as int, SCALE as int))
        }
    }

    open spec fn spec_div(self, o: Self) -> Self {
        if self.spec_is_nan() || o.spec_is_nan() || o.raw == 0 {
            nan_fixed()
        } else {
            clamp(tdiv(self.raw as int * SCALE as int, o.raw as int))
        }
    }

    open spec fn spec_neg(self) -> Self {
        if self.spec_is_nan() {
            nan_fixed()
        } else {
            fx((-(self.raw as int)) as i64)
        }
    }

    open spec fn spec_recip(self) -> Self {
        if self.spec_is_nan() || self.raw == 0 {
            nan_fixed()
        } else {
            clamp(tdiv(SCALE as int * SCALE as int, self.raw as int))
        }
    }

    open spec fn spec_abs(self) -> Self {
        if self.spec_is_nan() {
            nan_fixed()
        } else {
            fx(iabs(self.raw as int) as i64)
        }
    }

    open spec fn spec_sqrt(self) -> Self {
        if self.spec_is_nan() || self.raw < 0 {
            nan_fixed()
        } else {
            fx(isqrt(self.raw as int * SCALE as int) as i64)
        }
    }

    open spec fn spec_floor(self) -> Self {
        if self.spec_is_nan() {
            nan_fixed()
        } else {
            clamp((self.raw as int / SCALE as int) * SCALE as int)
        }
    }

    open spec fn spec_ceil(self) -> Self {
        if self.spec_is_nan() {
            nan_fixed()
        } else {
            clamp(-((-(self.raw as int) / SCALE as int) * SCALE as int))
        }
    }

    open spec fn spec_sin(self) -> Self {
        let q = self.spec_div(fx(TWO_PI_RAW));
        let k = q.spec_add(fx(HALF_RAW)).spec_floor();
        let y = self.spec_sub(k.spec_mul(fx(TWO_PI_RAW)));
        let folded = if fx(HALF_PI_RAW).spec_lt(y) {
            fx(PI_RAW).spec_sub(y)
        } else if y.spec_lt(fx(NEG_HALF_PI_RAW)) {
            fx(NEG_PI_RAW).spec_sub(y)
        } else {
            y
        };
        sin_poly(folded)
    }

    open spec fn spec_cos(self) -> Self {
        self.spec_add(fx(HALF_PI_RAW)).spec_sin()
    }

    open spec fn spec_to_radians(self) -> Self {
        self.spec_mul(fx(PI_RAW)).spec_div(fx(DEG_HALF_TURN))
    }

    open spec fn spec_is_nan(self) -> bool {
        self.nan || (self.raw as int) < MIN_RAW as int
    }

    open spec fn spec_lt(self, o: Self) -> bool {
        !self.spec_is_nan() && !o.spec_is_nan() && self.raw < o.raw
    }

    open spec fn spec_zero() -> Self {
        fx(0)
    }

    open spec fn spec_one() -> Self {
        fx(SCALE)
    }

    open spec fn spec_min_value() -> Self {
        fx(MIN_RAW)
    }

    open spec fn spec_max_value() -> Self {
        fx(MAX_RAW)
    }

    open spec fn spec_sub_exact(a: Self, b: Self) -> bool {
        !a.spec_is_nan() && !b.spec_is_nan() && fits(a.raw as int - b.raw as int)
    }

    fn add(self, o: Self) -> (r: Self) {
        if self.is_nan() || o.is_nan() {
            Fixed { raw: 0, nan: true }
        } else {
            let s: i128 = self.raw as i128 + o.raw as i128;
            Fixed { raw: clamp_to_raw(s), nan: false }
        }
    }

    fn sub(self, o: Self) -> (r: Self) {
        if self.is_nan() || o.is_nan() {
            Fixed { raw: 0, nan: true }
        } else {
            let s: i128 = self.raw as i128 - o.raw as i128;
            Fixed { raw: clamp_to_raw(s), nan: false }
        }
    }

    fn mul(self, o: Self) -> (r: Self) {
        if self.is_nan() || o.is_nan() {
            Fixed { raw: 0, nan: true }
        } else {
            let p: i128 = wide_mul(self.raw, o.raw);
            let q = tdiv_exec(p, SCALE as i128);
            Fixed { raw: clamp_to_raw(q), nan: false }
        }
    }

    fn div(self, o: Self) -> (r: Self) {
        if self.is_nan() || o.is_nan() || o.raw == 0 {
            Fixed { raw: 0, nan: true }
        } else {
            let p: i128 = wide_mul(self.raw, SCALE);
            let q = tdiv_exec(p, o.raw as i128);
            Fixed { raw: clamp_to_raw(q), nan: false }
        }
    }

    fn neg(self) -> (r: Self) {
        if self.is_nan() {
            Fixed { raw: 0, nan: true }
        } else {
            Fixed { raw: -self.raw, nan: false }
        }
    }

    fn recip(self) -> (r: Self) {
        if self.is_nan() || self.raw == 0 {
            Fixed { raw: 0, nan: true }
        } else {
            let p: i128 = wide_mul(SCALE, SCALE);
            let q = tdiv_exec(p, self.raw as i128);
            Fixed { raw: clamp_to_raw(q), nan: false }
        }
    }

    fn abs(self) -> (r: Self) {
        if self.is_nan() {
            Fixed { raw: 0, nan: true }
        } else if self.raw < 0 {
            Fixed { raw: -self.raw, nan: false }
        } else {
            Fixed { raw: self.raw, nan: false }
        }
    }

    fn sqrt(self) -> (r: Self) {
        if self.is_nan() || self.raw < 0 {
            Fixed { raw: 0, nan: true }
        } else {
            let n: u128 = (self.raw as u128) * (SCALE as u128);
            proof {
                assert(n < 0x1000000000000000000000) by (nonlinear_arith)
                    requires
                        n == (self.raw as u128 as int) * (SCALE as u128 as int),
                        0 <= self.raw as u128 as int <= MAX_RAW as int,
                        SCALE as u128 as int == SCALE as int,
                ;
            }
            let s = isqrt_exec(n);
            proof {
                assert(s < 0x40000000000u128) by (nonlinear_arith)
                    requires
                        s * s <= n,
                        n < 0x1000000000000000000000,
                ;
                lemma_isqrt_is(n as int, s as int);
            }
            Fixed { raw: s as i64, nan: false }
        }
    }

    fn floor(self) -> (r: Self) {
        if self.is_nan() {
            Fixed { raw: 0, nan: true }
        } else {
            let q = fdiv_exec(self.raw as i128, SCALE as i128);
            let m = q * (SCALE as i128);
            Fixed { raw: clamp_to_raw(m), nan: false }
        }
    }

    fn ceil(self) -> (r: Self) {
        if self.is_nan() {
            Fixed { raw: 0, nan: true }
        } else {
            let q = fdiv_exec(-(self.raw as i128), SCALE as i128);
            let m = -(q * (SCALE as i128));
            Fixed { raw: clamp_to_raw(m), nan: false }
        }
    }

    fn sin(self) -> (r: Self) {
        let q = self.div(Fixed { raw: TWO_PI_RAW, nan: false });
        let k = q.add(Fixed { raw: HALF_RAW, nan: false }).floor();
        let y = self.sub(k.mul(Fixed { raw: TWO_PI_RAW, nan: false }));
        let folded = if (Fixed { raw: HALF_PI_RAW, nan: false }).lt(y) {
            (Fixed { raw: PI_RAW, nan: false }).sub(y)
        } else if y.lt(Fixed { raw: NEG_HALF_PI_RAW, nan: false }) {
            (Fixed { raw: NEG_PI_RAW, nan: false }).sub(y)
        } else {
            y
        };
        let y2 = folded.mul(folded);
        let y3 = y2.mul(folded);
        let y5 = y3.mul(y2);
        let y7 = y5.mul(y2);
        folded.sub(y3.mul(Fixed { raw: SIN_C3, nan: false })).add(
            y5.mul(Fixed { raw: SIN_C5, nan: false }),
        ).sub(y7.mul(Fixed { raw: SIN_C7, nan: false }))
    }

    fn cos(self) -> (r: Self) {
        self.add(Fixed { raw: HALF_PI_RAW, nan: false }).sin()
    }

    fn to_radians(self) -> (r: Self) {
        self.mul(Fixed { raw: PI_RAW, nan: false }).div(Fixed { raw: DEG_HALF_TURN, nan: false })
    }

    fn is_nan(self) -> (r: bool) {
        self.nan || self.raw < MIN_RAW
    }

    fn lt(self, o: Self) -> (r: bool) {
        !self.is_nan() && !o.is_nan() && self.raw < o.raw
    }

    fn le(self, o: Self) -> (r: bool) {
        !self.is_nan() && !o.is_nan() && self.raw <= o.raw
    }

    fn eq_val(self, o: Self) -> (r: bool) {
        self.raw == o.raw && self.nan == o.nan
    }

    fn zero() -> (r: Self) {
        Fixed { raw: 0, nan: false }
    }

    fn one() -> (r: Self) {
        Fixed { raw: SCALE, nan: false }
    }

    fn min_value() -> (r: Self) {
        Fixed { raw: MIN_RAW, nan: false }
    }

    fn max_value() -> (r: Self) {
        Fixed { raw: MAX_RAW, nan: false }
    }

    proof fn axiom_consts_not_nan() {
    }

    proof fn axiom_lt_asymmetric(a: Self, b: Self) {
    }

    proof fn axiom_lt_total(a: Self, b: Self) {
    }

    proof fn axiom_lt_transitive(a: Self, b: Self, c: Self) {
    }

    proof fn axiom_lt_nan(a: Self, b: Self) {
    }

    proof fn axiom_bounded(a: Self) {
    }

    proof fn axiom_closure(a: Self, b: Self) {
    }

    proof fn axiom_recip_num(a: Self) {
    }

    proof fn axiom_round_closure(a: Self) {
    }

    proof fn axiom_neg_neg(a: Self) {
    }

    proof fn axiom_neg_sub(a: Self, b: Self) {
    }

    proof fn axiom_add_comm(a: Self, b: Self) {
    }

    proof fn axiom_mul_comm(a: Self, b: Self) {
    }

    proof fn axiom_mul_neg(a: Self, b: Self) {
        if !a.spec_is_nan() && !b.spec_is_nan() {
            assert((-(a.raw as int)) * (b.raw as int) == -((a.raw as int) * (b.raw as int)))
                by (nonlinear_arith);
            let p = (a.raw as int) * (b.raw as int);
            assert(tdiv(-p, SCALE as int) == -tdiv(p, SCALE as int));
        }
    }

    proof fn axiom_sub_exact(a: Self, b: Self) {
    }
}

/// The odd polynomial that approximates the sine on the folded range.
pub open spec fn sin_poly(y: Fixed) -> Fixed {
    let y2 = y.spec_mul(y);
    let y3 = y2.spec_mul(y);
    let y5 = y3.spec_mul(y2);
    let y7 = y5.spec_mul(y2);
    y.spec_sub(y3.spec_mul(fx(SIN_C3))).spec_add(y5.spec_mul(fx(SIN_C5))).spec_sub(
        y7.spec_mul(fx(SIN_C7)),
    )
}

} // verus!
