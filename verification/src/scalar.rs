//! The scalar capability trait that every geometric entity is generic over.
//!
//! A `Scalar` behaves like a floating-point number: it has additive and
//! multiplicative identities, a strict partial order whose only gap is a
//! not-a-number element, absolute value, square root, trigonometric
//! operations and a degree-to-radian conversion.  Every executable
//! operation is pinned to an abstract specification function of the
//! implementing type, and a small set of proof obligations states the
//! algebraic facts the geometry layer relies on (commutativity of
//! multiplication, the order being total on numbers, and so on).

use vstd::prelude::*;

verus! {

/// Numeric type class for the geometry kernel.
///
/// Implementations choose the meaning of each `spec_*` function; the
/// executable methods must return exactly the value the corresponding
/// specification function denotes, and the `axiom_*` proof obligations
/// force the chosen meaning to satisfy the algebraic laws stated below.
///
/// Not-a-number is part of the contract: `spec_is_nan` marks the values
/// that carry no numeric meaning, the strict order `spec_lt` never holds
/// when either side is such a value, and arithmetic on numbers stays
/// within numbers.
pub trait Scalar: Sized + Copy {
    /// Sum of `self` and `o`.
    spec fn spec_add(self, o: Self) -> Self;

    /// Difference `self` minus `o`.
    spec fn spec_sub(self, o: Self) -> Self;

    /// Product of `self` and `o`.
    spec fn spec_mul(self, o: Self) -> Self;

    /// Quotient `self` over `o`.
    spec fn spec_div(self, o: Self) -> Self;

    /// Additive inverse of `self`.
    spec fn spec_neg(self) -> Self;

    /// Multiplicative inverse of `self`.
    spec fn spec_recip(self) -> Self;

    /// Absolute value of `self`.
    spec fn spec_abs(self) -> Self;

    /// Square root of `self`.
    spec fn spec_sqrt(self) -> Self;

    /// Largest integral value not above `self`.
    spec fn spec_floor(self) -> Self;

    /// Smallest integral value not below `self`.
    spec fn spec_ceil(self) -> Self;

    /// Sine of `self`, taken in radians.
    spec fn spec_sin(self) -> Self;

    /// Cosine of `self`, taken in radians.
    spec fn spec_cos(self) -> Self;

    /// `self` converted from degrees to radians.
    spec fn spec_to_radians(self) -> Self;

    /// Whether `self` is a not-a-number value.
    spec fn spec_is_nan(self) -> bool;

    /// Strict order on scalars; never holds when either side is NaN.
    spec fn spec_lt(self, o: Self) -> bool;

    /// The additive identity.
    spec fn spec_zero() -> Self;

    /// The multiplicative identity.
    spec fn spec_one() -> Self;

    /// The least numeric value, the lower sentinel of empty bounds.
    spec fn spec_min_value() -> Self;

    /// The greatest numeric value, the upper sentinel of empty bounds.
    spec fn spec_max_value() -> Self;

    /// When subtraction of `b` from `a` is exact: no rounding and no
    /// overflow, so adding `b` back recovers `a` (see `axiom_sub_exact`).
    spec fn spec_sub_exact(a: Self, b: Self) -> bool;

    fn add(self, o: Self) -> (r: Self)
        ensures
            r == self.spec_add(o),
    ;

    fn sub(self, o: Self) -> (r: Self)
        ensures
            r == self.spec_sub(o),
    ;

    fn mul(self, o: Self) -> (r: Self)
        ensures
            r == self.spec_mul(o),
    ;

    fn div(self, o: Self) -> (r: Self)
        ensures
            r == self.spec_div(o),
    ;

    fn neg(self) -> (r: Self)
        ensures
            r == self.spec_neg(),
    ;

    fn recip(self) -> (r: Self)
        ensures
            r == self.spec_recip(),
    ;

    fn abs(self) -> (r: Self)
        ensures
            r == self.spec_abs(),
    ;

    fn sqrt(self) -> (r: Self)
        ensures
            r == self.spec_sqrt(),
    ;

    fn floor(self) -> (r: Self)
        ensures
            r == self.spec_floor(),
    ;

    fn ceil(self) -> (r: Self)
        ensures
            r == self.spec_ceil(),
    ;

    fn sin(self) -> (r: Self)
        ensures
            r == self.spec_sin(),
    ;

    fn cos(self) -> (r: Self)
        ensures
            r == self.spec_cos(),
    ;

    fn to_radians(self) -> (r: Self)
        ensures
            r == self.spec_to_radians(),
    ;

    fn is_nan(self) -> (r: bool)
        ensures
            r == self.spec_is_nan(),
    ;

    fn lt(self, o: Self) -> (r: bool)
        ensures
            r == self.spec_lt(o),
    ;

    fn le(self, o: Self) -> (r: bool)
        ensures
            r == (!self.spec_is_nan() && !o.spec_is_nan() && (self.spec_lt(o) || self == o)),
    ;

    /// Structural equality test; on this type class two equal values are
    /// indistinguishable, so NaN compares equal to itself.
    fn eq_val(self, o: Self) -> (r: bool)
        ensures
            r == (self == o),
    ;

    fn zero() -> (r: Self)
        ensures
            r == Self::spec_zero(),
    ;

    fn one() -> (r: Self)
        ensures
            r == Self::spec_one(),
    ;

    fn min_value() -> (r: Self)
        ensures
            r == Self::spec_min_value(),
    ;

    fn max_value() -> (r: Self)
        ensures
            r == Self::spec_max_value(),
    ;

    /// The four distinguished constants are numbers, not NaN; one and
    /// one plus one lie apart from zero.
    proof fn axiom_consts_not_nan()
        ensures
            !Self::spec_zero().spec_is_nan(),
            !Self::spec_one().spec_is_nan(),
            !Self::spec_min_value().spec_is_nan(),
            !Self::spec_max_value().spec_is_nan(),
            Self::spec_one() != Self::spec_zero(),
            !Self::spec_one().spec_add(Self::spec_one()).spec_is_nan(),
            Self::spec_one().spec_add(Self::spec_one()) != Self::spec_zero(),
    ;

    /// The strict order is asymmetric and irreflexive.
    proof fn axiom_lt_asymmetric(a: Self, b: Self)
        requires
            a.spec_lt(b),
        ensures
            !b.spec_lt(a),
            a != b,
    ;

    /// On numbers the strict order is total.
    proof fn axiom_lt_total(a: Self, b: Self)
        requires
            !a.spec_is_nan(),
            !b.spec_is_nan(),
            a != b,
        ensures
            a.spec_lt(b) || b.spec_lt(a),
    ;

    /// The strict order is transitive.
    proof fn axiom_lt_transitive(a: Self, b: Self, c: Self)
        requires
            a.spec_lt(b),
            b.spec_lt(c),
        ensures
            a.spec_lt(c),
    ;

    /// Comparisons never hold against NaN.
    proof fn axiom_lt_nan(a: Self, b: Self)
        requires
            a.spec_is_nan() || b.spec_is_nan(),
        ensures
            !a.spec_lt(b),
    ;

    /// Every number lies between the two sentinels.
    proof fn axiom_bounded(a: Self)
        requires
            !a.spec_is_nan(),
        ensures
            !a.spec_lt(Self::spec_min_value()),
            !Self::spec_max_value().spec_lt(a),
    ;

    /// Ring operations on numbers yield numbers.
    proof fn axiom_closure(a: Self, b: Self)
        requires
            !a.spec_is_nan(),
            !b.spec_is_nan(),
        ensures
            !a.spec_add(b).spec_is_nan(),
            !a.spec_sub(b).spec_is_nan(),
            !a.spec_mul(b).spec_is_nan(),
            !a.spec_neg().spec_is_nan(),
            !a.spec_abs().spec_is_nan(),
    ;

    /// The reciprocal of a nonzero number is a number.
    proof fn axiom_recip_num(a: Self)
        requires
            !a.spec_is_nan(),
            a != Self::spec_zero(),
        ensures
            !a.spec_recip().spec_is_nan(),
    ;

    /// Rounding a number yields a number.
    proof fn axiom_round_closure(a: Self)
        requires
            !a.spec_is_nan(),
        ensures
            !a.spec_floor().spec_is_nan(),
            !a.spec_ceil().spec_is_nan(),
    ;

    /// Negation is an involution on numbers.
    proof fn axiom_neg_neg(a: Self)
        requires
            !a.spec_is_nan(),
        ensures
            a.spec_neg().spec_neg() == a,
    ;

    /// Negating a difference swaps its operands.
    proof fn axiom_neg_sub(a: Self, b: Self)
        requires
            !a.spec_is_nan(),
            !b.spec_is_nan(),
        ensures
            a.spec_sub(b).spec_neg() == b.spec_sub(a),
    ;

    /// Addition of numbers is commutative.
    proof fn axiom_add_comm(a: Self, b: Self)
        requires
            !a.spec_is_nan(),
            !b.spec_is_nan(),
        ensures
            a.spec_add(b) == b.spec_add(a),
    ;

    /// Multiplication of numbers is commutative.
    proof fn axiom_mul_comm(a: Self, b: Self)
        requires
            !a.spec_is_nan(),
            !b.spec_is_nan(),
        ensures
            a.spec_mul(b) == b.spec_mul(a),
    ;

    /// A negated factor negates the product.
    proof fn axiom_mul_neg(a: Self, b: Self)
        requires
            !a.spec_is_nan(),
            !b.spec_is_nan(),
        ensures
            a.spec_neg().spec_mul(b) == a.spec_mul(b).spec_neg(),
    ;

    /// An exact difference is a number, and adding the subtrahend back
    /// recovers the minuend.
    proof fn axiom_sub_exact(a: Self, b: Self)
        requires
            Self::spec_sub_exact(a, b),
        ensures
            !a.spec_is_nan(),
            !b.spec_is_nan(),
            !a.spec_sub(b).spec_is_nan(),
            a.spec_sub(b).spec_add(b) == a,
    ;
}

/// Non-strict order: both sides are numbers and either `a` is strictly
/// below `b` or the two are the same value.
pub open spec fn s_le<S: Scalar>(a: S, b: S) -> bool {
    !a.spec_is_nan() && !b.spec_is_nan() && (a.spec_lt(b) || a == b)
}

/// The smaller of two scalars; on a tie the second operand is kept.
pub open spec fn s_min<S: Scalar>(a: S, b: S) -> S {
    if a.spec_lt(b) {
        a
    } else {
        b
    }
}

/// The larger of two scalars; on a tie the first operand is kept.
pub open spec fn s_max<S: Scalar>(a: S, b: S) -> S {
    if a.spec_lt(b) {
        b
    } else {
        a
    }
}

/// The minimum of two numbers is one of them and lies below both.
pub proof fn lemma_min_le<S: Scalar>(a: S, b: S)
    requires
        !a.spec_is_nan(),
        !b.spec_is_nan(),
    ensures
        s_min(a, b) == a || s_min(a, b) == b,
        s_le(s_min(a, b), a),
        s_le(s_min(a, b), b),
{
    if a.spec_lt(b) {
        S::axiom_lt_asymmetric(a, b);
    } else if a != b {
        S::axiom_lt_total(a, b);
    }
}

/// The maximum of two numbers is one of them and lies above both.
pub proof fn lemma_max_ge<S: Scalar>(a: S, b: S)
    requires
        !a.spec_is_nan(),
        !b.spec_is_nan(),
    ensures
        s_max(a, b) == a || s_max(a, b) == b,
        s_le(a, s_max(a, b)),
        s_le(b, s_max(a, b)),
{
    if a.spec_lt(b) {
        S::axiom_lt_asymmetric(a, b);
    } else if a != b {
        S::axiom_lt_total(a, b);
    }
}

/// Taking the minimum of numbers does not depend on the operand order.
pub proof fn lemma_min_comm<S: Scalar>(a: S, b: S)
    requires
        !a.spec_is_nan(),
        !b.spec_is_nan(),
    ensures
        s_min(a, b) == s_min(b, a),
{
    if a.spec_lt(b) {
        S::axiom_lt_asymmetric(a, b);
    } else if b.spec_lt(a) {
        S::axiom_lt_asymmetric(b, a);
    } else if a != b {
        S::axiom_lt_total(a, b);
    }
}

/// Taking the maximum of numbers does not depend on the operand order.
pub proof fn lemma_max_comm<S: Scalar>(a: S, b: S)
    requires
        !a.spec_is_nan(),
        !b.spec_is_nan(),
    ensures
        s_max(a, b) == s_max(b, a),
{
    if a.spec_lt(b) {
        S::axiom_lt_asymmetric(a, b);
    } else if b.spec_lt(a) {
        S::axiom_lt_asymmetric(b, a);
    } else if a != b {
        S::axiom_lt_total(a, b);
    }
}

/// Two numbers are strictly ordered one way, the other way, or equal,
/// and the three cases exclude one another.
pub proof fn lemma_trichotomy<S: Scalar>(a: S, b: S)
    requires
        !a.spec_is_nan(),
        !b.spec_is_nan(),
    ensures
        a.spec_lt(b) || b.spec_lt(a) || a == b,
        a.spec_lt(b) ==> !b.spec_lt(a) && a != b,
        b.spec_lt(a) ==> !a.spec_lt(b) && a != b,
{
    if a.spec_lt(b) {
        S::axiom_lt_asymmetric(a, b);
    } else if b.spec_lt(a) {
        S::axiom_lt_asymmetric(b, a);
    } else if a != b {
        S::axiom_lt_total(a, b);
    }
}

/// The minimum of numbers is associative.
pub proof fn lemma_min_assoc<S: Scalar>(a: S, b: S, c: S)
    requires
        !a.spec_is_nan(),
        !b.spec_is_nan(),
        !c.spec_is_nan(),
    ensures
        s_min(s_min(a, b), c) == s_min(a, s_min(b, c)),
{
    lemma_order_cases(a, b, c);
}

/// The maximum of numbers is associative.
pub proof fn lemma_max_assoc<S: Scalar>(a: S, b: S, c: S)
    requires
        !a.spec_is_nan(),
        !b.spec_is_nan(),
        !c.spec_is_nan(),
    ensures
        s_max(s_max(a, b), c) == s_max(a, s_max(b, c)),
{
    lemma_order_cases(a, b, c);
}

/// Every ordering fact about three numbers that follows from trichotomy
/// and transitivity, gathered so case splits close on their own.
proof fn lemma_order_cases<S: Scalar>(a: S, b: S, c: S)
    requires
        !a.spec_is_nan(),
        !b.spec_is_nan(),
        !c.spec_is_nan(),
    ensures
        a.spec_lt(b) || b.spec_lt(a) || a == b,
        b.spec_lt(c) || c.spec_lt(b) || b == c,
        a.spec_lt(c) || c.spec_lt(a) || a == c,
        a.spec_lt(b) ==> !b.spec_lt(a) && a != b,
        b.spec_lt(c) ==> !c.spec_lt(b) && b != c,
        a.spec_lt(c) ==> !c.spec_lt(a) && a != c,
        a.spec_lt(b) && b.spec_lt(c) ==> a.spec_lt(c),
        c.spec_lt(b) && b.spec_lt(a) ==> c.spec_lt(a),
        b.spec_lt(a) && a.spec_lt(c) ==> b.spec_lt(c),
        c.spec_lt(a) && a.spec_lt(b) ==> c.spec_lt(b),
        a.spec_lt(c) && c.spec_lt(b) ==> a.spec_lt(b),
        b.spec_lt(c) && c.spec_lt(a) ==> b.spec_lt(a),
{
    lemma_trichotomy(a, b);
    lemma_trichotomy(b, c);
    lemma_trichotomy(a, c);
    if a.spec_lt(b) && b.spec_lt(c) {
        S::axiom_lt_transitive(a, b, c);
    }
    if c.spec_lt(b) && b.spec_lt(a) {
        S::axiom_lt_transitive(c, b, a);
    }
    if b.spec_lt(a) && a.spec_lt(c) {
        S::axiom_lt_transitive(b, a, c);
    }
    if c.spec_lt(a) && a.spec_lt(b) {
        S::axiom_lt_transitive(c, a, b);
    }
    if a.spec_lt(c) && c.spec_lt(b) {
        S::axiom_lt_transitive(a, c, b);
    }
    if b.spec_lt(c) && c.spec_lt(a) {
        S::axiom_lt_transitive(b, c, a);
    }
}

/// Against the sentinels, minimum and maximum leave a number unchanged:
/// the empty bounds built from them is the identity of the union.
pub proof fn lemma_sentinel_identity<S: Scalar>(a: S)
    requires
        !a.spec_is_nan(),
    ensures
        s_min(S::spec_max_value(), a) == a,
        s_max(S::spec_min_value(), a) == a,
{
    S::axiom_consts_not_nan();
    S::axiom_bounded(a);
    if !S::spec_min_value().spec_lt(a) {
        lemma_trichotomy(S::spec_min_value(), a);
    }
}

/// Linear interpolation between `v1` at `t == 0` and `v2` at `t == 1`.
pub open spec fn spec_lerp<S: Scalar>(t: S, v1: S, v2: S) -> S {
    S::spec_one().spec_sub(t).spec_mul(v1).spec_add(t.spec_mul(v2))
}

/// Linear interpolation `(1 - t) * v1 + t * v2`.
pub fn lerp<S: Scalar>(t: S, v1: S, v2: S) -> (r: S)
    ensures
        r == spec_lerp(t, v1, v2),
{
    S::one().sub(t).mul(v1).add(t.mul(v2))
}

/// Degree-to-radian conversion of the scalar type.
pub fn radians<S: Scalar>(deg: S) -> (r: S)
    ensures
        r == deg.spec_to_radians(),
{
    deg.to_radians()
}

} // verus!
