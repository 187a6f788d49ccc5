//! Conservative ranges of single-precision values.

use vstd::prelude::*;
use crate::choice::Choice;
use crate::single::Single;

verus! {

/// A closed range `[lower, upper]` of singles, or the NaN interval.
///
/// A well-formed interval has `lower <= upper` in the numeric order, or holds
/// a NaN in both bounds; no interval has a NaN in one bound only.
#[derive(Clone, Copy, Debug, PartialEq, Eq, Structural)]
pub struct Interval {
    pub lower: Single,
    pub upper: Single,
}

impl Interval {
    /// The invariant: ordered bounds, or a NaN in both.
    pub open spec fn wf(self) -> bool {
        self.lower.at_most(self.upper) || (self.lower.nan() && self.upper.nan())
    }

    /// Whether a bound is a NaN.
    pub open spec fn nan(self) -> bool {
        self.lower.nan() || self.upper.nan()
    }

    /// The NaN interval that the operations produce.
    pub open spec fn all_nan() -> Interval {
        Interval {
            lower: Single { bits: crate::single::NAN_BITS },
            upper: Single { bits: crate::single::NAN_BITS },
        }
    }

    /// The singleton `[v, v]`.
    pub open spec fn point(v: Single) -> Interval {
        Interval { lower: v, upper: v }
    }

    /// `[lower, upper]` where the two are ordered, the NaN interval where they
    /// are not (in particular where either is a NaN).
    pub open spec fn checked_spec(lower: Single, upper: Single) -> Interval {
        if lower.at_most(upper) {
            Interval { lower, upper }
        } else {
            Interval::all_nan()
        }
    }

    /// Whether the value `v` lies in the range.  Nothing lies in the NaN
    /// interval, and no NaN lies in any interval.
    pub open spec fn contains(self, v: Single) -> bool {
        self.lower.at_most(v) && v.at_most(self.upper)
    }

    /// The smallest and largest of four candidates, NaNs among them skipped.
    pub open spec fn envelope(p0: Single, p1: Single, p2: Single, p3: Single) -> Interval {
        Interval {
            lower: p0.lesser(p1).lesser(p2).lesser(p3),
            upper: p0.greater(p1).greater(p2).greater(p3),
        }
    }

    /// `[-upper, -lower]`.
    pub open spec fn negation(self) -> Interval {
        Interval { lower: self.upper.negated(), upper: self.lower.negated() }
    }

    /// The range of `|v|` for `v` in the interval.
    pub open spec fn absolute(self) -> Interval {
        let zero = Single { bits: crate::single::ZERO_BITS };
        if self.lower.below(zero) {
            if zero.below(self.upper) {
                Interval { lower: zero, upper: self.upper.greater(self.lower.negated()) }
            } else {
                self.negation()
            }
        } else {
            self
        }
    }

    /// The range of `v * v` for `v` in the interval.
    pub open spec fn squared(self) -> Interval {
        let zero = Single { bits: crate::single::ZERO_BITS };
        if self.upper.below(zero) {
            Interval::checked_spec(
                self.upper.product(self.upper),
                self.lower.product(self.lower),
            )
        } else if zero.below(self.lower) {
            Interval::checked_spec(
                self.lower.product(self.lower),
                self.upper.product(self.upper),
            )
        } else if self.nan() {
            Interval::all_nan()
        } else {
            let m = self.lower.absolute().greater(self.upper.absolute());
            Interval::checked_spec(zero, m.product(m))
        }
    }

    /// The range of the square root, taken as a real function: the negative
    /// part of an interval that straddles zero is cut off, and an interval
    /// with nothing above zero and something below it has no root.
    pub open spec fn root(self) -> Interval {
        let zero = Single { bits: crate::single::ZERO_BITS };
        if self.lower.below(zero) {
            if zero.below(self.upper) {
                Interval::checked_spec(zero, self.upper.root())
            } else {
                Interval::all_nan()
            }
        } else {
            Interval::checked_spec(self.lower.root(), self.upper.root())
        }
    }

    /// Whether the interval lies strictly on one side of zero.
    pub open spec fn excludes_zero(self) -> bool {
        let zero = Single { bits: crate::single::ZERO_BITS };
        zero.below(self.lower) || self.upper.below(zero)
    }

    /// The range of `1 / v`; the NaN interval unless zero is excluded.
    pub open spec fn reciprocal(self) -> Interval {
        let one = Single { bits: crate::single::ONE_BITS };
        if self.excludes_zero() {
            Interval::checked_spec(one.quotient(self.upper), one.quotient(self.lower))
        } else {
            Interval::all_nan()
        }
    }

    /// `[lower + rhs.lower, upper + rhs.upper]`.
    pub open spec fn sum(self, rhs: Interval) -> Interval {
        Interval::checked_spec(self.lower.sum(rhs.lower), self.upper.sum(rhs.upper))
    }

    /// `[lower - rhs.upper, upper - rhs.lower]`.
    pub open spec fn difference(self, rhs: Interval) -> Interval {
        Interval::checked_spec(self.lower.difference(rhs.upper), self.upper.difference(rhs.lower))
    }

    /// The envelope of the four products of a bound with a bound.
    pub open spec fn product(self, rhs: Interval) -> Interval {
        if self.nan() || rhs.nan() {
            Interval::all_nan()
        } else {
            Interval::envelope(
                self.lower.product(rhs.lower),
                self.lower.product(rhs.upper),
                self.upper.product(rhs.lower),
                self.upper.product(rhs.upper),
            )
        }
    }

    /// The envelope of the four quotients of a bound by a bound; the NaN
    /// interval unless the divisor excludes zero.
    pub open spec fn quotient(self, rhs: Interval) -> Interval {
        if self.nan() || !rhs.excludes_zero() {
            Interval::all_nan()
        } else {
            Interval::envelope(
                self.lower.quotient(rhs.lower),
                self.lower.quotient(rhs.upper),
                self.upper.quotient(rhs.lower),
                self.upper.quotient(rhs.upper),
            )
        }
    }

    /// Which operand decides `min(v, w)` for `v` in `self` and `w` in `rhs`.
    pub open spec fn min_side(self, rhs: Interval) -> Choice {
        if self.nan() || rhs.nan() {
            Choice::Both
        } else if self.upper.below(rhs.lower) {
            Choice::Left
        } else if rhs.upper.below(self.lower) {
            Choice::Right
        } else {
            Choice::Both
        }
    }

    /// Which operand decides `max(v, w)` for `v` in `self` and `w` in `rhs`.
    pub open spec fn max_side(self, rhs: Interval) -> Choice {
        if self.nan() || rhs.nan() {
            Choice::Both
        } else if rhs.upper.below(self.lower) {
            Choice::Left
        } else if self.upper.below(rhs.lower) {
            Choice::Right
        } else {
            Choice::Both
        }
    }

    /// The bound-wise minimum.
    pub open spec fn minimum(self, rhs: Interval) -> Interval {
        if self.nan() || rhs.nan() {
            Interval::all_nan()
        } else {
            Interval {
                lower: self.lower.lesser(rhs.lower),
                upper: self.upper.lesser(rhs.upper),
            }
        }
    }

    /// The bound-wise maximum.
    pub open spec fn maximum(self, rhs: Interval) -> Interval {
        if self.nan() || rhs.nan() {
            Interval::all_nan()
        } else {
            Interval {
                lower: self.lower.greater(rhs.lower),
                upper: self.upper.greater(rhs.upper),
            }
        }
    }

    /// The smallest interval that holds both, or the NaN interval if either
    /// is one.
    pub open spec fn union_spec(self, rhs: Interval) -> Interval {
        if self.nan() || rhs.nan() {
            Interval::all_nan()
        } else {
            Interval {
                lower: self.lower.lesser(rhs.lower),
                upper: self.upper.greater(rhs.upper),
            }
        }
    }

    /// `upper - lower`.
    pub open spec fn width_spec(self) -> Single {
        self.upper.difference(self.lower)
    }

    /// `lower + width / 2`.
    pub open spec fn midpoint_spec(self) -> Single {
        self.lower.sum(self.width_spec().quotient(Single { bits: crate::single::TWO_BITS }))
    }

    /// The part of the interval up to its midpoint.
    pub open spec fn lower_half(self) -> Interval {
        Interval::checked_spec(self.lower, self.midpoint_spec())
    }

    /// The part of the interval from its midpoint on.
    pub open spec fn upper_half(self) -> Interval {
        Interval::checked_spec(self.midpoint_spec(), self.upper)
    }

    /// The interval `[lower, upper]`.
    pub fn new(lower: Single, upper: Single) -> (r: Interval)
        requires
            lower.at_most(upper) || (lower.nan() && upper.nan()),
        ensures
            r.lower == lower,
            r.upper == upper,
            r.wf(),
    {
        Interval { lower, upper }
    }

    /// `[lower, upper]` if the two are ordered, the NaN interval otherwise.
    pub fn checked(lower: Single, upper: Single) -> (r: Interval)
        ensures
            r == Interval::checked_spec(lower, upper),
            r.wf(),
    {
        if lower.le(upper) {
            Interval { lower, upper }
        } else {
            Interval::nan_interval()
        }
    }

    /// The NaN interval.
    pub fn nan_interval() -> (r: Interval)
        ensures
            r == Interval::all_nan(),
            r.nan(),
            r.wf(),
    {
        Interval { lower: Single::quiet_nan(), upper: Single::quiet_nan() }
    }

    /// The singleton `[v, v]`.
    pub fn from_single(v: Single) -> (r: Interval)
        ensures
            r == Interval::point(v),
            r.wf(),
    {
        Interval { lower: v, upper: v }
    }

    /// The interval `[pair[0], pair[1]]`.
    pub fn from_pair(pair: [Single; 2]) -> (r: Interval)
        requires
            pair[0].at_most(pair[1]) || (pair[0].nan() && pair[1].nan()),
        ensures
            r.lower == pair[0],
            r.upper == pair[1],
            r.wf(),
    {
        Interval::new(pair[0], pair[1])
    }

    /// The lower bound.
    pub fn lower(&self) -> (v: Single)
        ensures
            v == self.lower,
    {
        self.lower
    }

    /// The upper bound.
    pub fn upper(&self) -> (v: Single)
        ensures
            v == self.upper,
    {
        self.upper
    }

    /// Whether a bound is a NaN.
    pub fn has_nan(&self) -> (b: bool)
        ensures
            b == self.nan(),
    {
        self.lower.is_nan() || self.upper.is_nan()
    }

    /// Whether the bounds of the two intervals are numerically equal.  The
    /// NaN interval equals nothing.
    pub fn eq_value(&self, other: &Interval) -> (b: bool)
        ensures
            b == (self.lower.same_value(other.lower) && self.upper.same_value(other.upper)),
    {
        self.lower.eq_value(other.lower) && self.upper.eq_value(other.upper)
    }

    /// The envelope of four candidates: the smallest and the largest of them,
    /// NaNs skipped, or the NaN interval if all four are NaNs.
    pub fn envelope_of(p0: Single, p1: Single, p2: Single, p3: Single) -> (r: Interval)
        ensures
            r == Interval::envelope(p0, p1, p2, p3),
            r.wf(),
    {
        let lower = p0.min(p1).min(p2).min(p3);
        let upper = p0.max(p1).max(p2).max(p3);
        Interval { lower, upper }
    }

    /// `[-upper, -lower]`.
    pub fn neg(self) -> (r: Interval)
        requires
            self.wf(),
        ensures
            r == self.negation(),
            r.wf(),
    {
        Interval { lower: self.upper.neg(), upper: self.lower.neg() }
    }

    /// The absolute value: the interval itself if nothing in it is negative,
    /// its negation if nothing in it is positive, and `[0, max(upper, -lower)]`
    /// if it straddles zero.
    pub fn abs(self) -> (r: Interval)
        requires
            self.wf(),
        ensures
            r == self.absolute(),
            r.wf(),
    {
        let zero = Single::zero();
        if self.lower.lt(zero) {
            if self.upper.gt(zero) {
                Interval { lower: zero, upper: self.upper.max(self.lower.neg()) }
            } else {
                self.neg()
            }
        } else {
            self
        }
    }

    /// The square.
    pub fn square(self) -> (r: Interval)
        requires
            self.wf(),
        ensures
            r == self.squared(),
            r.wf(),
    {
        let zero = Single::zero();
        if self.upper.lt(zero) {
            Interval::checked(self.upper.mul(self.upper), self.lower.mul(self.lower))
        } else if self.lower.gt(zero) {
            Interval::checked(self.lower.mul(self.lower), self.upper.mul(self.upper))
        } else if self.has_nan() {
            Interval::nan_interval()
        } else {
            let m = self.lower.abs().max(self.upper.abs());
            Interval::checked(zero, m.mul(m))
        }
    }

    /// The square root.
    pub fn sqrt(self) -> (r: Interval)
        requires
            self.wf(),
        ensures
            r == self.root(),
            r.wf(),
    {
        let zero = Single::zero();
        if self.lower.lt(zero) {
            if self.upper.gt(zero) {
                Interval::checked(zero, self.upper.sqrt())
            } else {
                Interval::nan_interval()
            }
        } else {
            Interval::checked(self.lower.sqrt(), self.upper.sqrt())
        }
    }

    /// The reciprocal.
    pub fn recip(self) -> (r: Interval)
        requires
            self.wf(),
        ensures
            r == self.reciprocal(),
            !self.excludes_zero() ==> r.nan(),
            r.wf(),
    {
        let zero = Single::zero();
        if self.lower.gt(zero) || self.upper.lt(zero) {
            let one = Single::one();
            Interval::checked(one.div(self.upper), one.div(self.lower))
        } else {
            Interval::nan_interval()
        }
    }

    /// The sum.
    pub fn add(self, rhs: Interval) -> (r: Interval)
        requires
            self.wf(),
            rhs.wf(),
        ensures
            r == self.sum(rhs),
            r.wf(),
    {
        Interval::checked(self.lower.add(rhs.lower), self.upper.add(rhs.upper))
    }

    /// The difference.
    pub fn sub(self, rhs: Interval) -> (r: Interval)
        requires
            self.wf(),
            rhs.wf(),
        ensures
            r == self.difference(rhs),
            r.wf(),
    {
        Interval::checked(self.lower.sub(rhs.upper), self.upper.sub(rhs.lower))
    }

    /// The product; the NaN interval if either operand is one.
    pub fn mul(self, rhs: Interval) -> (r: Interval)
        requires
            self.wf(),
            rhs.wf(),
        ensures
            r == self.product(rhs),
            self.nan() || rhs.nan() ==> r.nan(),
            r.wf(),
    {
        if self.has_nan() || rhs.has_nan() {
            return Interval::nan_interval();
        }
        Interval::envelope_of(
            self.lower.mul(rhs.lower),
            self.lower.mul(rhs.upper),
            self.upper.mul(rhs.lower),
            self.upper.mul(rhs.upper),
        )
    }

    /// The quotient; the NaN interval if either operand is one or if the
    /// divisor does not exclude zero.
    pub fn div(self, rhs: Interval) -> (r: Interval)
        requires
            self.wf(),
            rhs.wf(),
        ensures
            r == self.quotient(rhs),
            self.nan() || rhs.nan() || !rhs.excludes_zero() ==> r.nan(),
            r.wf(),
    {
        if self.has_nan() {
            return Interval::nan_interval();
        }
        let zero = Single::zero();
        if rhs.lower.gt(zero) || rhs.upper.lt(zero) {
            Interval::envelope_of(
                self.lower.div(rhs.lower),
                self.lower.div(rhs.upper),
                self.upper.div(rhs.lower),
                self.upper.div(rhs.upper),
            )
        } else {
            Interval::nan_interval()
        }
    }

    /// The minimum of two intervals, with the operand that decides it:
    /// `Left` if `self` lies strictly below `rhs`, `Right` if `rhs` lies
    /// strictly below `self`, `Both` otherwise, and the NaN interval with
    /// `Both` if either operand is the NaN interval.
    pub fn min_choice(self, rhs: Interval) -> (r: (Interval, Choice))
        requires
            self.wf(),
            rhs.wf(),
        ensures
            r.0 == self.minimum(rhs),
            r.1 == self.min_side(rhs),
            self.nan() || rhs.nan() ==> r.0.nan() && r.1 == Choice::Both,
            r.1 != Choice::Unknown,
            r.0.wf(),
    {
        if self.has_nan() || rhs.has_nan() {
            return (Interval::nan_interval(), Choice::Both);
        }
        let choice = if self.upper.lt(rhs.lower) {
            Choice::Left
        } else if rhs.upper.lt(self.lower) {
            Choice::Right
        } else {
            Choice::Both
        };
        (Interval { lower: self.lower.min(rhs.lower), upper: self.upper.min(rhs.upper) }, choice)
    }

    /// The maximum of two intervals, with the operand that decides it:
    /// `Left` if `self` lies strictly above `rhs`, `Right` if `rhs` lies
    /// strictly above `self`, `Both` otherwise, and the NaN interval with
    /// `Both` if either operand is the NaN interval.
    pub fn max_choice(self, rhs: Interval) -> (r: (Interval, Choice))
        requires
            self.wf(),
            rhs.wf(),
        ensures
            r.0 == self.maximum(rhs),
            r.1 == self.max_side(rhs),
            self.nan() || rhs.nan() ==> r.0.nan() && r.1 == Choice::Both,
            r.1 != Choice::Unknown,
            r.0.wf(),
    {
        if self.has_nan() || rhs.has_nan() {
            return (Interval::nan_interval(), Choice::Both);
        }
        let choice = if self.lower.gt(rhs.upper) {
            Choice::Left
        } else if rhs.lower.gt(self.upper) {
            Choice::Right
        } else {
            Choice::Both
        };
        (Interval { lower: self.lower.max(rhs.lower), upper: self.upper.max(rhs.upper) }, choice)
    }

    /// The smallest interval that holds both operands; the NaN interval if
    /// either is one.
    pub fn union(self, rhs: Interval) -> (r: Interval)
        requires
            self.wf(),
            rhs.wf(),
        ensures
            r == self.union_spec(rhs),
            r.wf(),
    {
        if self.has_nan() || rhs.has_nan() {
            Interval::nan_interval()
        } else {
            Interval { lower: self.lower.min(rhs.lower), upper: self.upper.max(rhs.upper) }
        }
    }

    /// The width `upper - lower`.
    pub fn width(&self) -> (w: Single)
        ensures
            w == self.width_spec(),
    {
        self.upper.sub(self.lower)
    }

    /// The midpoint `lower + width / 2`.
    pub fn midpoint(&self) -> (m: Single)
        ensures
            m == self.midpoint_spec(),
    {
        self.lower.add(self.width().div(Single::two()))
    }

    /// The parts of the interval below and above `mid`.  A part whose bounds
    /// are not ordered, as when `mid` is a NaN or lies outside the interval,
    /// is the NaN interval.
    pub fn split_at(self, mid: Single) -> (r: (Interval, Interval))
        ensures
            r.0 == Interval::checked_spec(self.lower, mid),
            r.1 == Interval::checked_spec(mid, self.upper),
            r.0.wf(),
            r.1.wf(),
    {
        (Interval::checked(self.lower, mid), Interval::checked(mid, self.upper))
    }

    /// The two halves of the interval, cut at its midpoint.
    pub fn bisect(self) -> (r: (Interval, Interval))
        ensures
            r.0 == self.lower_half(),
            r.1 == self.upper_half(),
            r.0.wf(),
            r.1.wf(),
    {
        self.split_at(self.midpoint())
    }
}

impl From<Single> for Interval {
    /// The singleton `[v, v]`.
    fn from(v: Single) -> (r: Interval) {
        Interval { lower: v, upper: v }
    }
}

impl vstd::std_specs::convert::FromSpecImpl<Single> for Interval {
    open spec fn obeys_from_spec() -> bool {
        true
    }

    open spec fn from_spec(v: Single) -> Interval {
        Interval::point(v)
    }
}

/// Negation keeps membership: if `v` lies in `a`, then `-v` lies in `-a`.
pub proof fn lemma_neg_contains(a: Interval, v: Single)
    requires
        a.wf(),
        a.contains(v),
    ensures
        a.negation().contains(v.negated()),
{
}

/// The absolute value keeps membership: if `v` lies in `a`, then `|v|` lies
/// in `|a|`.
pub proof fn lemma_abs_contains(a: Interval, v: Single)
    requires
        a.wf(),
        a.contains(v),
    ensures
        a.absolute().contains(v.absolute()),
{
}

/// The minimum keeps membership: if `v` lies in `a` and `w` in `b`, then
/// `min(v, w)` lies in the minimum of `a` and `b`.
pub proof fn lemma_min_contains(a: Interval, b: Interval, v: Single, w: Single)
    requires
        a.wf(),
        b.wf(),
        a.contains(v),
        b.contains(w),
    ensures
        a.minimum(b).contains(v.lesser(w)),
{
}

/// The maximum keeps membership: if `v` lies in `a` and `w` in `b`, then
/// `max(v, w)` lies in the maximum of `a` and `b`.
pub proof fn lemma_max_contains(a: Interval, b: Interval, v: Single, w: Single)
    requires
        a.wf(),
        b.wf(),
        a.contains(v),
        b.contains(w),
    ensures
        a.maximum(b).contains(v.greater(w)),
{
}

/// The union holds every member of either operand.
pub proof fn lemma_union_contains(a: Interval, b: Interval, v: Single)
    requires
        a.wf(),
        b.wf(),
        !a.nan(),
        !b.nan(),
        a.contains(v) || b.contains(v),
    ensures
        a.union_spec(b).contains(v),
{
}

/// A NaN operand makes the product, the quotient, the minimum and the
/// maximum the NaN interval, and makes both choices `Both`.
pub proof fn lemma_nan_propagates(a: Interval, b: Interval)
    requires
        a.wf(),
        b.wf(),
        a.nan() || b.nan(),
    ensures
        a.product(b).nan(),
        a.quotient(b).nan(),
        a.minimum(b).nan(),
        a.maximum(b).nan(),
        a.min_side(b) == Choice::Both,
        a.max_side(b) == Choice::Both,
{
}

/// The choice of a minimum is sound: where it is `Left`, the left operand is
/// the minimum at every pair of members, and where it is `Right`, the right
/// operand is.
pub proof fn lemma_min_choice_sound(a: Interval, b: Interval, v: Single, w: Single)
    requires
        a.wf(),
        b.wf(),
        a.contains(v),
        b.contains(w),
    ensures
        a.min_side(b) == Choice::Left ==> v.lesser(w) == v && v.below(w),
        a.min_side(b) == Choice::Right ==> v.lesser(w) == w && w.below(v),
        a.min_side(b) != Choice::Unknown,
{
}

/// The choice of a maximum is sound: where it is `Left`, the left operand is
/// the maximum at every pair of members, and where it is `Right`, the right
/// operand is.
pub proof fn lemma_max_choice_sound(a: Interval, b: Interval, v: Single, w: Single)
    requires
        a.wf(),
        b.wf(),
        a.contains(v),
        b.contains(w),
    ensures
        a.max_side(b) == Choice::Left ==> v.greater(w) == v && w.below(v),
        a.max_side(b) == Choice::Right ==> v.greater(w) == w && v.below(w),
        a.max_side(b) != Choice::Unknown,
{
}

/// On a singleton the unary operations are the scalar computation: negation
/// and absolute value give the singleton of the scalar result (the absolute
/// value up to the sign of zero), and square, root and reciprocal give the
/// singleton of the rounded scalar result wherever that is no NaN.
pub proof fn lemma_singleton_exact(v: Single)
    requires
        !v.nan(),
    ensures
        Interval::point(v).negation() == Interval::point(v.negated()),
        Interval::point(v).absolute().lower.key() == v.absolute().key(),
        Interval::point(v).absolute().upper.key() == v.absolute().key(),
        v.key() != 0 && !v.product(v).nan() ==> Interval::point(v).squared() == Interval::point(
            v.product(v),
        ),
        v.key() >= 0 && !v.root().nan() ==> Interval::point(v).root() == Interval::point(v.root()),
        v.key() != 0 && !(Single { bits: crate::single::ONE_BITS }).quotient(v).nan()
            ==> Interval::point(v).reciprocal() == Interval::point(
            (Single { bits: crate::single::ONE_BITS }).quotient(v),
        ),
{
}

} // verus!
