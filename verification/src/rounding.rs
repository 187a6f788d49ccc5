//! Conservativeness of the arithmetic on intervals, relative to the
//! monotonicity of the rounded arithmetic on singles.
//!
//! The rounded sum, difference, product, quotient and root of singles are
//! computed outside this crate and are only named here.  Each predicate
//! below states of one of them that it is monotone wherever it yields no NaN,
//! as rounding to nearest is; each lemma shows that an operation on intervals
//! keeps membership if its predicate holds.  None of the predicates is
//! assumed anywhere: a lemma says nothing where its predicate fails.

use vstd::prelude::*;
use crate::interval::Interval;
use crate::single::Single;

verus! {

/// The rounded sum does not decrease when an operand grows.
pub open spec fn sum_monotone() -> bool {
    forall|p: u32, q: u32, r: u32, t: u32|
        #![trigger crate::single::single_sum(p, q), crate::single::single_sum(r, t)]
        {
            let a = Single { bits: p };
            let b = Single { bits: q };
            let c = Single { bits: r };
            let d = Single { bits: t };
            a.at_most(c) && b.at_most(d) && !a.sum(b).nan() && !c.sum(d).nan() ==> a.sum(b).at_most(
                c.sum(d),
            )
        }
}

/// The rounded difference does not decrease when the first operand grows or
/// the second shrinks.
pub open spec fn difference_monotone() -> bool {
    forall|p: u32, q: u32, r: u32, t: u32|
        #![trigger crate::single::single_difference(p, q), crate::single::single_difference(r, t)]
        {
            let a = Single { bits: p };
            let b = Single { bits: q };
            let c = Single { bits: r };
            let d = Single { bits: t };
            a.at_most(c) && d.at_most(b) && !a.difference(b).nan() && !c.difference(d).nan()
                ==> a.difference(b).at_most(c.difference(d))
        }
}

/// The rounded product is monotone in each operand: it does not decrease
/// when one operand grows and the other is not negative, and does not
/// increase when the other is not positive.
pub open spec fn product_monotone() -> bool {
    &&& forall|p: u32, q: u32, r: u32|
        #![trigger crate::single::single_product(p, q), crate::single::single_product(p, r)]
        {
            let a = Single { bits: p };
            let b = Single { bits: q };
            let c = Single { bits: r };
            !a.nan() && b.at_most(c) && !a.product(b).nan() && !a.product(c).nan() ==> {
                &&& a.key() >= 0 ==> a.product(b).at_most(a.product(c))
                &&& a.key() <= 0 ==> a.product(c).at_most(a.product(b))
            }
        }
    &&& forall|p: u32, q: u32, r: u32|
        #![trigger crate::single::single_product(q, p), crate::single::single_product(r, p)]
        {
            let a = Single { bits: p };
            let b = Single { bits: q };
            let c = Single { bits: r };
            !a.nan() && b.at_most(c) && !b.product(a).nan() && !c.product(a).nan() ==> {
                &&& a.key() >= 0 ==> b.product(a).at_most(c.product(a))
                &&& a.key() <= 0 ==> c.product(a).at_most(b.product(a))
            }
        }
}

/// The rounded square does not decrease when the magnitude of its operand
/// grows, and is not negative.
pub open spec fn square_monotone() -> bool {
    &&& forall|p: u32, q: u32|
        #![trigger crate::single::single_product(p, p), crate::single::single_product(q, q)]
        {
            let a = Single { bits: p };
            let b = Single { bits: q };
            a.absolute().at_most(b.absolute()) && !a.product(a).nan() && !b.product(b).nan()
                ==> a.product(a).at_most(b.product(b))
        }
    &&& forall|p: u32|
        #![trigger crate::single::single_product(p, p)]
        {
            let a = Single { bits: p };
            !a.nan() && !a.product(a).nan() ==> a.product(a).key() >= 0
        }
}

/// The rounded quotient is monotone in each operand: in the dividend as the
/// product is, and in the divisor the other way round, as long as the
/// divisor stays on one side of zero.
pub open spec fn quotient_monotone() -> bool {
    &&& forall|p: u32, q: u32, r: u32|
        #![trigger crate::single::single_quotient(q, p), crate::single::single_quotient(r, p)]
        {
            let d = Single { bits: p };
            let b = Single { bits: q };
            let c = Single { bits: r };
            !d.nan() && b.at_most(c) && !b.quotient(d).nan() && !c.quotient(d).nan() ==> {
                &&& d.key() > 0 ==> b.quotient(d).at_most(c.quotient(d))
                &&& d.key() < 0 ==> c.quotient(d).at_most(b.quotient(d))
            }
        }
    &&& forall|p: u32, q: u32, r: u32|
        #![trigger crate::single::single_quotient(p, q), crate::single::single_quotient(p, r)]
        {
            let n = Single { bits: p };
            let b = Single { bits: q };
            let c = Single { bits: r };
            !n.nan() && b.at_most(c) && (b.key() > 0 || c.key() < 0) && !n.quotient(b).nan()
                && !n.quotient(c).nan() ==> {
                &&& n.key() >= 0 ==> n.quotient(c).at_most(n.quotient(b))
                &&& n.key() <= 0 ==> n.quotient(b).at_most(n.quotient(c))
            }
        }
}

/// The rounded root does not decrease when its operand grows from zero on,
/// and is not negative there.
pub open spec fn root_monotone() -> bool {
    &&& forall|p: u32, q: u32|
        #![trigger crate::single::single_root(p), crate::single::single_root(q)]
        {
            let a = Single { bits: p };
            let b = Single { bits: q };
            a.at_most(b) && a.key() >= 0 && !a.root().nan() && !b.root().nan() ==> a.root().at_most(
                b.root(),
            )
        }
    &&& forall|p: u32|
        #![trigger crate::single::single_root(p)]
        {
            let a = Single { bits: p };
            !a.nan() && a.key() >= 0 && !a.root().nan() ==> a.root().key() >= 0
        }
}

/// If the sum is monotone, the sum of two intervals holds the sum of any of
/// their members, unless either sum is a NaN.
pub proof fn lemma_sum_contains(a: Interval, b: Interval, v: Single, w: Single)
    requires
        a.wf(),
        b.wf(),
        a.contains(v),
        b.contains(w),
    ensures
        sum_monotone() && !a.sum(b).nan() && !v.sum(w).nan() ==> a.sum(b).contains(v.sum(w)),
{
}

/// If the difference is monotone, the difference of two intervals holds the
/// difference of any of their members, unless either difference is a NaN.
pub proof fn lemma_difference_contains(a: Interval, b: Interval, v: Single, w: Single)
    requires
        a.wf(),
        b.wf(),
        a.contains(v),
        b.contains(w),
    ensures
        difference_monotone() && !a.difference(b).nan() && !v.difference(w).nan()
            ==> a.difference(b).contains(v.difference(w)),
{
}

/// If the product is monotone, the product of two intervals holds the
/// product of any of their members, as long as neither that product nor a
/// product of a member of the first with a bound of the second, nor a
/// product of two bounds, is a NaN.
pub proof fn lemma_product_contains(a: Interval, b: Interval, v: Single, w: Single)
    requires
        a.wf(),
        b.wf(),
        a.contains(v),
        b.contains(w),
    ensures
        product_monotone() && !v.product(w).nan() && !v.product(b.lower).nan() && !v.product(
            b.upper,
        ).nan() && !a.lower.product(b.lower).nan() && !a.lower.product(b.upper).nan()
            && !a.upper.product(b.lower).nan() && !a.upper.product(b.upper).nan() ==> a.product(
            b,
        ).contains(v.product(w)),
{
}

/// If the square is monotone, the square of an interval holds the square of
/// any of its members, unless either is a NaN.
pub proof fn lemma_square_contains(a: Interval, v: Single)
    requires
        a.wf(),
        a.contains(v),
    ensures
        square_monotone() && !a.squared().nan() && !v.product(v).nan() ==> a.squared().contains(
            v.product(v),
        ),
{
}

/// If the quotient is monotone, the quotient of an interval by one that
/// excludes zero holds the quotient of any of their members, as long as
/// neither that quotient nor a quotient of a member of the first by a bound
/// of the second, nor a quotient of two bounds, is a NaN.
pub proof fn lemma_quotient_contains(a: Interval, b: Interval, v: Single, w: Single)
    requires
        a.wf(),
        b.wf(),
        b.excludes_zero(),
        a.contains(v),
        b.contains(w),
    ensures
        quotient_monotone() && !v.quotient(w).nan() && !v.quotient(b.lower).nan() && !v.quotient(
            b.upper,
        ).nan() && !a.lower.quotient(b.lower).nan() && !a.lower.quotient(b.upper).nan()
            && !a.upper.quotient(b.lower).nan() && !a.upper.quotient(b.upper).nan() ==> a.quotient(
            b,
        ).contains(v.quotient(w)),
{
}

/// If the quotient is monotone, the reciprocal of an interval that excludes
/// zero holds the reciprocal of any of its members, unless either is a NaN.
pub proof fn lemma_reciprocal_contains(a: Interval, v: Single)
    requires
        a.wf(),
        a.excludes_zero(),
        a.contains(v),
    ensures
        quotient_monotone() && !a.reciprocal().nan() && !(Single {
            bits: crate::single::ONE_BITS,
        }).quotient(v).nan() ==> a.reciprocal().contains(
            (Single { bits: crate::single::ONE_BITS }).quotient(v),
        ),
{
}

/// If the root is monotone, the root of an interval holds the root of any of
/// its members that is not negative, unless either is a NaN.
pub proof fn lemma_root_contains(a: Interval, v: Single)
    requires
        a.wf(),
        a.contains(v),
        v.key() >= 0,
    ensures
        root_monotone() && !a.root().nan() && !v.root().nan() ==> a.root().contains(v.root()),
{
}

} // verus!
