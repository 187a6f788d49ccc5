//! Evaluator families.

use vstd::prelude::*;
use crate::interval_eval::IntervalEvalT;
use crate::point::PointEvalT;
use crate::tape::Tape;

verus! {

/// A family of evaluators that share a tape format: an interpreter, say, or
/// a native-code generator.
pub trait Eval: Sized {
    /// The tapes that the family evaluates.
    type Tape: Tape;

    /// The family's back-end for single points.
    type PointEval: PointEvalT<Self::Tape>;

    /// The family's back-end for intervals.
    type IntervalEval: IntervalEvalT<Self::Tape>;

    /// The number of registers that a tape may use in this family.
    open spec fn reg_limit_spec() -> u8 {
        vstd::pervasive::arbitrary()
    }

    /// The number of registers that a tape may use in this family.
    fn reg_limit() -> (n: u8)
        ensures
            n == Self::reg_limit_spec(),
    ;
}

} // verus!
