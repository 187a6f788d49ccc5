//! The three coordinate functions as an evaluator family.
//!
//! A coordinate tape has one clause, which reads `x`, `y` or `z`; it has no
//! choice clause and no variable, and simplifies to itself.  The family is
//! the smallest that meets the contracts of [`Tape`], [`PointEvalT`],
//! [`IntervalEvalT`] and [`Eval`].

use vstd::prelude::*;
use crate::choice::Choice;
use crate::error::Error;
use crate::family::Eval;
use crate::interval::Interval;
use crate::interval_eval::{IntervalEval, IntervalEvalT};
use crate::point::PointEvalT;
use crate::region::Axis;
use crate::single::Single;
use crate::tape::Tape;

verus! {

/// The tape of the function that returns one coordinate.
#[derive(Clone, Copy, Debug, PartialEq, Eq, Structural)]
pub struct CoordinateTape {
    pub axis: Axis,
}

/// Interval back-end of a coordinate tape: it hands back one side of the box.
#[derive(Clone, Copy, Debug, PartialEq, Eq, Structural)]
pub struct CoordinateIntervalEval {
    pub axis: Axis,
}

/// Point back-end of a coordinate tape: it hands back one coordinate.
#[derive(Clone, Copy, Debug, PartialEq, Eq, Structural)]
pub struct CoordinatePointEval {
    pub axis: Axis,
}

/// The family of the coordinate tapes.
pub struct Coordinates;

impl CoordinateTape {
    /// The tape of the given coordinate.
    pub fn new(axis: Axis) -> (t: Self)
        ensures
            t.axis == axis,
    {
        CoordinateTape { axis }
    }

    /// What simplifying the tape under `choices` gives: the tape itself for
    /// the empty slice, and `BadChoiceSlice(given, 0)` for any other.
    pub open spec fn simplified(self, choices: Seq<Choice>) -> Result<Self, Error> {
        if choices.len() == 0 {
            Ok(self)
        } else {
            Err(Error::BadChoiceSlice(choices.len() as usize, 0))
        }
    }
}

impl Axis {
    /// The one of three values that belongs to the axis.
    pub open spec fn select<V>(self, x: V, y: V, z: V) -> V {
        match self {
            Axis::X => x,
            Axis::Y => y,
            Axis::Z => z,
        }
    }
}

impl Tape for CoordinateTape {
    type Workspace = ();

    type Data = ();

    open spec fn choice_slots(&self) -> nat {
        0
    }

    open spec fn var_slots(&self) -> nat {
        0
    }

    open spec fn simplify_outcome(&self, choices: Seq<Choice>, out: Result<Self, Error>) -> bool {
        out == self.simplified(choices)
    }

    open spec fn replan_outcome(&self, limit: u8, out: Self) -> bool {
        out == *self
    }

    fn choice_count(&self) -> (n: usize) {
        0
    }

    fn var_count(&self) -> (n: usize) {
        0
    }

    fn share(&self) -> (t: Self) {
        *self
    }

    fn with_reg_limit(self, limit: u8) -> (t: Self) {
        self
    }

    fn simplify(&self, choices: &[Choice]) -> (r: Result<Self, Error>) {
        if choices.len() == 0 {
            Ok(*self)
        } else {
            Err(Error::BadChoiceSlice(choices.len(), 0))
        }
    }

    fn simplify_with(&self, choices: &[Choice], workspace: &mut (), data: ()) -> (r: Result<
        Self,
        Error,
    >) {
        self.simplify(choices)
    }
}

impl IntervalEvalT<CoordinateTape> for CoordinateIntervalEval {
    type Storage = ();

    open spec fn choice_slots(&self) -> nat {
        0
    }

    open spec fn var_slots(&self) -> nat {
        0
    }

    open spec fn constructs(tape: CoordinateTape, out: Self) -> bool {
        out.axis == tape.axis
    }

    open spec fn take_outcome(pre: Self, out: Option<()>) -> bool {
        out == Some(())
    }

    open spec fn evaluates(
        pre: Self,
        x: Interval,
        y: Interval,
        z: Interval,
        vars: Seq<Single>,
        before: Seq<Choice>,
        post: Self,
        out: Interval,
        after: Seq<Choice>,
    ) -> bool {
        post == pre && after == before && out == pre.axis.select(x, y, z)
    }

    fn new(tape: &CoordinateTape) -> (b: Self) {
        CoordinateIntervalEval { axis: tape.axis }
    }

    fn empty_storage() -> () {
        ()
    }

    fn take(self) -> (s: Option<()>) {
        Some(())
    }

    fn eval_i(
        &mut self,
        x: Interval,
        y: Interval,
        z: Interval,
        vars: &[Single],
        choices: &mut Vec<Choice>,
    ) -> (out: Interval) {
        match self.axis {
            Axis::X => x,
            Axis::Y => y,
            Axis::Z => z,
        }
    }
}

impl PointEvalT<CoordinateTape> for CoordinatePointEval {
    open spec fn choice_slots(&self) -> nat {
        0
    }

    open spec fn constructs(tape: CoordinateTape, out: Self) -> bool {
        out.axis == tape.axis
    }

    open spec fn evaluates(
        pre: Self,
        x: Single,
        y: Single,
        z: Single,
        before: Seq<Choice>,
        post: Self,
        out: Single,
        after: Seq<Choice>,
    ) -> bool {
        post == pre && after == before && out == pre.axis.select(x, y, z)
    }

    fn new(tape: CoordinateTape) -> (b: Self) {
        CoordinatePointEval { axis: tape.axis }
    }

    fn eval_p(&mut self, x: Single, y: Single, z: Single, choices: &mut Vec<Choice>) -> (out:
        Single) {
        match self.axis {
            Axis::X => x,
            Axis::Y => y,
            Axis::Z => z,
        }
    }
}

impl Eval for Coordinates {
    type Tape = CoordinateTape;

    type PointEval = CoordinatePointEval;

    type IntervalEval = CoordinateIntervalEval;

    open spec fn reg_limit_spec() -> u8 {
        1
    }

    fn reg_limit() -> (n: u8) {
        1
    }
}

/// In the coordinate family a handle built from the storage of another
/// evaluates as a fresh one: the back-end is determined by the tape, so two
/// handles that were built over the same tape admit the same successful
/// evaluations, whatever their buffers hold.
pub proof fn lemma_coordinate_handles_agree(
    a: IntervalEval<Coordinates>,
    b: IntervalEval<Coordinates>,
    x: Interval,
    y: Interval,
    z: Interval,
    vars: Seq<Single>,
    post: IntervalEval<Coordinates>,
    out: Interval,
)
    requires
        a.tape_spec() == b.tape_spec(),
        <CoordinateIntervalEval as IntervalEvalT<CoordinateTape>>::constructs(
            a.tape_spec(),
            a.engine(),
        ),
        <CoordinateIntervalEval as IntervalEvalT<CoordinateTape>>::constructs(
            b.tape_spec(),
            b.engine(),
        ),
    ensures
        a.yields(x, y, z, vars, post, Ok(out)) == b.yields(x, y, z, vars, post, Ok(out)),
{
    crate::interval_eval::lemma_eval_ignores_old_trace(a, b, x, y, z, vars, post, out);
}

} // verus!
