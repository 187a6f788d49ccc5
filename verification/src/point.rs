//! Evaluation at a single point.

use vstd::prelude::*;
use crate::choice::Choice;
use crate::error::Error;
use crate::family::Eval;
use crate::single::Single;
use crate::tape::Tape;
use crate::trace::{new_trace, reset_trace};

verus! {

/// A back-end that evaluates a tape at one point.
///
/// Each evaluation runs every clause of the tape once and writes, for the
/// k-th choice clause, a choice other than `Unknown` into slot k of the
/// buffer that it is handed; it may merge into what the slot held.  What it
/// computes is the implementor's business, described by the relation
/// [`PointEvalT::evaluates`].
pub trait PointEvalT<T: Tape>: Sized {
    /// The number of choice clauses of the tape that the back-end was built
    /// over.
    open spec fn choice_slots(&self) -> nat {
        vstd::pervasive::arbitrary()
    }

    /// Whether `out` is a back-end that building over `tape` yields.
    open spec fn constructs(tape: T, out: Self) -> bool {
        true
    }

    /// Whether an evaluation at `(x, y, z)` that starts in state `pre` with
    /// the buffer `before` may end in state `post` with the value `out` and
    /// the buffer `after`.
    open spec fn evaluates(
        pre: Self,
        x: Single,
        y: Single,
        z: Single,
        before: Seq<Choice>,
        post: Self,
        out: Single,
        after: Seq<Choice>,
    ) -> bool {
        true
    }

    /// Builds the back-end over a tape.
    fn new(tape: T) -> (b: Self)
        ensures
            Self::constructs(tape, b),
            b.choice_slots() == tape.choice_slots(),
    ;

    /// Evaluates at `(x, y, z)`, writing one choice per choice clause.
    fn eval_p(&mut self, x: Single, y: Single, z: Single, choices: &mut Vec<Choice>) -> (out: Single)
        requires
            old(choices)@.len() == old(self).choice_slots(),
        ensures
            final(self).choice_slots() == old(self).choice_slots(),
            final(choices)@.len() == old(choices)@.len(),
            crate::trace::all_known(final(choices)@),
            Self::evaluates(*old(self), x, y, z, old(choices)@, *final(self), out, final(choices)@),
    ;
}

/// Handle for point evaluation: a tape, the back-end built over it, and the
/// choice buffer that evaluations write.
pub struct PointEval<E: Eval> {
    tape: E::Tape,
    choices: Vec<Choice>,
    eval: E::PointEval,
}

impl<E: Eval> PointEval<E> {
    /// The tape that the handle evaluates.
    pub closed spec fn tape_spec(&self) -> E::Tape {
        self.tape
    }

    /// The choice buffer.
    pub closed spec fn trace(&self) -> Seq<Choice> {
        self.choices@
    }

    /// The state of the back-end.
    pub closed spec fn engine(&self) -> E::PointEval {
        self.eval
    }

    /// The invariant: the buffer and the back-end have one slot per choice
    /// clause of the tape.
    pub open spec fn wf(&self) -> bool {
        &&& self.trace().len() == self.tape_spec().choice_slots()
        &&& self.engine().choice_slots() == self.tape_spec().choice_slots()
    }

    /// Builds a handle over `tape`, planned for the family's register limit.
    /// The buffer starts with every slot `Unknown`.
    pub fn new(tape: E::Tape) -> (r: Self)
        ensures
            r.wf(),
            tape.replan_outcome(E::reg_limit_spec(), r.tape_spec()),
            <E::PointEval as PointEvalT<E::Tape>>::constructs(r.tape_spec(), r.engine()),
            r.trace() == crate::trace::blank(r.tape_spec().choice_slots()),
    {
        let tape = tape.with_reg_limit(E::reg_limit());
        let choices = new_trace(tape.choice_count());
        let eval = <E::PointEval as PointEvalT<E::Tape>>::new(tape.share());
        PointEval { tape, choices, eval }
    }

    /// Simplifies the tape under the choices of the last evaluation, and
    /// returns what the tape returns.
    pub fn simplify(&self) -> (r: Result<E::Tape, Error>)
        ensures
            self.tape_spec().simplify_outcome(self.trace(), r),
    {
        self.tape.simplify(self.choices.as_slice())
    }

    /// The choice buffer.
    pub fn choices(&self) -> (r: &[Choice])
        ensures
            r@ == self.trace(),
    {
        self.choices.as_slice()
    }

    /// Sets every slot of the choice buffer to `Unknown`.
    pub fn reset_choices(&mut self)
        ensures
            final(self).trace() == crate::trace::blank(old(self).trace().len()),
            final(self).tape_spec() == old(self).tape_spec(),
            final(self).engine() == old(self).engine(),
    {
        reset_trace(&mut self.choices);
    }

    /// Evaluates at `(x, y, z)`: resets the choice buffer, then lets the
    /// back-end run.  Afterwards the buffer holds the trace of this one
    /// point, with no slot `Unknown`.
    pub fn eval_p(&mut self, x: Single, y: Single, z: Single) -> (out: Single)
        requires
            old(self).wf(),
        ensures
            final(self).wf(),
            final(self).tape_spec() == old(self).tape_spec(),
            crate::trace::all_known(final(self).trace()),
            <E::PointEval as PointEvalT<E::Tape>>::evaluates(
                old(self).engine(),
                x,
                y,
                z,
                crate::trace::blank(old(self).tape_spec().choice_slots()),
                final(self).engine(),
                out,
                final(self).trace(),
            ),
    {
        self.reset_choices();
        self.eval.eval_p(x, y, z, &mut self.choices)
    }
}

} // verus!
