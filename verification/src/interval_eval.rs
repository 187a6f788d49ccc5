//! Evaluation over a box of intervals.

use vstd::prelude::*;
use crate::choice::Choice;
use crate::error::Error;
use crate::family::Eval;
use crate::interval::Interval;
use crate::region::Region;
use crate::single::Single;
use crate::tape::Tape;
use crate::trace::{new_trace, reset_trace, resize_trace};

verus! {

/// A back-end that evaluates a tape over a box.
///
/// Each evaluation runs every clause of the tape once and writes, for the
/// k-th choice clause, a choice other than `Unknown` into slot k of the
/// buffer that it is handed; it may merge into what the slot held.  What it
/// computes is the implementor's business, described by the relation
/// [`IntervalEvalT::evaluates`].
pub trait IntervalEvalT<T: Tape>: Sized {
    /// Memory that a back-end leaves behind for the next one.
    type Storage;

    /// The number of choice clauses of the tape that the back-end was built
    /// over.
    open spec fn choice_slots(&self) -> nat {
        vstd::pervasive::arbitrary()
    }

    /// The number of variables of the tape that the back-end was built over.
    open spec fn var_slots(&self) -> nat {
        vstd::pervasive::arbitrary()
    }

    /// Whether `out` is a back-end that building over `tape` yields.
    open spec fn constructs(tape: T, out: Self) -> bool {
        true
    }

    /// Whether `out` is what giving up the back-end `pre` yields.
    open spec fn take_outcome(pre: Self, out: Option<Self::Storage>) -> bool {
        true
    }

    /// Whether an evaluation over the box `x`, `y`, `z` that starts in state
    /// `pre` with the buffer `before` may end in state `post` with the range
    /// `out` and the buffer `after`.
    open spec fn evaluates(
        pre: Self,
        x: Interval,
        y: Interval,
        z: Interval,
        vars: Seq<Single>,
        before: Seq<Choice>,
        post: Self,
        out: Interval,
        after: Seq<Choice>,
    ) -> bool {
        true
    }

    /// Builds the back-end over a tape.
    fn new(tape: &T) -> (b: Self)
        ensures
            Self::constructs(*tape, b),
            b.choice_slots() == tape.choice_slots(),
            b.var_slots() == tape.var_slots(),
    ;

    /// Builds the back-end over a tape; it may reuse `storage`, or drop it.
    /// As it stands it drops the storage and builds the back-end anew.
    fn new_with_storage(tape: &T, storage: Self::Storage) -> (b: Self)
        ensures
            Self::constructs(*tape, b),
            b.choice_slots() == tape.choice_slots(),
            b.var_slots() == tape.var_slots(),
    {
        Self::new(tape)
    }

    /// Storage that holds nothing.
    fn empty_storage() -> Self::Storage;

    /// Gives up the back-end for its storage, if it has any to give.
    fn take(self) -> (s: Option<Self::Storage>)
        ensures
            Self::take_outcome(self, s),
    ;

    /// Evaluates over the box, writing one choice per choice clause.
    fn eval_i(
        &mut self,
        x: Interval,
        y: Interval,
        z: Interval,
        vars: &[Single],
        choices: &mut Vec<Choice>,
    ) -> (out: Interval)
        requires
            x.wf(),
            y.wf(),
            z.wf(),
            vars@.len() == old(self).var_slots(),
            old(choices)@.len() == old(self).choice_slots(),
        ensures
            final(self).choice_slots() == old(self).choice_slots(),
            final(self).var_slots() == old(self).var_slots(),
            final(choices)@.len() == old(choices)@.len(),
            crate::trace::all_known(final(choices)@),
            out.wf(),
            Self::evaluates(
                *old(self),
                x,
                y,
                z,
                vars@,
                old(choices)@,
                *final(self),
                out,
                final(choices)@,
            ),
    ;
}

/// Handle for interval evaluation: a tape, the back-end built over it, and
/// the choice buffer that evaluations write.
pub struct IntervalEval<E: Eval> {
    tape: E::Tape,
    choices: Vec<Choice>,
    eval: E::IntervalEval,
}

/// What an [`IntervalEval`] leaves behind for the next one: its choice
/// buffer and the storage of its back-end.
pub struct IntervalEvalStorage<E: Eval> {
    choices: Vec<Choice>,
    inner: <E::IntervalEval as IntervalEvalT<E::Tape>>::Storage,
}

impl<E: Eval> IntervalEvalStorage<E> {
    /// The choice buffer in the storage.
    pub closed spec fn trace(&self) -> Seq<Choice> {
        self.choices@
    }

    /// The storage of the back-end.
    pub closed spec fn inner_spec(&self) -> <E::IntervalEval as IntervalEvalT<E::Tape>>::Storage {
        self.inner
    }

    /// Storage that holds nothing: an empty choice buffer and the back-end's
    /// empty storage.
    pub fn empty() -> (s: Self)
        ensures
            s.trace().len() == 0,
    {
        IntervalEvalStorage {
            choices: Vec::new(),
            inner: <E::IntervalEval as IntervalEvalT<E::Tape>>::empty_storage(),
        }
    }
}

impl<E: Eval> Default for IntervalEvalStorage<E> {
    /// Storage that holds nothing.
    fn default() -> (s: Self)
        ensures
            s.trace().len() == 0,
    {
        IntervalEvalStorage::empty()
    }
}

impl<E: Eval> IntervalEval<E> {
    /// The tape that the handle evaluates.
    pub closed spec fn tape_spec(&self) -> E::Tape {
        self.tape
    }

    /// The choice buffer.
    pub closed spec fn trace(&self) -> Seq<Choice> {
        self.choices@
    }

    /// The state of the back-end.
    pub closed spec fn engine(&self) -> E::IntervalEval {
        self.eval
    }

    /// The invariant: the buffer and the back-end have one slot per choice
    /// clause of the tape, and the back-end expects the tape's variables.
    pub open spec fn wf(&self) -> bool {
        &&& self.trace().len() == self.tape_spec().choice_slots()
        &&& self.engine().choice_slots() == self.tape_spec().choice_slots()
        &&& self.engine().var_slots() == self.tape_spec().var_slots()
    }

    /// Whether evaluating the box `x`, `y`, `z` with the variables `vars` may
    /// take this handle to `post` and return `r`.
    ///
    /// A slice of the wrong length is reported as `BadVarSlice(given,
    /// expected)` and leaves the buffer and the back-end as they were.
    /// Otherwise the back-end runs once on a buffer of `Unknown` slots, and
    /// leaves no slot `Unknown`.
    pub open spec fn yields(
        &self,
        x: Interval,
        y: Interval,
        z: Interval,
        vars: Seq<Single>,
        post: Self,
        r: Result<Interval, Error>,
    ) -> bool {
        &&& post.tape_spec() == self.tape_spec()
        &&& match r {
            Err(e) => {
                &&& vars.len() != self.tape_spec().var_slots()
                &&& e == Error::BadVarSlice(
                    vars.len() as usize,
                    self.tape_spec().var_slots() as usize,
                )
                &&& post.trace() == self.trace()
                &&& post.engine() == self.engine()
            },
            Ok(out) => {
                &&& vars.len() == self.tape_spec().var_slots()
                &&& out.wf()
                &&& crate::trace::all_known(post.trace())
                &&& <E::IntervalEval as IntervalEvalT<E::Tape>>::evaluates(
                    self.engine(),
                    x,
                    y,
                    z,
                    vars,
                    crate::trace::blank(self.tape_spec().choice_slots()),
                    post.engine(),
                    out,
                    post.trace(),
                )
            },
        }
    }

    /// Names the point between the two halves of a bisection: the state
    /// `mid` of the back-end and the buffer `trace` after the first half, and
    /// the ranges `a` and `b` of the two halves.  It holds of every such
    /// point.
    pub open spec fn meets(mid: E::IntervalEval, a: Interval, b: Interval, trace: Seq<Choice>) -> bool {
        true
    }

    /// Whether evaluating the box `region` with `depth` levels of bisection,
    /// from the back-end state `pre` and the buffer `before`, may end in the
    /// state `post` with the range `out` and the buffer `after`.
    ///
    /// At depth 0 this is one evaluation of the back-end.  Deeper, the box
    /// is cut in two along its widest axis, the first half is evaluated one
    /// level less deep, then the second half from where the first ended, and
    /// `out` is the union of the two ranges.
    pub open spec fn subdivides(
        pre: E::IntervalEval,
        region: Region,
        vars: Seq<Single>,
        before: Seq<Choice>,
        depth: nat,
        post: E::IntervalEval,
        out: Interval,
        after: Seq<Choice>,
    ) -> bool
        decreases depth,
    {
        if depth == 0 {
            <E::IntervalEval as IntervalEvalT<E::Tape>>::evaluates(
                pre,
                region.x,
                region.y,
                region.z,
                vars,
                before,
                post,
                out,
                after,
            )
        } else {
            exists|mid: E::IntervalEval, a: Interval, b: Interval, trace: Seq<Choice>|
                #![trigger Self::meets(mid, a, b, trace)]
                Self::meets(mid, a, b, trace) && Self::subdivides(
                    pre,
                    region.first_half(),
                    vars,
                    before,
                    (depth - 1) as nat,
                    mid,
                    a,
                    trace,
                ) && Self::subdivides(
                    mid,
                    region.second_half(),
                    vars,
                    trace,
                    (depth - 1) as nat,
                    post,
                    b,
                    after,
                ) && out == a.union_spec(b)
        }
    }

    /// Whether evaluating the box `x`, `y`, `z` with `depth` levels of
    /// bisection may take this handle to `post` and return `out`: the
    /// bisection starts from a buffer of `Unknown` slots and leaves no slot
    /// `Unknown`.
    pub open spec fn yields_subdivided(
        &self,
        x: Interval,
        y: Interval,
        z: Interval,
        vars: Seq<Single>,
        depth: nat,
        post: Self,
        out: Interval,
    ) -> bool {
        &&& post.tape_spec() == self.tape_spec()
        &&& out.wf()
        &&& crate::trace::all_known(post.trace())
        &&& Self::subdivides(
            self.engine(),
            Region { x, y, z },
            vars,
            crate::trace::blank(self.tape_spec().choice_slots()),
            depth,
            post.engine(),
            out,
            post.trace(),
        )
    }

    /// Builds a handle over `tape`.  The buffer starts with every slot
    /// `Unknown`.
    pub fn new(tape: E::Tape) -> (r: Self)
        ensures
            r.wf(),
            r.tape_spec() == tape,
            <E::IntervalEval as IntervalEvalT<E::Tape>>::constructs(tape, r.engine()),
            r.trace() == crate::trace::blank(tape.choice_slots()),
    {
        let eval = <E::IntervalEval as IntervalEvalT<E::Tape>>::new(&tape);
        let choices = new_trace(tape.choice_count());
        IntervalEval { tape, choices, eval }
    }

    /// Builds a handle over `tape` from the storage of an earlier one.  The
    /// buffer of the storage is cut or extended to the tape's choice count:
    /// the slots that stay keep what they held, new ones are `Unknown`.
    pub fn new_with_storage(tape: E::Tape, s: IntervalEvalStorage<E>) -> (r: Self)
        ensures
            r.wf(),
            r.tape_spec() == tape,
            <E::IntervalEval as IntervalEvalT<E::Tape>>::constructs(tape, r.engine()),
            r.trace().len() == tape.choice_slots(),
            forall|k: int|
                0 <= k < r.trace().len() ==> #[trigger] r.trace()[k] == (if k < s.trace().len() {
                    s.trace()[k]
                } else {
                    Choice::Unknown
                }),
    {
        let eval = <E::IntervalEval as IntervalEvalT<E::Tape>>::new_with_storage(&tape, s.inner);
        let mut choices = s.choices;
        resize_trace(&mut choices, tape.choice_count());
        IntervalEval { tape, choices, eval }
    }

    /// Gives up the handle for its storage: the choice buffer as it stands
    /// and what the back-end hands out, or `None` if the back-end hands out
    /// nothing.
    pub fn take(self) -> (r: Option<IntervalEvalStorage<E>>)
        ensures
            match r {
                Some(s) => s.trace() == self.trace() && <E::IntervalEval as IntervalEvalT<
                    E::Tape,
                >>::take_outcome(self.engine(), Some(s.inner_spec())),
                None => <E::IntervalEval as IntervalEvalT<E::Tape>>::take_outcome(
                    self.engine(),
                    None,
                ),
            },
    {
        let choices = self.choices;
        match self.eval.take() {
            Some(inner) => Some(IntervalEvalStorage { choices, inner }),
            None => None,
        }
    }

    /// Another handle to the tape.
    pub fn tape(&self) -> (t: E::Tape)
        ensures
            t == self.tape_spec(),
    {
        self.tape.share()
    }

    /// Simplifies the tape under the choices of the last evaluation, and
    /// returns what the tape returns.
    pub fn simplify(&self) -> (r: Result<E::Tape, Error>)
        ensures
            self.tape_spec().simplify_outcome(self.trace(), r),
    {
        self.tape.simplify(self.choices.as_slice())
    }

    /// As [`IntervalEval::simplify`], handing `workspace` and `data` to the
    /// tape for reuse.
    pub fn simplify_with(
        &self,
        workspace: &mut <E::Tape as Tape>::Workspace,
        data: <E::Tape as Tape>::Data,
    ) -> (r: Result<E::Tape, Error>)
        ensures
            self.tape_spec().simplify_outcome(self.trace(), r),
    {
        self.tape.simplify_with(self.choices.as_slice(), workspace, data)
    }

    /// Sets every slot of the choice buffer to `Unknown`.
    pub fn reset_choices(&mut self)
        ensures
            final(self).trace() == crate::trace::blank(old(self).trace().len()),
            final(self).tape_spec() == old(self).tape_spec(),
            final(self).engine() == old(self).engine(),
    {
        reset_trace(&mut self.choices);
    }

    /// The choice buffer.
    pub fn choices(&self) -> (r: &[Choice])
        ensures
            r@ == self.trace(),
    {
        self.choices.as_slice()
    }

    /// Evaluates the box `x`, `y`, `z` with the variables `vars`.
    ///
    /// Fails with `BadVarSlice(given, expected)` exactly if `vars` does not
    /// hold one value per variable of the tape, and then changes nothing.
    /// Otherwise it resets the choice buffer and lets the back-end run once;
    /// afterwards no slot is `Unknown`.
    pub fn eval_i(&mut self, x: Interval, y: Interval, z: Interval, vars: &[Single]) -> (r: Result<
        Interval,
        Error,
    >)
        requires
            old(self).wf(),
            x.wf(),
            y.wf(),
            z.wf(),
        ensures
            final(self).wf(),
            old(self).yields(x, y, z, vars@, *final(self), r),
    {
        let expected = self.tape.var_count();
        if vars.len() != expected {
            Err(Error::BadVarSlice(vars.len(), expected))
        } else {
            self.reset_choices();
            Ok(self.eval.eval_i(x, y, z, vars, &mut self.choices))
        }
    }

    /// Evaluates the box whose `y` and `z` sides are `[0, 0]`, for a tape
    /// without variables: [`IntervalEval::eval_i`] with no variables, which
    /// cannot fail there.
    pub fn eval_i_x(&mut self, x: Interval) -> (out: Interval)
        requires
            old(self).wf(),
            x.wf(),
            old(self).tape_spec().var_slots() == 0,
        ensures
            final(self).wf(),
            old(self).yields(
                x,
                Interval::point(Single { bits: crate::single::ZERO_BITS }),
                Interval::point(Single { bits: crate::single::ZERO_BITS }),
                Seq::empty(),
                *final(self),
                Ok(out),
            ),
    {
        let zero = Interval::from_single(Single::zero());
        self.eval_i_xy(x, zero)
    }

    /// Evaluates the box whose `z` side is `[0, 0]`, for a tape without
    /// variables: [`IntervalEval::eval_i`] with no variables, which cannot
    /// fail there.
    pub fn eval_i_xy(&mut self, x: Interval, y: Interval) -> (out: Interval)
        requires
            old(self).wf(),
            x.wf(),
            y.wf(),
            old(self).tape_spec().var_slots() == 0,
        ensures
            final(self).wf(),
            old(self).yields(
                x,
                y,
                Interval::point(Single { bits: crate::single::ZERO_BITS }),
                Seq::empty(),
                *final(self),
                Ok(out),
            ),
    {
        let zero = Interval::from_single(Single::zero());
        let vars: Vec<Single> = Vec::new();
        assert(vars@ =~= Seq::empty());
        self.reset_choices();
        self.eval.eval_i(x, y, zero, vars.as_slice(), &mut self.choices)
    }

    /// Evaluates the box with `subdiv` levels of bisection, for a tighter
    /// range: the buffer is reset once, then each of the `2^subdiv` parts is
    /// evaluated in turn, and the ranges are united.  With `subdiv == 0` this
    /// is [`IntervalEval::eval_i`].
    pub fn eval_i_subdiv(
        &mut self,
        x: Interval,
        y: Interval,
        z: Interval,
        vars: &[Single],
        subdiv: usize,
    ) -> (out: Interval)
        requires
            old(self).wf(),
            x.wf(),
            y.wf(),
            z.wf(),
            vars@.len() == old(self).tape_spec().var_slots(),
        ensures
            final(self).wf(),
            old(self).yields_subdivided(x, y, z, vars@, subdiv as nat, *final(self), out),
    {
        self.reset_choices();
        self.eval_subdiv_recurse(Region::new(x, y, z), vars, subdiv)
    }

    /// Evaluates the box with `subdiv` levels of bisection, merging into the
    /// buffer as it stands.
    fn eval_subdiv_recurse(&mut self, region: Region, vars: &[Single], subdiv: usize) -> (out:
        Interval)
        requires
            old(self).wf(),
            region.wf(),
            vars@.len() == old(self).tape_spec().var_slots(),
        ensures
            final(self).wf(),
            final(self).tape_spec() == old(self).tape_spec(),
            out.wf(),
            crate::trace::all_known(final(self).trace()),
            Self::subdivides(
                old(self).engine(),
                region,
                vars@,
                old(self).trace(),
                subdiv as nat,
                final(self).engine(),
                out,
                final(self).trace(),
            ),
        decreases subdiv,
    {
        if subdiv == 0 {
            self.eval.eval_i(region.x, region.y, region.z, vars, &mut self.choices)
        } else {
            let (first, second) = region.split();
            let a = self.eval_subdiv_recurse(first, vars, subdiv - 1);
            let ghost mid = self.eval;
            let ghost trace = self.choices@;
            let b = self.eval_subdiv_recurse(second, vars, subdiv - 1);
            assert(Self::meets(mid, a, b, trace));
            a.union(b)
        }
    }
}

/// An evaluation does not see what the choice buffer held before it: two
/// handles over the same tape whose back-ends are in the same state admit
/// the same successful evaluations, whatever their buffers hold.  A handle
/// built from the storage of another thus evaluates as a fresh one does whose
/// back-end is in the same state.
pub proof fn lemma_eval_ignores_old_trace<E: Eval>(
    a: IntervalEval<E>,
    b: IntervalEval<E>,
    x: Interval,
    y: Interval,
    z: Interval,
    vars: Seq<Single>,
    post: IntervalEval<E>,
    out: Interval,
)
    requires
        a.tape_spec() == b.tape_spec(),
        a.engine() == b.engine(),
    ensures
        a.yields(x, y, z, vars, post, Ok(out)) == b.yields(x, y, z, vars, post, Ok(out)),
{
}

/// With no level of bisection, subdivision is plain evaluation: given one
/// value per variable, `eval_i_subdiv` at depth 0 admits exactly the outcomes
/// that `eval_i` admits.
pub proof fn lemma_subdivide_zero<E: Eval>(
    a: IntervalEval<E>,
    x: Interval,
    y: Interval,
    z: Interval,
    vars: Seq<Single>,
    post: IntervalEval<E>,
    out: Interval,
)
    requires
        vars.len() == a.tape_spec().var_slots(),
    ensures
        a.yields_subdivided(x, y, z, vars, 0, post, out) == a.yields(x, y, z, vars, post, Ok(out)),
{
}

} // verus!
