//! What the evaluators need of a tape.

use vstd::prelude::*;
use crate::choice::Choice;
use crate::error::Error;

verus! {

/// A compiled function: a linear program of clauses, some of which are
/// choice clauses (`min` or `max`) and some of which read variables.
///
/// A tape is immutable and cheap to share.  The evaluators only need its two
/// counts and its simplification; how a tape is compiled and simplified is
/// the implementor's business, described here by specification functions
/// that the implementor defines.  One that is left as it stands says nothing:
/// a count is then unspecified, and a relation admits every outcome.
pub trait Tape: Sized {
    /// Scratch memory that simplification may reuse.
    type Workspace;

    /// Storage of a retired tape that simplification may reuse.
    type Data;

    /// The number of choice clauses.
    open spec fn choice_slots(&self) -> nat {
        vstd::pervasive::arbitrary()
    }

    /// The number of variables.
    open spec fn var_slots(&self) -> nat {
        vstd::pervasive::arbitrary()
    }

    /// Whether `out` is what simplifying this tape under `choices` yields.
    open spec fn simplify_outcome(&self, choices: Seq<Choice>, out: Result<Self, Error>) -> bool {
        true
    }

    /// Whether `out` is what re-planning this tape for `limit` registers
    /// yields.
    open spec fn replan_outcome(&self, limit: u8, out: Self) -> bool {
        true
    }

    /// The number of choice clauses.
    fn choice_count(&self) -> (n: usize)
        ensures
            n == self.choice_slots(),
    ;

    /// The number of variables.
    fn var_count(&self) -> (n: usize)
        ensures
            n == self.var_slots(),
    ;

    /// Another handle to the same tape.
    fn share(&self) -> (t: Self)
        ensures
            t == *self,
    ;

    /// The tape planned for at most `limit` registers; the tape itself if it
    /// already is.
    fn with_reg_limit(self, limit: u8) -> (t: Self)
        ensures
            self.replan_outcome(limit, t),
    ;

    /// A shorter tape that agrees with this one wherever the clauses decide
    /// as `choices` records.
    fn simplify(&self, choices: &[Choice]) -> (r: Result<Self, Error>)
        ensures
            self.simplify_outcome(choices@, r),
    ;

    /// As [`Tape::simplify`], free to reuse `workspace` and `data`.
    fn simplify_with(&self, choices: &[Choice], workspace: &mut Self::Workspace, data: Self::Data) -> (r: Result<Self, Error>)
        ensures
            self.simplify_outcome(choices@, r),
    ;
}

} // verus!
