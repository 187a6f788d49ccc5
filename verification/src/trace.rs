//! Choice buffers: one slot per choice clause of a tape, in tape order.

use vstd::prelude::*;
use crate::choice::Choice;

verus! {

/// The buffer of `n` slots that records nothing.
pub open spec fn blank(n: nat) -> Seq<Choice> {
    Seq::new(n, |i: int| Choice::Unknown)
}

/// Whether every slot of the buffer records an operand.
pub open spec fn all_known(trace: Seq<Choice>) -> bool {
    forall|i: int| 0 <= i < trace.len() ==> #[trigger] trace[i] != Choice::Unknown
}

/// A fresh buffer of `n` slots, all `Unknown`.
pub fn new_trace(n: usize) -> (v: Vec<Choice>)
    ensures
        v@ == blank(n as nat),
{
    let mut v: Vec<Choice> = Vec::new();
    let mut i: usize = 0;
    while i < n
        invariant
            i <= n,
            v@ == blank(i as nat),
        decreases n - i,
    {
        v.push(Choice::Unknown);
        i = i + 1;
        assert(v@ =~= blank(i as nat));
    }
    v
}

/// Sets every slot of the buffer to `Unknown`, keeping its length.
pub fn reset_trace(v: &mut Vec<Choice>)
    ensures
        final(v)@ == blank(old(v)@.len()),
{
    let n = v.len();
    let mut i: usize = 0;
    while i < n
        invariant
            i <= n,
            v@.len() == n,
            forall|k: int| 0 <= k < i ==> v@[k] == Choice::Unknown,
        decreases n - i,
    {
        v[i] = Choice::Unknown;
        i = i + 1;
    }
    assert(v@ =~= blank(n as nat));
}

/// Cuts the buffer down to `n` slots, or extends it to `n` slots with
/// `Unknown`; the slots that stay keep their contents.
pub fn resize_trace(v: &mut Vec<Choice>, n: usize)
    ensures
        final(v)@.len() == n,
        forall|k: int| 0 <= k < n && k < old(v)@.len() ==> final(v)@[k] == old(v)@[k],
        forall|k: int| old(v)@.len() <= k < n ==> final(v)@[k] == Choice::Unknown,
{
    v.truncate(n);
    while v.len() < n
        invariant
            v@.len() <= n,
            v@.len() == n || v@.len() >= old(v)@.len(),
            forall|k: int| 0 <= k < v@.len() && k < old(v)@.len() ==> v@[k] == old(v)@[k],
            forall|k: int| old(v)@.len() <= k < v@.len() ==> v@[k] == Choice::Unknown,
        decreases n - v@.len(),
    {
        v.push(Choice::Unknown);
    }
}

} // verus!
