//! The trace left by one `min` or `max` clause.

use vstd::prelude::*;

verus! {

/// Which operands of a choice clause were seen to decide its value since the
/// trace was last reset.
///
/// The four values form a two-bit lattice: the low bit records that the left
/// operand was seen, the high bit that the right operand was seen.
#[derive(Clone, Copy, Debug, PartialEq, Eq, Structural)]
pub enum Choice {
    Unknown,
    Left,
    Right,
    Both,
}

impl Choice {
    /// Whether the left operand was seen.
    pub open spec fn saw_left(self) -> bool {
        self == Choice::Left || self == Choice::Both
    }

    /// Whether the right operand was seen.
    pub open spec fn saw_right(self) -> bool {
        self == Choice::Right || self == Choice::Both
    }

    /// The choice that records exactly the given observations.
    pub open spec fn from_flags(left: bool, right: bool) -> Choice {
        if left && right {
            Choice::Both
        } else if left {
            Choice::Left
        } else if right {
            Choice::Right
        } else {
            Choice::Unknown
        }
    }

    /// The two-bit encoding as a number: 0, 1, 2 or 3.
    pub open spec fn code(self) -> u8 {
        match self {
            Choice::Unknown => 0,
            Choice::Left => 1,
            Choice::Right => 2,
            Choice::Both => 3,
        }
    }

    /// The merge of two traces: an operand was seen if either trace saw it.
    pub open spec fn join(self, other: Choice) -> Choice {
        Choice::from_flags(
            self.saw_left() || other.saw_left(),
            self.saw_right() || other.saw_right(),
        )
    }

    /// `self` records nothing that `other` does not.
    pub open spec fn within(self, other: Choice) -> bool {
        (self.saw_left() ==> other.saw_left()) && (self.saw_right() ==> other.saw_right())
    }

    /// The two-bit encoding of this choice.
    pub fn bits(self) -> (b: u8)
        ensures
            b == self.code(),
            b & 1 == 1 <==> self.saw_left(),
            b & 2 == 2 <==> self.saw_right(),
    {
        let b: u8 = match self {
            Choice::Unknown => 0,
            Choice::Left => 1,
            Choice::Right => 2,
            Choice::Both => 3,
        };
        assert(0u8 & 1 == 0 && 0u8 & 2 == 0 && 1u8 & 1 == 1 && 1u8 & 2 == 0 && 2u8 & 1 == 0 && 2u8
            & 2 == 2 && 3u8 & 1 == 1 && 3u8 & 2 == 2) by (bit_vector);
        b
    }

    /// Decodes the low two bits of `b`.
    pub fn from_bits(b: u8) -> (c: Choice)
        ensures
            c == Choice::from_flags(b & 1 == 1, b & 2 == 2),
            b < 4 ==> c.code() == b,
    {
        assert(b < 4 ==> (b == 0 || b == 1 || b == 2 || b == 3));
        assert(0u8 & 1 == 0 && 0u8 & 2 == 0 && 1u8 & 1 == 1 && 1u8 & 2 == 0 && 2u8 & 1 == 0 && 2u8
            & 2 == 2 && 3u8 & 1 == 1 && 3u8 & 2 == 2) by (bit_vector);
        let left = b & 1 == 1;
        let right = b & 2 == 2;
        if left && right {
            Choice::Both
        } else if left {
            Choice::Left
        } else if right {
            Choice::Right
        } else {
            Choice::Unknown
        }
    }

    /// Merges `other` into this choice, as a bitwise OR of the encodings.
    pub fn or_with(self, other: Choice) -> (c: Choice)
        ensures
            c == self.join(other),
            c.code() == self.code() | other.code(),
    {
        let a = self.bits();
        let b = other.bits();
        assert(forall|x: u8, y: u8|
            x < 4 && y < 4 ==> (#[trigger] (x | y)) < 4 && (((x | y) & 1 == 1) <==> (x & 1 == 1 || y
                & 1 == 1)) && (((x | y) & 2 == 2) <==> (x & 2 == 2 || y & 2 == 2))) by (bit_vector);
        let c = Choice::from_bits(a | b);
        c
    }

    /// Whether an operand has been recorded.
    pub fn is_known(self) -> (b: bool)
        ensures
            b == (self != Choice::Unknown),
    {
        match self {
            Choice::Unknown => false,
            _ => true,
        }
    }
}

/// Merging is commutative.
pub proof fn lemma_join_commutative(a: Choice, b: Choice)
    ensures
        a.join(b) == b.join(a),
{
}

/// Merging is associative.
pub proof fn lemma_join_associative(a: Choice, b: Choice, c: Choice)
    ensures
        a.join(b).join(c) == a.join(b.join(c)),
{
}

/// Merging is idempotent, and `Unknown` is its neutral element.
pub proof fn lemma_join_idempotent(a: Choice)
    ensures
        a.join(a) == a,
        a.join(Choice::Unknown) == a,
        Choice::Unknown.join(a) == a,
{
}

/// Merging only adds observations: both arguments lie within the result, and
/// the result lies within anything that holds both.
pub proof fn lemma_join_monotone(a: Choice, b: Choice, c: Choice)
    ensures
        a.within(a.join(b)),
        b.within(a.join(b)),
        a.within(c) && b.within(c) ==> a.join(b).within(c),
        a != Choice::Unknown ==> a.join(b) != Choice::Unknown,
{
}

} // verus!
