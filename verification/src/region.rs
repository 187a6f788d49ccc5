//! Boxes in space and their bisection.

use vstd::prelude::*;
use crate::interval::Interval;
use crate::single::Single;

verus! {

/// One of the three coordinate axes.
#[derive(Clone, Copy, Debug, PartialEq, Eq, Structural)]
pub enum Axis {
    X,
    Y,
    Z,
}

/// A box: one interval per axis.
#[derive(Clone, Copy, Debug, PartialEq, Eq, Structural)]
pub struct Region {
    pub x: Interval,
    pub y: Interval,
    pub z: Interval,
}

impl Axis {
    /// The axis of the largest of three widths.  Ties go to `X` before `Y`
    /// before `Z`; a width that is a NaN is never the larger of two.
    pub open spec fn of_widths(dx: Single, dy: Single, dz: Single) -> Axis {
        if dy.at_most(dx) && dz.at_most(dx) {
            Axis::X
        } else if dz.at_most(dy) {
            Axis::Y
        } else {
            Axis::Z
        }
    }

    /// The axis of the largest of three widths.
    pub fn widest(dx: Single, dy: Single, dz: Single) -> (axis: Axis)
        ensures
            axis == Axis::of_widths(dx, dy, dz),
    {
        if dx.ge(dy) && dx.ge(dz) {
            Axis::X
        } else if dy.ge(dz) {
            Axis::Y
        } else {
            Axis::Z
        }
    }
}

impl Region {
    /// The invariant: each of the three intervals is well formed.
    pub open spec fn wf(self) -> bool {
        self.x.wf() && self.y.wf() && self.z.wf()
    }

    /// The axis along which the box is widest.
    pub open spec fn widest(self) -> Axis {
        Axis::of_widths(self.x.width_spec(), self.y.width_spec(), self.z.width_spec())
    }

    /// The half of the box below the midpoint of its widest axis.
    pub open spec fn first_half(self) -> Region {
        match self.widest() {
            Axis::X => Region { x: self.x.lower_half(), y: self.y, z: self.z },
            Axis::Y => Region { x: self.x, y: self.y.lower_half(), z: self.z },
            Axis::Z => Region { x: self.x, y: self.y, z: self.z.lower_half() },
        }
    }

    /// The half of the box above the midpoint of its widest axis.
    pub open spec fn second_half(self) -> Region {
        match self.widest() {
            Axis::X => Region { x: self.x.upper_half(), y: self.y, z: self.z },
            Axis::Y => Region { x: self.x, y: self.y.upper_half(), z: self.z },
            Axis::Z => Region { x: self.x, y: self.y, z: self.z.upper_half() },
        }
    }

    /// The box with the given sides.
    pub fn new(x: Interval, y: Interval, z: Interval) -> (r: Region)
        ensures
            r == (Region { x, y, z }),
    {
        Region { x, y, z }
    }

    /// The axis along which the box is widest.
    pub fn widest_axis(&self) -> (axis: Axis)
        ensures
            axis == self.widest(),
    {
        Axis::widest(self.x.width(), self.y.width(), self.z.width())
    }

    /// Cuts the box in two at the midpoint of its widest axis.
    pub fn split(self) -> (halves: (Region, Region))
        requires
            self.wf(),
        ensures
            halves.0 == self.first_half(),
            halves.1 == self.second_half(),
            halves.0.wf(),
            halves.1.wf(),
    {
        match self.widest_axis() {
            Axis::X => {
                let (a, b) = self.x.bisect();
                (Region { x: a, y: self.y, z: self.z }, Region { x: b, y: self.y, z: self.z })
            },
            Axis::Y => {
                let (a, b) = self.y.bisect();
                (Region { x: self.x, y: a, z: self.z }, Region { x: self.x, y: b, z: self.z })
            },
            Axis::Z => {
                let (a, b) = self.z.bisect();
                (Region { x: self.x, y: self.y, z: a }, Region { x: self.x, y: self.y, z: b })
            },
        }
    }
}

} // verus!
