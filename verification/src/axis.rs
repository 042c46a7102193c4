use vstd::prelude::*;

verus! {

/// One of the three coordinate axes.
#[derive(Clone, Copy, Debug, PartialEq, Eq, Structural)]
pub enum Axis {
    X,
    Y,
    Z,
}

impl Axis {
    /// The component that the axis selects: 0 for `X`, 1 for `Y`, 2 for `Z`.
    pub open spec fn ordinal(self) -> nat {
        match self {
            Axis::X => 0,
            Axis::Y => 1,
            Axis::Z => 2,
        }
    }

    /// The axis that `perpendicular` answers with. For two different axes it
    /// is the remaining one. A pair of equal axes has no single perpendicular
    /// axis; the answer then goes by the sum of the ordinals, as for any
    /// other pair: `Y` for `(Y, Y)`, `X` for `(X, X)` and `(Z, Z)`.
    pub open spec fn third(self, other: Axis) -> Axis {
        if self.ordinal() + other.ordinal() == 1 {
            Axis::Z
        } else if self.ordinal() + other.ordinal() == 2 {
            Axis::Y
        } else {
            Axis::X
        }
    }

    pub fn as_int(&self) -> (r: usize)
        ensures
            r == self.ordinal(),
    {
        match self {
            Axis::X => 0,
            Axis::Y => 1,
            Axis::Z => 2,
        }
    }

    /// The axis normal to the plane that `self` and `other` span.
    pub fn perpendicular(&self, other: &Axis) -> (r: Axis)
        ensures
            r == self.third(*other),
            *self != *other ==> r != *self && r != *other,
    {
        let sum: usize = self.as_int() + other.as_int();
        if sum == 1 {
            Axis::Z
        } else if sum == 2 {
            Axis::Y
        } else {
            Axis::X
        }
    }

    /// The two axes other than `self`, the lower ordinal first.
    pub fn others(&self) -> (r: (Axis, Axis))
        ensures
            r.0 != *self,
            r.1 != *self,
            r.0.ordinal() < r.1.ordinal(),
    {
        match self {
            Axis::X => (Axis::Y, Axis::Z),
            Axis::Y => (Axis::X, Axis::Z),
            Axis::Z => (Axis::X, Axis::Y),
        }
    }
}

} // verus!
