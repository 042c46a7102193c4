use vstd::prelude::*;
use crate::axis::Axis;
use crate::scalar::Scalar;

verus! {

/// Three scalars: a direction, a position or a colour.
#[derive(Clone, Copy, Debug, PartialEq, Eq, Structural)]
pub struct Vec3 {
    pub x: Scalar,
    pub y: Scalar,
    pub z: Scalar,
}

/// A colour, its channels in `x`, `y`, `z`.
pub type Rgb = Vec3;

/// A position.
pub type Point3 = Vec3;

impl Vec3 {
    /// The component at `i`: `x`, `y`, `z` for 0, 1, 2.
    pub open spec fn component(self, i: int) -> Scalar {
        if i == 0 {
            self.x
        } else if i == 1 {
            self.y
        } else {
            self.z
        }
    }

    /// `self` with the component at `i` replaced by `s`.
    pub open spec fn with_component(self, i: int, s: Scalar) -> Vec3 {
        if i == 0 {
            Vec3 { x: s, ..self }
        } else if i == 1 {
            Vec3 { y: s, ..self }
        } else {
            Vec3 { z: s, ..self }
        }
    }

    pub fn new(x: Scalar, y: Scalar, z: Scalar) -> (r: Vec3)
        ensures
            r == (Vec3 { x, y, z }),
    {
        Vec3 { x, y, z }
    }

    /// The vector of three zeros.
    pub fn origin() -> (r: Vec3)
        ensures
            r == (Vec3 { x: Scalar::zero(), y: Scalar::zero(), z: Scalar::zero() }),
    {
        Vec3 { x: Scalar::zero(), y: Scalar::zero(), z: Scalar::zero() }
    }

    pub fn set_to(&mut self, other: Vec3)
        ensures
            *final(self) == other,
    {
        self.x = other.x;
        self.y = other.y;
        self.z = other.z;
    }

    /// The component at `index`.
    pub fn index(&self, index: usize) -> (r: Scalar)
        requires
            index < 3,
        ensures
            r == self.component(index as int),
    {
        if index == 0 {
            self.x
        } else if index == 1 {
            self.y
        } else {
            self.z
        }
    }

    /// The component at `index`, to be written through.
    pub fn index_mut(&mut self, index: usize) -> (r: &mut Scalar)
        requires
            index < 3,
        ensures
            *r == old(self).component(index as int),
            *final(self) == old(self).with_component(index as int, *final(r)),
    {
        if index == 0 {
            &mut self.x
        } else if index == 1 {
            &mut self.y
        } else {
            &mut self.z
        }
    }

    /// The component along `axis`.
    pub fn index_axis(&self, axis: Axis) -> (r: Scalar)
        ensures
            r == self.component(axis.ordinal() as int),
    {
        match axis {
            Axis::X => self.x,
            Axis::Y => self.y,
            Axis::Z => self.z,
        }
    }

    /// The component along `axis`, to be written through.
    pub fn index_axis_mut(&mut self, axis: Axis) -> (r: &mut Scalar)
        ensures
            *r == old(self).component(axis.ordinal() as int),
            *final(self) == old(self).with_component(axis.ordinal() as int, *final(r)),
    {
        match axis {
            Axis::X => &mut self.x,
            Axis::Y => &mut self.y,
            Axis::Z => &mut self.z,
        }
    }

    /// The vector of the absolute values of the components.
    pub fn abs(&self) -> (r: Vec3)
        ensures
            r == (Vec3 { x: self.x.spec_abs(), y: self.y.spec_abs(), z: self.z.spec_abs() }),
    {
        Vec3 { x: self.x.abs(), y: self.y.abs(), z: self.z.abs() }
    }

    /// The components in order.
    pub fn to_tuple(&self) -> (r: [Scalar; 3])
        ensures
            r == [self.x, self.y, self.z],
    {
        [self.x, self.y, self.z]
    }
}

pub fn vec3(x: Scalar, y: Scalar, z: Scalar) -> (r: Vec3)
    ensures
        r == (Vec3 { x, y, z }),
{
    Vec3 { x, y, z }
}

pub fn point3(x: Scalar, y: Scalar, z: Scalar) -> (r: Point3)
    ensures
        r == (Vec3 { x, y, z }),
{
    vec3(x, y, z)
}

pub fn rgb(r: Scalar, g: Scalar, b: Scalar) -> (c: Rgb)
    ensures
        c == (Vec3 { x: r, y: g, z: b }),
{
    vec3(r, g, b)
}

/// Two scalars.
#[derive(Clone, Copy, Debug, PartialEq, Eq, Structural)]
pub struct Vec2 {
    pub x: Scalar,
    pub y: Scalar,
}

impl Vec2 {
    /// The component at `i`: `x` for 0, `y` for 1.
    pub open spec fn component(self, i: int) -> Scalar {
        if i == 0 {
            self.x
        } else {
            self.y
        }
    }

    /// `self` with the component at `i` replaced by `s`.
    pub open spec fn with_component(self, i: int, s: Scalar) -> Vec2 {
        if i == 0 {
            Vec2 { x: s, ..self }
        } else {
            Vec2 { y: s, ..self }
        }
    }

    /// The component that an axis selects. A vector of two components has
    /// none along `Z`, which selects `x`.
    pub open spec fn axis_ordinal(axis: Axis) -> int {
        match axis {
            Axis::X => 0,
            Axis::Y => 1,
            Axis::Z => 0,
        }
    }

    pub fn new(x: Scalar, y: Scalar) -> (r: Vec2)
        ensures
            r == (Vec2 { x, y }),
    {
        Vec2 { x, y }
    }

    /// The vector of two zeros.
    pub fn origin() -> (r: Vec2)
        ensures
            r == (Vec2 { x: Scalar::zero(), y: Scalar::zero() }),
    {
        Vec2 { x: Scalar::zero(), y: Scalar::zero() }
    }

    pub fn set_to(&mut self, other: Vec2)
        ensures
            *final(self) == other,
    {
        self.x = other.x;
        self.y = other.y;
    }

    /// The component at `index`.
    pub fn index(&self, index: usize) -> (r: Scalar)
        requires
            index < 2,
        ensures
            r == self.component(index as int),
    {
        if index == 0 {
            self.x
        } else {
            self.y
        }
    }

    /// The component at `index`, to be written through.
    pub fn index_mut(&mut self, index: usize) -> (r: &mut Scalar)
        requires
            index < 2,
        ensures
            *r == old(self).component(index as int),
            *final(self) == old(self).with_component(index as int, *final(r)),
    {
        if index == 0 {
            &mut self.x
        } else {
            &mut self.y
        }
    }

    /// The component along `axis`.
    pub fn index_axis(&self, axis: Axis) -> (r: Scalar)
        ensures
            r == self.component(Vec2::axis_ordinal(axis)),
    {
        match axis {
            Axis::X => self.x,
            Axis::Y => self.y,
            Axis::Z => self.x,
        }
    }

    /// The component along `axis`, to be written through.
    pub fn index_axis_mut(&mut self, axis: Axis) -> (r: &mut Scalar)
        ensures
            *r == old(self).component(Vec2::axis_ordinal(axis)),
            *final(self) == old(self).with_component(Vec2::axis_ordinal(axis), *final(r)),
    {
        match axis {
            Axis::X => &mut self.x,
            Axis::Y => &mut self.y,
            Axis::Z => &mut self.x,
        }
    }

    /// The components in order.
    pub fn to_tuple(&self) -> (r: (Scalar, Scalar))
        ensures
            r == (self.x, self.y),
    {
        (self.x, self.y)
    }
}

pub fn vec2(x: Scalar, y: Scalar) -> (r: Vec2)
    ensures
        r == (Vec2 { x, y }),
{
    Vec2 { x, y }
}

} // verus!
