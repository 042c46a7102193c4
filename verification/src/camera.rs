use vstd::prelude::*;
use crate::scalar::Scalar;
use crate::vec3::{Point3, Vec3};

verus! {

/// The eye of the scene: a position, a view basis and a focal length.
///
/// `u`, `v` and `w` point right, up and forward. `p` is the roll reference
/// from which `u` is derived anew whenever `w` turns. The library stores and
/// lays out these values; whoever builds or turns a camera keeps `u`, `v`
/// and `w` unit length and at right angles.
#[derive(Clone, Copy, Debug, PartialEq, Eq, Structural)]
pub struct Camera {
    pub origin: Point3,
    pub p: Vec3,
    pub u: Vec3,
    pub v: Vec3,
    pub w: Vec3,
    pub focal_length: Scalar,
}

impl Camera {
    /// The basis as a matrix whose columns are `u`, `v` and `w`.
    pub open spec fn spec_as_data(self) -> [[Scalar; 3]; 3] {
        [
            [self.u.x, self.v.x, self.w.x],
            [self.u.y, self.v.y, self.w.y],
            [self.u.z, self.v.z, self.w.z],
        ]
    }

    /// The basis as a matrix: row `i` holds component `i` of `u`, of `v` and
    /// of `w`.
    pub fn as_data(&self) -> (r: [[Scalar; 3]; 3])
        ensures
            r == self.spec_as_data(),
            forall|i: int|
                0 <= i < 3 ==> r[i][0] == self.u.component(i) && r[i][1] == self.v.component(i)
                    && r[i][2] == self.w.component(i),
    {
        [
            [self.u.x, self.v.x, self.w.x],
            [self.u.y, self.v.y, self.w.y],
            [self.u.z, self.v.z, self.w.z],
        ]
    }
}

} // verus!
