use vstd::prelude::*;
use crate::primitive::{row_of, zero_row, Record};
use crate::scalar::Scalar;
use crate::vec3::Vec3;

verus! {

/// Where an object stands in the scene: a translation, a rotation and a
/// scale, each per axis.
#[derive(Clone, Copy, Debug, PartialEq, Eq, Structural)]
pub struct Transform {
    pub translate: Vec3,
    pub rotate: Vec3,
    pub scale: Vec3,
}

/// The vector of three zeros: no translation, no rotation.
pub open spec fn zeros() -> Vec3 {
    Vec3 { x: Scalar::zero(), y: Scalar::zero(), z: Scalar::zero() }
}

/// The vector of three ones: the scale that changes nothing.
pub open spec fn ones() -> Vec3 {
    Vec3 { x: Scalar::one(), y: Scalar::one(), z: Scalar::one() }
}

impl Transform {
    /// The record of the transform: translation, rotation and scale in rows
    /// 0 to 2, each followed by a zero, and a row of zeros.
    pub open spec fn spec_get_data(self) -> Record {
        [
            row_of(self.translate, Scalar::zero()),
            row_of(self.rotate, Scalar::zero()),
            row_of(self.scale, Scalar::zero()),
            zero_row(),
        ]
    }

    pub fn new(translate: Vec3, rotate: Vec3, scale: Vec3) -> (r: Transform)
        ensures
            r == (Transform { translate, rotate, scale }),
    {
        Transform { translate, rotate, scale }
    }

    pub fn translation(translate: Vec3) -> (r: Transform)
        ensures
            r == (Transform { translate, rotate: zeros(), scale: ones() }),
    {
        Transform { translate, rotate: no_turn(), scale: unit_scale() }
    }

    pub fn rotation(rotate: Vec3) -> (r: Transform)
        ensures
            r == (Transform { translate: zeros(), rotate, scale: ones() }),
    {
        Transform { translate: no_turn(), rotate, scale: unit_scale() }
    }

    pub fn scaler(scale: Vec3) -> (r: Transform)
        ensures
            r == (Transform { translate: zeros(), rotate: zeros(), scale }),
    {
        Transform { translate: no_turn(), rotate: no_turn(), scale }
    }

    pub fn transrot(translate: Vec3, rotate: Vec3) -> (r: Transform)
        ensures
            r == (Transform { translate, rotate, scale: ones() }),
    {
        Transform { translate, rotate, scale: unit_scale() }
    }

    pub fn transscale(translate: Vec3, scale: Vec3) -> (r: Transform)
        ensures
            r == (Transform { translate, rotate: zeros(), scale }),
    {
        Transform { translate, rotate: no_turn(), scale }
    }

    pub fn rotscale(rotate: Vec3, scale: Vec3) -> (r: Transform)
        ensures
            r == (Transform { translate: zeros(), rotate, scale }),
    {
        Transform { translate: no_turn(), rotate, scale }
    }

    /// The transform that changes nothing.
    pub fn none() -> (r: Transform)
        ensures
            r == (Transform { translate: zeros(), rotate: zeros(), scale: ones() }),
    {
        Transform { translate: no_turn(), rotate: no_turn(), scale: unit_scale() }
    }

    /// The record of the transform.
    pub fn get_data(&self) -> (r: Record)
        ensures
            r == self.spec_get_data(),
    {
        let o = Scalar::zero();
        [
            [self.translate.x, self.translate.y, self.translate.z, o],
            [self.rotate.x, self.rotate.y, self.rotate.z, o],
            [self.scale.x, self.scale.y, self.scale.z, o],
            [o, o, o, o],
        ]
    }
}

fn no_turn() -> (r: Vec3)
    ensures
        r == zeros(),
{
    Vec3::origin()
}

fn unit_scale() -> (r: Vec3)
    ensures
        r == ones(),
{
    Vec3::new(Scalar::one(), Scalar::one(), Scalar::one())
}

} // verus!
