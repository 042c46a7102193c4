use vstd::prelude::*;
use crate::scalar::Scalar;

verus! {

/// How the members of a group combine. The smooth variants hold their blend
/// radius.
#[derive(Clone, Copy, Debug, PartialEq, Eq, Structural)]
pub enum BooleanOpType {
    Union,
    Intersect,
    Subtract,
    SmoothUnion(Scalar),
    SmoothIntersect(Scalar),
}

impl BooleanOpType {
    /// The number that tells the operator in a record. These numbers are
    /// apart from the kinds of the primitives.
    pub open spec fn code(self) -> nat {
        match self {
            BooleanOpType::Union => 1,
            BooleanOpType::Intersect => 2,
            BooleanOpType::Subtract => 3,
            BooleanOpType::SmoothUnion(_) => 4,
            BooleanOpType::SmoothIntersect(_) => 5,
        }
    }

    /// The blend radius of a smooth operator, and zero for a plain one.
    pub open spec fn smoothing(self) -> Scalar {
        match self {
            BooleanOpType::SmoothUnion(k) => k,
            BooleanOpType::SmoothIntersect(k) => k,
            _ => Scalar::zero(),
        }
    }
}

/// A group of objects, named by their indices in the scene, and the operator
/// that combines them.
pub struct BooleanOp {
    pub operator: BooleanOpType,
    pub obj_uids: Vec<usize>,
    /// 0 until the operation is attached to a scene, which numbers it.
    pub uid: usize,
}

impl BooleanOp {
    /// An operation over `objs` that no scene holds yet.
    pub fn new(operator: BooleanOpType, objs: Vec<usize>) -> (r: BooleanOp)
        ensures
            r.operator == operator,
            r.obj_uids == objs,
            r.uid == 0,
    {
        BooleanOp { operator, obj_uids: objs, uid: 0 }
    }

    /// The record of the operator: its code, then its smoothing.
    pub open spec fn spec_get(&self) -> [Scalar; 2] {
        [Scalar::spec_from_count(self.operator.code()), self.operator.smoothing()]
    }

    /// The record of the operator.
    pub fn get(&self) -> (r: [Scalar; 2])
        ensures
            r == self.spec_get(),
    {
        let o = Scalar::zero();
        match self.operator {
            BooleanOpType::Union => [Scalar::from_count(1), o],
            BooleanOpType::Intersect => [Scalar::from_count(2), o],
            BooleanOpType::Subtract => [Scalar::from_count(3), o],
            BooleanOpType::SmoothUnion(k) => [Scalar::from_count(4), k],
            BooleanOpType::SmoothIntersect(k) => [Scalar::from_count(5), k],
        }
    }
}

} // verus!
