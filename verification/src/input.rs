//! From the keys held during a frame to the steps that the camera takes.

use vstd::prelude::*;

verus! {

/// The keys that move or turn the camera, each `true` while held.
#[derive(Clone, Copy, Debug, PartialEq, Eq, Structural)]
pub struct HeldKeys {
    pub a: bool,
    pub d: bool,
    pub w: bool,
    pub s: bool,
    pub q: bool,
    pub e: bool,
    pub left: bool,
    pub right: bool,
}

/// A way for the camera to move or turn.
#[derive(Clone, Copy, Debug, PartialEq, Eq, Structural)]
pub enum Motion {
    /// Sideways, level with the ground whatever the roll.
    MoveX,
    /// Along the world's vertical.
    MoveY,
    /// Along the view direction.
    MoveZ,
    /// Turning about the camera's up vector.
    RotateX,
}

/// One step of the camera: a motion, and whether it goes by the positive
/// amount of its kind or by the negative one.
#[derive(Clone, Copy, Debug, PartialEq, Eq, Structural)]
pub struct CameraStep {
    pub motion: Motion,
    pub positive: bool,
}

/// `done` followed by the step of a key, if the key is held.
pub open spec fn then_if(done: Seq<CameraStep>, held: bool, motion: Motion, positive: bool) -> Seq<
    CameraStep,
> {
    if held {
        done.push(CameraStep { motion, positive })
    } else {
        done
    }
}

/// The steps of a frame: one for each held key, in the order `a`, `d`, `w`,
/// `s`, `q`, `e`, `left`, `right`. The first key of each pair steps by the
/// positive amount, the second by the negative one, so that two opposite
/// keys held together undo each other.
pub open spec fn steps(keys: HeldKeys) -> Seq<CameraStep> {
    let r = Seq::empty();
    let r = then_if(r, keys.a, Motion::MoveX, true);
    let r = then_if(r, keys.d, Motion::MoveX, false);
    let r = then_if(r, keys.w, Motion::MoveZ, true);
    let r = then_if(r, keys.s, Motion::MoveZ, false);
    let r = then_if(r, keys.q, Motion::MoveY, true);
    let r = then_if(r, keys.e, Motion::MoveY, false);
    let r = then_if(r, keys.left, Motion::RotateX, true);
    then_if(r, keys.right, Motion::RotateX, false)
}

fn push_if(done: &mut Vec<CameraStep>, held: bool, motion: Motion, positive: bool)
    ensures
        final(done)@ == then_if(old(done)@, held, motion, positive),
{
    if held {
        done.push(CameraStep { motion, positive });
    }
}

/// The steps that the camera takes in a frame during which `keys` are held.
pub fn input(keys: &HeldKeys) -> (r: Vec<CameraStep>)
    ensures
        r@ == steps(*keys),
{
    let mut r: Vec<CameraStep> = Vec::new();
    push_if(&mut r, keys.a, Motion::MoveX, true);
    push_if(&mut r, keys.d, Motion::MoveX, false);
    push_if(&mut r, keys.w, Motion::MoveZ, true);
    push_if(&mut r, keys.s, Motion::MoveZ, false);
    push_if(&mut r, keys.q, Motion::MoveY, true);
    push_if(&mut r, keys.e, Motion::MoveY, false);
    push_if(&mut r, keys.left, Motion::RotateX, true);
    push_if(&mut r, keys.right, Motion::RotateX, false);
    r
}

} // verus!
