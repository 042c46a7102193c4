//! Scene model of a signed-distance-field ray marcher: a camera, a bounded
//! set of primitives combined by boolean operations, and the fixed-size
//! numeric blocks that a renderer reads once per frame.
//!
//! Every number that reaches the renderer is a single-precision value. The
//! library never computes with such values; it only places them, so it holds
//! each one as its 32-bit IEEE-754 pattern (see [`scalar::Scalar`]).

pub mod axis;
pub mod boolean_op;
pub mod camera;
pub mod constants;
pub mod input;
pub mod order;
pub mod primitive;
pub mod scalar;
pub mod scene;
pub mod transform;
pub mod vec3;

pub use axis::Axis;
pub use boolean_op::{BooleanOp, BooleanOpType};
pub use camera::Camera;
pub use constants::{MAX_BOOL_OPS, MAX_LIGHTS, MAX_OBJECTS};
pub use input::{input, CameraStep, HeldKeys, Motion};
pub use primitive::{Primitive, Record};
pub use scalar::Scalar;
pub use scene::{Scene, SceneError};
pub use transform::Transform;
pub use vec3::{point3, rgb, vec2, vec3, Point3, Rgb, Vec2, Vec3};
