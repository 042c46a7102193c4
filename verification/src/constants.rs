use vstd::prelude::*;

verus! {

/// Number of object slots in the blocks handed to the renderer.
pub const MAX_OBJECTS: usize = 32;

/// Number of boolean-operation slots in the block handed to the renderer.
pub const MAX_BOOL_OPS: usize = 32;

/// Number of light slots in the block handed to the renderer.
pub const MAX_LIGHTS: usize = 8;

} // verus!
