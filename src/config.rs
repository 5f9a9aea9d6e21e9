use vstd::prelude::*;

verus! {

/// Number of grass blade instances rendered.
pub const GRASS_COUNT: usize = 64 * 1024;

/// Number of segments per grass blade (more gives smoother bending).
pub const BLADE_SEGMENTS: u32 = 6;

/// Number of invocations in one workgroup of the wind compute program.
pub const WORKGROUP_SIZE: u32 = 64;

/// Half the side of the square ground plane, equal to the placement radius
/// of the blades.
pub const GROUND_HALF_EXTENT: i32 = 25;

} // verus!
