use vstd::prelude::*;

verus! {

/// Width of the simulation domain and of the output texture, in pixels.
pub const DOMAIN_WIDTH: u32 = 512;

/// Height of the simulation domain and of the output texture, in pixels.
pub const DOMAIN_HEIGHT: u32 = 512;

/// Work-group width of the render program.
pub const WORKGROUP_WIDTH: u32 = 8;

/// Work-group height of the render program.
pub const WORKGROUP_HEIGHT: u32 = 8;

/// Number of invocations in one work-group of the simulation program; one
/// invocation advances one particle.
pub const PARTICLE_WORKGROUP_WIDTH: u32 = 64;

/// Number of particle flavours (species).
pub const MAX_FLAVOURS: usize = 10;

/// Number of particles; fixed when the program is built.
pub const MAX_PARTICLES: usize = 64;

} // verus!
