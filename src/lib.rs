//! Orchestration of a two-stage GPU compute pipeline that simulates particles
//! and renders them into a texture: per-stage readiness state machines, the
//! frame's execution order, buffer management with an exact wire layout,
//! bind-group construction and the per-frame snapshot of simulation state.
//!
//! Every decision is made here on plain values; the host engine performs the
//! device work that the returned plans describe.

pub mod bind_groups;
pub mod config;
pub mod float_bits;
pub mod graph;
pub mod objects;
pub mod render;
pub mod render_shader_pipeline;
pub mod scheduler;
pub mod sim_shader_pipeline;
pub mod snapshot;
pub mod startup;
pub mod stage;
pub mod wire;
