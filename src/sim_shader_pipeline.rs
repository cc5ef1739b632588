//! The simulation stage: its binding layout, its two pipelines, its bind
//! group and its graph node.

use vstd::prelude::*;

use crate::bind_groups::{
    conforms, BindError, BindGroupEntry, BindingKind, BoundResource, LayoutEntry,
    PipelineDescriptor, TextureAccess, TextureView,
};
use crate::objects::PARTICLES_BYTES;
use crate::render::{BufferHandle, ParticleBuffer};
use crate::stage::{
    CompileStatus, ComputeShaderState, Dispatch, PipelineError, ShaderProgram, StageKind,
};

verus! {

/// The simulation stage's bind group for one frame.
pub struct SimulationBindGroup(pub Vec<BindGroupEntry>);

/// The simulation stage's binding layout and pipeline requests.
pub struct SimulationShaderPipeline {
    pub layout: Vec<LayoutEntry>,
    pub init_pipeline: PipelineDescriptor,
    pub update_pipeline: PipelineDescriptor,
}

/// Slot 0: the particle buffer, read and written; slot 1: the weights
/// texture, read only.
pub open spec fn simulation_layout() -> Seq<LayoutEntry> {
    seq![
        LayoutEntry {
            binding: 0,
            kind: BindingKind::StorageBuffer { read_only: false },
            min_size: PARTICLES_BYTES as u64,
        },
        LayoutEntry {
            binding: 1,
            kind: BindingKind::StorageTexture { access: TextureAccess::ReadOnly },
            min_size: 0,
        },
    ]
}

impl SimulationShaderPipeline {
    /// The layout of `simulation_layout` and one pipeline per entry point of
    /// the simulation program.
    pub fn new() -> (r: SimulationShaderPipeline)
        ensures
            r.layout@ == simulation_layout(),
            r.init_pipeline.program == ShaderProgram::Init,
            r.update_pipeline.program == ShaderProgram::Update,
            r.init_pipeline.shader@ == "shaders/simulation.wgsl"@,
            r.update_pipeline.shader@ == "shaders/simulation.wgsl"@,
    {
        let mut layout: Vec<LayoutEntry> = Vec::new();
        layout.push(
            LayoutEntry {
                binding: 0,
                kind: BindingKind::StorageBuffer { read_only: false },
                min_size: PARTICLES_BYTES as u64,
            },
        );
        layout.push(
            LayoutEntry {
                binding: 1,
                kind: BindingKind::StorageTexture { access: TextureAccess::ReadOnly },
                min_size: 0,
            },
        );
        assert(layout@ =~= simulation_layout());
        SimulationShaderPipeline {
            layout,
            init_pipeline: PipelineDescriptor {
                label: "sim init pipeline",
                shader: "shaders/simulation.wgsl",
                program: ShaderProgram::Init,
            },
            update_pipeline: PipelineDescriptor {
                label: "sim update pipeline",
                shader: "shaders/simulation.wgsl",
                program: ShaderProgram::Update,
            },
        }
    }

    /// The label of the layout and of the bind groups.
    pub fn bind_group_label(&self) -> (r: &'static str)
        ensures
            r@ == "sim bind group"@,
    {
        "sim bind group"
    }
}

/// The simulation entries for a particle buffer and a weights view.
pub open spec fn simulation_entries(
    particles: BufferHandle,
    weights: TextureView,
) -> Seq<BindGroupEntry> {
    seq![
        BindGroupEntry { binding: 0, resource: BoundResource::Buffer(particles) },
        BindGroupEntry { binding: 1, resource: BoundResource::Texture(weights) },
    ]
}

/// Binds the current particle buffer and weights texture. Fails, without
/// binding anything, when either is not there yet.
pub fn queue_bind_group(particles_buffer: &ParticleBuffer, weights_view: Option<TextureView>) -> (r:
    Result<SimulationBindGroup, BindError>)
    ensures
        match (particles_buffer.buffer, weights_view) {
            (Some(p), Some(w)) => r matches Ok(g) && g.0@ == simulation_entries(p, w),
            (None, _) => r == Err::<SimulationBindGroup, BindError>(
                BindError::MissingParticleBuffer,
            ),
            (Some(_), None) => r == Err::<SimulationBindGroup, BindError>(
                BindError::MissingWeightsImage,
            ),
        },
{
    let particles = match particles_buffer.buffer {
        Some(p) => p,
        None => return Err(BindError::MissingParticleBuffer),
    };
    let weights = match weights_view {
        Some(w) => w,
        None => return Err(BindError::MissingWeightsImage),
    };
    let mut entries: Vec<BindGroupEntry> = Vec::new();
    entries.push(BindGroupEntry { binding: 0, resource: BoundResource::Buffer(particles) });
    entries.push(BindGroupEntry { binding: 1, resource: BoundResource::Texture(weights) });
    assert(entries@ =~= simulation_entries(particles, weights));
    Ok(SimulationBindGroup(entries))
}

/// A particle buffer of the particle set's size fills the simulation layout
/// together with any weights view.
pub proof fn lemma_simulation_entries_conform(
    particles: BufferHandle,
    weights: TextureView,
)
    requires
        particles.size == PARTICLES_BYTES,
    ensures
        conforms(simulation_layout(), simulation_entries(particles, weights)),
{
    let layout = simulation_layout();
    let entries = simulation_entries(particles, weights);
    assert(entries[0].binding == layout[0].binding);
    assert(entries[1].binding == layout[1].binding);
}

/// The graph node of the simulation stage.
pub struct SimulationShaderNode {
    pub state: ComputeShaderState,
}

impl Default for SimulationShaderNode {
    fn default() -> (r: Self)
        ensures
            r.state == ComputeShaderState::Loading,
    {
        SimulationShaderNode { state: ComputeShaderState::Loading }
    }
}

impl SimulationShaderNode {
    /// Checks readiness once per tick. On a failed compilation the state is
    /// kept and the error returned.
    pub fn update(&mut self, init: CompileStatus, update: CompileStatus) -> (r: Result<
        (),
        PipelineError,
    >)
        ensures
            match StageKind::Simulation.poll_spec(old(self).state, init, update) {
                Ok(s) => r is Ok && final(self).state == s,
                Err(e) => r == Err::<(), PipelineError>(e) && final(self).state == old(self).state,
            },
    {
        match StageKind::Simulation.poll_ready(self.state, init, update) {
            Ok(s) => {
                self.state = s;
                Ok(())
            },
            Err(e) => Err(e),
        }
    }

    /// The dispatch of this frame: none while loading, otherwise the program
    /// of the current state over `ceil(MAX_PARTICLES / PARTICLE_WORKGROUP_WIDTH) x 1 x 1`
    /// work-groups.
    pub fn run(&self) -> (r: Option<Dispatch>)
        ensures
            r == StageKind::Simulation.dispatch_spec(self.state),
    {
        StageKind::Simulation.dispatch(self.state)
    }
}

} // verus!
