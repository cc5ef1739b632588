//! The render stage: its binding layout, its two pipelines, its bind group
//! and its graph node.

use vstd::prelude::*;

use crate::bind_groups::{
    conforms, BindError, BindGroupEntry, BindingKind, BoundResource, LayoutEntry,
    PipelineDescriptor, TextureAccess, TextureView,
};
use crate::config::{DOMAIN_HEIGHT, DOMAIN_WIDTH, WORKGROUP_HEIGHT, WORKGROUP_WIDTH};
use crate::objects::{COLOURS_BYTES, PARTICLES_BYTES};
use crate::render::{BufferHandle, ParticleBuffer, ParticleColourBuffer};
use crate::stage::{
    CompileStatus, ComputeShaderState, Dispatch, PipelineError, ShaderProgram, StageKind,
};

verus! {

/// The render stage's bind group for one frame.
pub struct RenderBindGroup(pub Vec<BindGroupEntry>);

/// The render stage's binding layout and pipeline requests.
pub struct RenderShaderPipeline {
    pub layout: Vec<LayoutEntry>,
    pub init_pipeline: PipelineDescriptor,
    pub update_pipeline: PipelineDescriptor,
}

/// Slot 0: the output texture, written only; slot 1: the particle buffer,
/// read only; slot 2: the colour buffer, a uniform.
pub open spec fn render_layout() -> Seq<LayoutEntry> {
    seq![
        LayoutEntry {
            binding: 0,
            kind: BindingKind::StorageTexture { access: TextureAccess::WriteOnly },
            min_size: 0,
        },
        LayoutEntry {
            binding: 1,
            kind: BindingKind::StorageBuffer { read_only: true },
            min_size: PARTICLES_BYTES as u64,
        },
        LayoutEntry {
            binding: 2,
            kind: BindingKind::UniformBuffer,
            min_size: COLOURS_BYTES as u64,
        },
    ]
}

impl RenderShaderPipeline {
    /// The layout of `render_layout` and one pipeline per entry point of the
    /// render program.
    pub fn new() -> (r: RenderShaderPipeline)
        ensures
            r.layout@ == render_layout(),
            r.init_pipeline.program == ShaderProgram::Init,
            r.update_pipeline.program == ShaderProgram::Update,
            r.init_pipeline.shader@ == "shaders/render.wgsl"@,
            r.update_pipeline.shader@ == "shaders/render.wgsl"@,
    {
        let mut layout: Vec<LayoutEntry> = Vec::new();
        layout.push(
            LayoutEntry {
                binding: 0,
                kind: BindingKind::StorageTexture { access: TextureAccess::WriteOnly },
                min_size: 0,
            },
        );
        layout.push(
            LayoutEntry {
                binding: 1,
                kind: BindingKind::StorageBuffer { read_only: true },
                min_size: PARTICLES_BYTES as u64,
            },
        );
        layout.push(
            LayoutEntry {
                binding: 2,
                kind: BindingKind::UniformBuffer,
                min_size: COLOURS_BYTES as u64,
            },
        );
        assert(layout@ =~= render_layout());
        RenderShaderPipeline {
            layout,
            init_pipeline: PipelineDescriptor {
                label: "render init pipeline",
                shader: "shaders/render.wgsl",
                program: ShaderProgram::Init,
            },
            update_pipeline: PipelineDescriptor {
                label: "render update pipeline",
                shader: "shaders/render.wgsl",
                program: ShaderProgram::Update,
            },
        }
    }

    /// The label of the layout and of the bind groups.
    pub fn bind_group_label(&self) -> (r: &'static str)
        ensures
            r@ == "render bind group"@,
    {
        "render bind group"
    }
}

/// The render entries for an output view, a particle buffer and a colour
/// buffer.
pub open spec fn render_entries(
    output: TextureView,
    particles: BufferHandle,
    colours: BufferHandle,
) -> Seq<BindGroupEntry> {
    seq![
        BindGroupEntry { binding: 0, resource: BoundResource::Texture(output) },
        BindGroupEntry { binding: 1, resource: BoundResource::Buffer(particles) },
        BindGroupEntry { binding: 2, resource: BoundResource::Buffer(colours) },
    ]
}

/// Binds the current output texture, particle buffer and colour buffer.
/// Fails, without binding anything, on the first of them that is not there
/// yet.
pub fn queue_bind_group(
    output_view: Option<TextureView>,
    particles_buffer: &ParticleBuffer,
    particle_colours_buffer: &ParticleColourBuffer,
) -> (r: Result<RenderBindGroup, BindError>)
    ensures
        match (output_view, particles_buffer.buffer, particle_colours_buffer.buffer) {
            (Some(o), Some(p), Some(c)) => r matches Ok(g) && g.0@ == render_entries(o, p, c),
            (None, _, _) => r == Err::<RenderBindGroup, BindError>(BindError::MissingOutputImage),
            (Some(_), None, _) => r == Err::<RenderBindGroup, BindError>(
                BindError::MissingParticleBuffer,
            ),
            (Some(_), Some(_), None) => r == Err::<RenderBindGroup, BindError>(
                BindError::MissingColourBuffer,
            ),
        },
{
    let output = match output_view {
        Some(o) => o,
        None => return Err(BindError::MissingOutputImage),
    };
    let particles = match particles_buffer.buffer {
        Some(p) => p,
        None => return Err(BindError::MissingParticleBuffer),
    };
    let colours = match particle_colours_buffer.buffer {
        Some(c) => c,
        None => return Err(BindError::MissingColourBuffer),
    };
    let mut entries: Vec<BindGroupEntry> = Vec::new();
    entries.push(BindGroupEntry { binding: 0, resource: BoundResource::Texture(output) });
    entries.push(BindGroupEntry { binding: 1, resource: BoundResource::Buffer(particles) });
    entries.push(BindGroupEntry { binding: 2, resource: BoundResource::Buffer(colours) });
    assert(entries@ =~= render_entries(output, particles, colours));
    Ok(RenderBindGroup(entries))
}

/// Buffers of the particle set's and the colour table's sizes fill the
/// render layout together with any output view.
pub proof fn lemma_render_entries_conform(
    output: TextureView,
    particles: BufferHandle,
    colours: BufferHandle,
)
    requires
        particles.size == PARTICLES_BYTES,
        colours.size == COLOURS_BYTES,
    ensures
        conforms(render_layout(), render_entries(output, particles, colours)),
{
    let layout = render_layout();
    let entries = render_entries(output, particles, colours);
    assert(entries[0].binding == layout[0].binding);
    assert(entries[1].binding == layout[1].binding);
    assert(entries[2].binding == layout[2].binding);
}

/// The graph node of the render stage.
pub struct RenderShaderNode {
    pub state: ComputeShaderState,
}

impl Default for RenderShaderNode {
    fn default() -> (r: Self)
        ensures
            r.state == ComputeShaderState::Loading,
    {
        RenderShaderNode { state: ComputeShaderState::Loading }
    }
}

impl RenderShaderNode {
    /// Checks readiness once per tick. On a failed compilation the state is
    /// kept and the error returned.
    pub fn update(&mut self, init: CompileStatus, update: CompileStatus) -> (r: Result<
        (),
        PipelineError,
    >)
        ensures
            match StageKind::Render.poll_spec(old(self).state, init, update) {
                Ok(s) => r is Ok && final(self).state == s,
                Err(e) => r == Err::<(), PipelineError>(e) && final(self).state == old(self).state,
            },
    {
        match StageKind::Render.poll_ready(self.state, init, update) {
            Ok(s) => {
                self.state = s;
                Ok(())
            },
            Err(e) => Err(e),
        }
    }

    /// The dispatch of this frame: none while loading, otherwise the program
    /// of the current state over the output texture's work-groups.
    pub fn run(&self) -> (r: Option<Dispatch>)
        ensures
            r == StageKind::Render.dispatch_spec(self.state),
            self.state != ComputeShaderState::Loading ==> r.unwrap().x == DOMAIN_WIDTH
                / WORKGROUP_WIDTH && r.unwrap().y == DOMAIN_HEIGHT / WORKGROUP_HEIGHT
                && r.unwrap().z == 1,
    {
        StageKind::Render.dispatch(self.state)
    }
}

} // verus!
