use particle_sim::bind_groups::{BindError, BindGroupEntry, BoundResource, TextureView};
use particle_sim::objects::{
    ImageHandle, RenderImage, WeightsImage, COLOURS_BYTES, PARTICLES_BYTES, WEIGHTS_BYTES,
};
use particle_sim::render::{
    BufferHandle, BufferManager, BufferSlot, BufferUsage, ParticleBuffer, ParticleColourBuffer,
};
use particle_sim::render_shader_pipeline::{self, RenderShaderPipeline};
use particle_sim::scheduler::{CompileReport, FrameError, FrameScheduler, StageDispatch};
use particle_sim::sim_shader_pipeline::{self, SimulationShaderPipeline};
use particle_sim::snapshot::{extract_snapshot, SimulationState};
use particle_sim::stage::{
    CompileStatus, ComputeShaderState, Dispatch, PipelineError, ShaderProgram, StageKind,
};

use CompileStatus::{Failed, Pending, Ready};

fn state() -> SimulationState {
    SimulationState::new(
        RenderImage { image: ImageHandle { id: 10 } },
        WeightsImage { image: ImageHandle { id: 11 } },
    )
}

fn view(id: u64) -> Option<TextureView> {
    Some(TextureView { image: ImageHandle { id } })
}

fn report(init: CompileStatus, update: CompileStatus) -> CompileReport {
    CompileReport {
        render_init: init,
        render_update: update,
        simulation_init: init,
        simulation_update: update,
    }
}

#[test]
fn first_frame_creates_each_buffer_at_exact_size() {
    let mut m = BufferManager::new();
    let s = extract_snapshot(&state());
    let up = m.prepare_buffers(&s);
    let sizes: Vec<(BufferSlot, u64, u64)> =
        up.creates.iter().map(|d| (d.slot, d.handle.id, d.handle.size)).collect();
    assert_eq!(
        sizes,
        vec![
            (BufferSlot::Particles, 0, PARTICLES_BYTES as u64),
            (BufferSlot::Weights, 1, WEIGHTS_BYTES as u64),
            (BufferSlot::Colours, 2, COLOURS_BYTES as u64),
        ]
    );
    assert_eq!(
        up.creates[0].usage,
        BufferUsage { storage: true, uniform: false, copy_dst: true, copy_src: true }
    );
    assert_eq!(
        up.creates[2].usage,
        BufferUsage { storage: true, uniform: true, copy_dst: true, copy_src: false }
    );
    assert_eq!(m.created, 3);
}

#[test]
fn uploads_equal_snapshot_bytes_every_frame() {
    let mut m = BufferManager::new();
    let mut st = state();
    for frame in 0..4u32 {
        st.weights.set(1, 2, frame);
        let s = extract_snapshot(&st);
        let up = m.prepare_buffers(&s);
        assert_eq!(up.writes.len(), 3);
        let expected = [
            s.particles.to_wire_bytes(),
            s.weights.to_wire_bytes(),
            s.colours.to_wire_bytes(),
        ];
        for (w, bytes) in up.writes.iter().zip(expected.iter()) {
            assert_eq!(w.offset, 0);
            assert_eq!(w.bytes.len() as u64, w.handle.size);
            assert_eq!(&w.bytes, bytes);
        }
        assert_eq!(&up.writes[1].bytes[48..52], &frame.to_le_bytes());
    }
}

#[test]
fn handles_stay_the_same_after_first_frame() {
    let mut m = BufferManager::new();
    let s = extract_snapshot(&state());
    m.prepare_buffers(&s);
    let first = (m.particles, m.weights, m.colours);
    for _ in 0..10 {
        let up = m.prepare_buffers(&s);
        assert!(up.creates.is_empty());
        assert_eq!((m.particles, m.weights, m.colours), first);
        assert_eq!(up.writes[0].handle, first.0.buffer.unwrap());
    }
    assert_eq!(m.created, 3);
}

#[test]
fn ensure_allocated_creates_once() {
    let mut m = BufferManager::new();
    let d = m.ensure_allocated(BufferSlot::Weights).unwrap();
    assert_eq!(d.handle, BufferHandle { id: 0, size: WEIGHTS_BYTES as u64 });
    assert!(m.ensure_allocated(BufferSlot::Weights).is_none());
    assert_eq!(m.handle(BufferSlot::Weights), Some(d.handle));
    assert_eq!(m.handle(BufferSlot::Particles), None);
    assert_eq!(BufferSlot::Colours.label(), "particle colours buffer");
}

#[test]
fn snapshot_copies_state() {
    let mut st = state();
    st.weights.set(0, 0, 99);
    let s = extract_snapshot(&st);
    st.weights.set(0, 0, 5);
    assert_eq!(s.weights.get(0, 0), 99);
    assert_eq!(s.render_image, st.render_image);
    assert_eq!(s.weights_image, st.weights_image);
    assert_eq!(s.particles.to_wire_bytes(), st.particles.to_wire_bytes());
}

#[test]
fn zero_weights_at_start() {
    let st = state();
    for i in 0..10 {
        for j in 0..10 {
            assert_eq!(st.weights.get(i, j), 0);
        }
    }
}

#[test]
fn simulation_bind_group_entries() {
    let p = BufferHandle { id: 0, size: PARTICLES_BYTES as u64 };
    let g = sim_shader_pipeline::queue_bind_group(&ParticleBuffer { buffer: Some(p) }, view(4))
        .ok()
        .unwrap();
    assert_eq!(
        g.0,
        vec![
            BindGroupEntry { binding: 0, resource: BoundResource::Buffer(p) },
            BindGroupEntry { binding: 1, resource: BoundResource::Texture(view(4).unwrap()) },
        ]
    );
    let layout = SimulationShaderPipeline::new().layout;
    assert_eq!(layout.len(), g.0.len());
    assert_eq!(layout[0].min_size, PARTICLES_BYTES as u64);
}

#[test]
fn simulation_bind_group_fails_fast() {
    let p = BufferHandle { id: 0, size: PARTICLES_BYTES as u64 };
    assert_eq!(
        sim_shader_pipeline::queue_bind_group(&ParticleBuffer { buffer: None }, view(4)).err(),
        Some(BindError::MissingParticleBuffer)
    );
    assert_eq!(
        sim_shader_pipeline::queue_bind_group(&ParticleBuffer { buffer: Some(p) }, None).err(),
        Some(BindError::MissingWeightsImage)
    );
}

#[test]
fn render_bind_group_entries_and_errors() {
    let p = ParticleBuffer { buffer: Some(BufferHandle { id: 0, size: PARTICLES_BYTES as u64 }) };
    let c = ParticleColourBuffer {
        buffer: Some(BufferHandle { id: 2, size: COLOURS_BYTES as u64 }),
    };
    let g = render_shader_pipeline::queue_bind_group(view(1), &p, &c).ok().unwrap();
    assert_eq!(g.0.len(), 3);
    assert_eq!(g.0[0].resource, BoundResource::Texture(view(1).unwrap()));
    assert_eq!(g.0[2].resource, BoundResource::Buffer(c.buffer.unwrap()));
    assert_eq!(
        render_shader_pipeline::queue_bind_group(None, &p, &c).err(),
        Some(BindError::MissingOutputImage)
    );
    assert_eq!(
        render_shader_pipeline::queue_bind_group(view(1), &ParticleBuffer { buffer: None }, &c)
            .err(),
        Some(BindError::MissingParticleBuffer)
    );
    assert_eq!(
        render_shader_pipeline::queue_bind_group(
            view(1),
            &p,
            &ParticleColourBuffer { buffer: None }
        )
        .err(),
        Some(BindError::MissingColourBuffer)
    );
    let pipeline = RenderShaderPipeline::new();
    assert_eq!(pipeline.layout.len(), 3);
    assert_eq!(pipeline.init_pipeline.shader, "shaders/render.wgsl");
    assert_eq!(pipeline.bind_group_label(), "render bind group");
}

#[test]
fn scheduler_dispatches_nothing_while_loading() {
    let mut sched = FrameScheduler::new();
    let st = state();
    let plan = sched.tick(&st, report(Pending, Pending), view(10), view(11)).ok().unwrap();
    assert!(plan.dispatches.is_empty());
    assert_eq!(plan.uploads.creates.len(), 3);
    assert_eq!(plan.uploads.writes.len(), 3);
}

#[test]
fn scheduler_runs_render_before_simulation() {
    let mut sched = FrameScheduler::new();
    let st = state();
    let plan = sched.tick(&st, report(Ready, Pending), view(10), view(11)).ok().unwrap();
    assert_eq!(
        plan.dispatches,
        vec![
            StageDispatch {
                stage: StageKind::Render,
                dispatch: Dispatch { program: ShaderProgram::Init, x: 64, y: 64, z: 1 }
            },
            StageDispatch {
                stage: StageKind::Simulation,
                dispatch: Dispatch { program: ShaderProgram::Init, x: 1, y: 1, z: 1 }
            },
        ]
    );
    let plan = sched.tick(&st, report(Ready, Ready), view(10), view(11)).ok().unwrap();
    assert!(plan.uploads.creates.is_empty());
    assert_eq!(plan.dispatches[0].dispatch.program, ShaderProgram::Update);
    assert_eq!(sched.render.state, ComputeShaderState::Update);
    assert_eq!(sched.simulation.state, ComputeShaderState::Update);
}

#[test]
fn scheduler_reports_missing_views() {
    let mut sched = FrameScheduler::new();
    let st = state();
    assert_eq!(
        sched.tick(&st, report(Ready, Ready), None, view(11)).err(),
        Some(FrameError::Bind(BindError::MissingOutputImage))
    );
    assert_eq!(
        sched.tick(&st, report(Ready, Ready), view(10), None).err(),
        Some(FrameError::Bind(BindError::MissingWeightsImage))
    );
    assert_eq!(sched.render.state, ComputeShaderState::Loading);
}

#[test]
fn scheduler_reports_compile_failure() {
    let mut sched = FrameScheduler::new();
    let st = state();
    let r = CompileReport {
        render_init: Ready,
        render_update: Pending,
        simulation_init: Failed,
        simulation_update: Pending,
    };
    assert_eq!(
        sched.tick(&st, r, view(10), view(11)).err(),
        Some(FrameError::Pipeline(PipelineError::CompileFailed {
            stage: StageKind::Simulation,
            program: ShaderProgram::Init
        }))
    );
    assert_eq!(sched.render.state, ComputeShaderState::Init);
    assert_eq!(sched.simulation.state, ComputeShaderState::Loading);
}
