//! One tick of the frame: snapshot, upload, bind, then dispatch — the render
//! stage before the simulation stage.

use vstd::prelude::*;

use crate::bind_groups::{BindError, TextureView};
use crate::render::{BufferManager, FrameUploads};
use crate::render_shader_pipeline::{
    queue_bind_group as queue_render_bind_group, render_entries, RenderBindGroup,
    RenderShaderNode,
};
use crate::sim_shader_pipeline::{
    queue_bind_group as queue_simulation_bind_group, simulation_entries, SimulationBindGroup,
    SimulationShaderNode,
};
use crate::snapshot::{extract_snapshot, FrameSnapshot, SimulationState};
use crate::stage::{
    CompileStatus, ComputeShaderState, Dispatch, PipelineError, StageKind,
};

verus! {

/// What the compiler reports this tick for the four programs.
#[derive(Clone, Copy, Debug, PartialEq, Eq, Structural)]
pub struct CompileReport {
    pub render_init: CompileStatus,
    pub render_update: CompileStatus,
    pub simulation_init: CompileStatus,
    pub simulation_update: CompileStatus,
}

/// A dispatch of one stage.
#[derive(Clone, Copy, Debug, PartialEq, Eq, Structural)]
pub struct StageDispatch {
    pub stage: StageKind,
    pub dispatch: Dispatch,
}

/// Everything one tick asks of the device, in the order it is to be done.
pub struct FramePlan {
    pub snapshot: FrameSnapshot,
    pub uploads: FrameUploads,
    pub render_bind_group: RenderBindGroup,
    pub simulation_bind_group: SimulationBindGroup,
    pub dispatches: Vec<StageDispatch>,
}

/// Why a tick could not be planned; both are fatal.
#[derive(Clone, Copy, Debug, PartialEq, Eq, Structural)]
pub enum FrameError {
    Bind(BindError),
    Pipeline(PipelineError),
}

/// The buffers and the two stage nodes, carried from tick to tick.
pub struct FrameScheduler {
    pub buffers: BufferManager,
    pub render: RenderShaderNode,
    pub simulation: SimulationShaderNode,
}

/// The dispatch of `kind` in `state`, as a sequence of zero or one.
pub open spec fn stage_dispatches(kind: StageKind, state: ComputeShaderState) -> Seq<StageDispatch> {
    match kind.dispatch_spec(state) {
        None => Seq::empty(),
        Some(d) => seq![StageDispatch { stage: kind, dispatch: d }],
    }
}

/// The dispatches of a tick once the render stage is in `render` and the
/// simulation stage in `simulation`: render first.
pub open spec fn tick_dispatches(
    render: ComputeShaderState,
    simulation: ComputeShaderState,
) -> Seq<StageDispatch> {
    stage_dispatches(StageKind::Render, render) + stage_dispatches(StageKind::Simulation, simulation)
}

impl FrameScheduler {
    /// No buffer yet, both stages loading.
    pub fn new() -> (r: FrameScheduler)
        ensures
            r.wf(),
            r.buffers == BufferManager::new_spec(),
            r.render.state == ComputeShaderState::Loading,
            r.simulation.state == ComputeShaderState::Loading,
    {
        FrameScheduler {
            buffers: BufferManager::new(),
            render: RenderShaderNode::default(),
            simulation: SimulationShaderNode::default(),
        }
    }

    /// The buffer manager is consistent.
    pub open spec fn wf(&self) -> bool {
        self.buffers.wf()
    }

    /// The outcome of planning one frame from this scheduler, leaving it as
    /// `after`: the buffers are prepared; a missing output view, then a
    /// missing weights view, then a failed compilation of the render stage,
    /// then of the simulation stage, ends the frame with that error; a
    /// stage's state changes only through its own successful check. A planned
    /// frame uploads the plan's snapshot, binds the current resources and
    /// lists the dispatches of both stages, render first.
    pub open spec fn planned(
        &self,
        after: FrameScheduler,
        report: CompileReport,
        output_view: Option<TextureView>,
        weights_view: Option<TextureView>,
        r: Result<FramePlan, FrameError>,
    ) -> bool {
        let rp = StageKind::Render.poll_spec(
            self.render.state,
            report.render_init,
            report.render_update,
        );
        let sp = StageKind::Simulation.poll_spec(
            self.simulation.state,
            report.simulation_init,
            report.simulation_update,
        );
        let unchanged = after.render == self.render && after.simulation == self.simulation;
        &&& after.wf()
        &&& after.buffers == self.buffers.prepared()
        &&& output_view is None ==> r == Err::<FramePlan, FrameError>(
            FrameError::Bind(BindError::MissingOutputImage),
        ) && unchanged
        &&& output_view is Some && weights_view is None ==> r == Err::<FramePlan, FrameError>(
            FrameError::Bind(BindError::MissingWeightsImage),
        ) && unchanged
        &&& output_view is Some && weights_view is Some ==> match (rp, sp) {
            (Err(e), _) => r == Err::<FramePlan, FrameError>(FrameError::Pipeline(e)) && unchanged,
            (Ok(rs), Err(e)) => r == Err::<FramePlan, FrameError>(FrameError::Pipeline(e))
                && after.render.state == rs && after.simulation == self.simulation,
            (Ok(rs), Ok(ss)) => {
                let bufs = after.buffers;
                &&& after.render.state == rs
                &&& after.simulation.state == ss
                &&& r matches Ok(plan)
                &&& self.buffers.uploads_spec(&plan.uploads, &plan.snapshot)
                &&& plan.render_bind_group.0@ == render_entries(
                    output_view.unwrap(),
                    bufs.particles.buffer.unwrap(),
                    bufs.colours.buffer.unwrap(),
                )
                &&& plan.simulation_bind_group.0@ == simulation_entries(
                    bufs.particles.buffer.unwrap(),
                    weights_view.unwrap(),
                )
                &&& plan.dispatches@ == tick_dispatches(rs, ss)
            },
        }
    }

    /// Plans one frame from a snapshot already taken: prepares the buffers
    /// with it, builds both bind groups (render first), checks both stages'
    /// readiness (render first) and lists the dispatches (see `planned`).
    pub fn plan_frame(
        &mut self,
        snapshot: FrameSnapshot,
        report: CompileReport,
        output_view: Option<TextureView>,
        weights_view: Option<TextureView>,
    ) -> (r: Result<FramePlan, FrameError>)
        requires
            old(self).wf(),
            snapshot.wf(),
        ensures
            old(self).planned(*final(self), report, output_view, weights_view, r),
            r matches Ok(plan) ==> plan.snapshot == snapshot,
    {
        let uploads = self.buffers.prepare_buffers(&snapshot);
        let render_bind_group = match queue_render_bind_group(
            output_view,
            &self.buffers.particles,
            &self.buffers.colours,
        ) {
            Ok(g) => g,
            Err(e) => return Err(FrameError::Bind(e)),
        };
        let simulation_bind_group = match queue_simulation_bind_group(
            &self.buffers.particles,
            weights_view,
        ) {
            Ok(g) => g,
            Err(e) => return Err(FrameError::Bind(e)),
        };
        match self.render.update(report.render_init, report.render_update) {
            Ok(()) => {},
            Err(e) => return Err(FrameError::Pipeline(e)),
        }
        match self.simulation.update(report.simulation_init, report.simulation_update) {
            Ok(()) => {},
            Err(e) => return Err(FrameError::Pipeline(e)),
        }
        let mut dispatches: Vec<StageDispatch> = Vec::new();
        if let Some(d) = self.render.run() {
            dispatches.push(StageDispatch { stage: StageKind::Render, dispatch: d });
        }
        if let Some(d) = self.simulation.run() {
            dispatches.push(StageDispatch { stage: StageKind::Simulation, dispatch: d });
        }
        assert(dispatches@ =~= tick_dispatches(self.render.state, self.simulation.state));
        Ok(FramePlan { snapshot, uploads, render_bind_group, simulation_bind_group, dispatches })
    }

    /// Plans one tick: copies `state` into a snapshot, then plans the frame
    /// from it (see `planned`).
    pub fn tick(
        &mut self,
        state: &SimulationState,
        report: CompileReport,
        output_view: Option<TextureView>,
        weights_view: Option<TextureView>,
    ) -> (r: Result<FramePlan, FrameError>)
        requires
            old(self).wf(),
            state.wf(),
        ensures
            old(self).planned(*final(self), report, output_view, weights_view, r),
            r matches Ok(plan) ==> plan.snapshot.mirrors(state),
    {
        let snapshot = extract_snapshot(state);
        self.plan_frame(snapshot, report, output_view, weights_view)
    }
}

/// A tick in which a stage is loading plans no dispatch for it; a stage past
/// loading gets exactly one, of its current program.
pub proof fn lemma_loading_stage_not_dispatched(
    render: ComputeShaderState,
    simulation: ComputeShaderState,
    kind: StageKind,
)
    ensures
        ({
            let state = if kind == StageKind::Render {
                render
            } else {
                simulation
            };
            let mine = tick_dispatches(render, simulation).filter(
                |d: StageDispatch| d.stage == kind,
            );
            &&& state == ComputeShaderState::Loading ==> mine.len() == 0
            &&& state != ComputeShaderState::Loading ==> mine.len() == 1 && mine[0].dispatch
                == kind.dispatch_spec(state).unwrap()
        }),
{
    let a = stage_dispatches(StageKind::Render, render);
    let b = stage_dispatches(StageKind::Simulation, simulation);
    let f = |d: StageDispatch| d.stage == kind;
    Seq::filter_distributes_over_add(a, b, f);
    reveal_with_fuel(Seq::filter, 2);
    assert(a.len() <= 1 && b.len() <= 1);
    if a.len() == 1 {
        assert(a.drop_last() =~= Seq::<StageDispatch>::empty());
    }
    if b.len() == 1 {
        assert(b.drop_last() =~= Seq::<StageDispatch>::empty());
    }
}

} // verus!
