//! Per-stage readiness state machine and dispatch selection.

use vstd::prelude::*;

use crate::config::{
    DOMAIN_HEIGHT, DOMAIN_WIDTH, MAX_PARTICLES, PARTICLE_WORKGROUP_WIDTH, WORKGROUP_HEIGHT,
    WORKGROUP_WIDTH,
};

verus! {

/// Readiness of one compute stage: `Loading -> Init -> Update`, never back.
#[derive(Clone, Copy, Debug, PartialEq, Eq, Structural)]
pub enum ComputeShaderState {
    /// The initialization program is still compiling; nothing is dispatched.
    Loading,
    /// The initialization program is ready and is dispatched.
    Init,
    /// The per-frame program is ready and is dispatched every frame.
    Update,
}

/// What the asynchronous compiler reports for one program.
#[derive(Clone, Copy, Debug, PartialEq, Eq, Structural)]
pub enum CompileStatus {
    Pending,
    Ready,
    Failed,
}

/// The two entry points that each compute program exposes.
#[derive(Clone, Copy, Debug, PartialEq, Eq, Structural)]
pub enum ShaderProgram {
    /// Entry point `init`.
    Init,
    /// Entry point `update`.
    Update,
}

/// The two compute stages of a frame.
#[derive(Clone, Copy, Debug, PartialEq, Eq, Structural)]
pub enum StageKind {
    /// Advances the particles.
    Simulation,
    /// Draws the particles into the output texture.
    Render,
}

/// One dispatch: which program, and how many work-groups along each axis.
#[derive(Clone, Copy, Debug, PartialEq, Eq, Structural)]
pub struct Dispatch {
    pub program: ShaderProgram,
    pub x: u32,
    pub y: u32,
    pub z: u32,
}

/// A compute program failed to compile; this is not recoverable.
#[derive(Clone, Copy, Debug, PartialEq, Eq, Structural)]
pub enum PipelineError {
    CompileFailed { stage: StageKind, program: ShaderProgram },
}

/// The least number of groups of size `d` that cover `n` items.
pub open spec fn ceil_div(n: int, d: int) -> int {
    if n % d == 0 {
        n / d
    } else {
        n / d + 1
    }
}

/// Number of work-groups of width `group` that cover `extent` invocations.
pub fn workgroup_count(extent: u32, group: u32) -> (r: u32)
    requires
        group > 0,
    ensures
        r == ceil_div(extent as int, group as int),
{
    let q = extent / group;
    if extent % group == 0 {
        q
    } else {
        assert(q < u32::MAX) by (nonlinear_arith)
            requires
                q == extent / group,
                group >= 2,
        ;
        q + 1
    }
}

impl ComputeShaderState {
    /// Position of the state along `Loading -> Init -> Update`.
    pub open spec fn rank(self) -> nat {
        match self {
            ComputeShaderState::Loading => 0,
            ComputeShaderState::Init => 1,
            ComputeShaderState::Update => 2,
        }
    }

    /// One readiness check: `Loading` looks at the initialization program,
    /// `Init` at the per-frame program. `Err` names the program that failed.
    pub open spec fn step(self, init: CompileStatus, update: CompileStatus) -> Result<
        ComputeShaderState,
        ShaderProgram,
    > {
        match self {
            ComputeShaderState::Loading => match init {
                CompileStatus::Ready => Ok(ComputeShaderState::Init),
                CompileStatus::Failed => Err(ShaderProgram::Init),
                CompileStatus::Pending => Ok(ComputeShaderState::Loading),
            },
            ComputeShaderState::Init => match update {
                CompileStatus::Ready => Ok(ComputeShaderState::Update),
                CompileStatus::Failed => Err(ShaderProgram::Update),
                CompileStatus::Pending => Ok(ComputeShaderState::Init),
            },
            ComputeShaderState::Update => Ok(ComputeShaderState::Update),
        }
    }

    /// The program that a stage in this state dispatches, if any.
    pub open spec fn program_spec(self) -> Option<ShaderProgram> {
        match self {
            ComputeShaderState::Loading => None,
            ComputeShaderState::Init => Some(ShaderProgram::Init),
            ComputeShaderState::Update => Some(ShaderProgram::Update),
        }
    }

    /// Performs one readiness check.
    pub fn advance(self, init: CompileStatus, update: CompileStatus) -> (r: Result<
        ComputeShaderState,
        ShaderProgram,
    >)
        ensures
            r == self.step(init, update),
    {
        match self {
            ComputeShaderState::Loading => match init {
                CompileStatus::Ready => Ok(ComputeShaderState::Init),
                CompileStatus::Failed => Err(ShaderProgram::Init),
                CompileStatus::Pending => Ok(ComputeShaderState::Loading),
            },
            ComputeShaderState::Init => match update {
                CompileStatus::Ready => Ok(ComputeShaderState::Update),
                CompileStatus::Failed => Err(ShaderProgram::Update),
                CompileStatus::Pending => Ok(ComputeShaderState::Init),
            },
            ComputeShaderState::Update => Ok(ComputeShaderState::Update),
        }
    }

    /// The program to dispatch in this state; none while loading.
    pub fn program(self) -> (r: Option<ShaderProgram>)
        ensures
            r == self.program_spec(),
    {
        match self {
            ComputeShaderState::Loading => None,
            ComputeShaderState::Init => Some(ShaderProgram::Init),
            ComputeShaderState::Update => Some(ShaderProgram::Update),
        }
    }
}

impl ShaderProgram {
    /// The entry point's name in the compute program.
    pub fn entry_point(self) -> (r: &'static str)
        ensures
            self == ShaderProgram::Init ==> r@ == "init"@,
            self == ShaderProgram::Update ==> r@ == "update"@,
    {
        match self {
            ShaderProgram::Init => "init",
            ShaderProgram::Update => "update",
        }
    }
}

impl StageKind {
    /// Work-groups per dispatch. The render stage covers the output texture
    /// with `WORKGROUP_WIDTH x WORKGROUP_HEIGHT` groups; the simulation stage
    /// runs one invocation per particle, in groups of
    /// `PARTICLE_WORKGROUP_WIDTH`.
    pub open spec fn groups_spec(self) -> (int, int, int) {
        match self {
            StageKind::Render => (
                ceil_div(DOMAIN_WIDTH as int, WORKGROUP_WIDTH as int),
                ceil_div(DOMAIN_HEIGHT as int, WORKGROUP_HEIGHT as int),
                1,
            ),
            StageKind::Simulation => (
                ceil_div(MAX_PARTICLES as int, PARTICLE_WORKGROUP_WIDTH as int),
                1,
                1,
            ),
        }
    }

    /// What a stage of this kind dispatches in `state`.
    pub open spec fn dispatch_spec(self, state: ComputeShaderState) -> Option<Dispatch> {
        match state.program_spec() {
            None => None,
            Some(p) => Some(
                Dispatch {
                    program: p,
                    x: self.groups_spec().0 as u32,
                    y: self.groups_spec().1 as u32,
                    z: self.groups_spec().2 as u32,
                },
            ),
        }
    }

    /// One readiness check of a stage of this kind in `state`.
    pub open spec fn poll_spec(
        self,
        state: ComputeShaderState,
        init: CompileStatus,
        update: CompileStatus,
    ) -> Result<ComputeShaderState, PipelineError> {
        match state.step(init, update) {
            Ok(s) => Ok(s),
            Err(p) => Err(PipelineError::CompileFailed { stage: self, program: p }),
        }
    }

    /// Work-groups per dispatch along x, y and z.
    pub fn workgroups(self) -> (r: (u32, u32, u32))
        ensures
            r.0 == self.groups_spec().0,
            r.1 == self.groups_spec().1,
            r.2 == self.groups_spec().2,
    {
        match self {
            StageKind::Render => (
                workgroup_count(DOMAIN_WIDTH, WORKGROUP_WIDTH),
                workgroup_count(DOMAIN_HEIGHT, WORKGROUP_HEIGHT),
                1,
            ),
            StageKind::Simulation => (
                workgroup_count(MAX_PARTICLES as u32, PARTICLE_WORKGROUP_WIDTH),
                1,
                1,
            ),
        }
    }

    /// Checks readiness once; a failed compilation is reported as an error.
    pub fn poll_ready(
        self,
        state: ComputeShaderState,
        init: CompileStatus,
        update: CompileStatus,
    ) -> (r: Result<ComputeShaderState, PipelineError>)
        ensures
            r == self.poll_spec(state, init, update),
    {
        match state.advance(init, update) {
            Ok(s) => Ok(s),
            Err(p) => Err(PipelineError::CompileFailed { stage: self, program: p }),
        }
    }

    /// The dispatch that a stage of this kind issues in `state`.
    pub fn dispatch(self, state: ComputeShaderState) -> (r: Option<Dispatch>)
        ensures
            r == self.dispatch_spec(state),
    {
        match state.program() {
            None => None,
            Some(p) => {
                let (x, y, z) = self.workgroups();
                Some(Dispatch { program: p, x, y, z })
            },
        }
    }
}

/// The state after a sequence of per-tick readiness reports, each giving the
/// status of the initialization and of the per-frame program. A failed
/// compilation leaves the state where it was.
pub open spec fn run_polls(
    state: ComputeShaderState,
    polls: Seq<(CompileStatus, CompileStatus)>,
) -> ComputeShaderState
    decreases polls.len(),
{
    if polls.len() == 0 {
        state
    } else {
        let next = match state.step(polls[0].0, polls[0].1) {
            Ok(s) => s,
            Err(_) => state,
        };
        run_polls(next, polls.drop_first())
    }
}

/// Once a stage has reached `Update` it stays there, whatever the compiler
/// reports afterwards.
pub proof fn lemma_update_is_terminal(polls: Seq<(CompileStatus, CompileStatus)>)
    ensures
        run_polls(ComputeShaderState::Update, polls) == ComputeShaderState::Update,
    decreases polls.len(),
{
    if polls.len() > 0 {
        lemma_update_is_terminal(polls.drop_first());
    }
}

/// Readiness never regresses: after any sequence of reports the state is at
/// least as far along `Loading -> Init -> Update` as it started.
pub proof fn lemma_readiness_is_monotonic(
    state: ComputeShaderState,
    polls: Seq<(CompileStatus, CompileStatus)>,
)
    ensures
        run_polls(state, polls).rank() >= state.rank(),
    decreases polls.len(),
{
    if polls.len() > 0 {
        let next = match state.step(polls[0].0, polls[0].1) {
            Ok(s) => s,
            Err(_) => state,
        };
        lemma_readiness_is_monotonic(next, polls.drop_first());
    }
}

/// A stage dispatches exactly when it is past `Loading`, and then every
/// work-group count is positive.
pub proof fn lemma_dispatch_only_when_ready(kind: StageKind, state: ComputeShaderState)
    ensures
        kind.dispatch_spec(state) is None <==> state == ComputeShaderState::Loading,
        kind.dispatch_spec(state) is Some ==> {
            let d = kind.dispatch_spec(state).unwrap();
            d.x > 0 && d.y > 0 && d.z > 0
        },
{
}

/// Until the compiler has reported the initialization program ready, a stage
/// stays in `Loading` and issues no dispatch.
pub proof fn lemma_no_dispatch_before_init_ready(
    kind: StageKind,
    polls: Seq<(CompileStatus, CompileStatus)>,
)
    requires
        forall|i: int| 0 <= i < polls.len() ==> #[trigger] polls[i].0 != CompileStatus::Ready,
    ensures
        run_polls(ComputeShaderState::Loading, polls) == ComputeShaderState::Loading,
        kind.dispatch_spec(run_polls(ComputeShaderState::Loading, polls)) is None,
    decreases polls.len(),
{
    if polls.len() > 0 {
        assert(polls[0].0 != CompileStatus::Ready);
        let rest = polls.drop_first();
        assert forall|i: int| 0 <= i < rest.len() implies #[trigger] rest[i].0
            != CompileStatus::Ready by {
            assert(rest[i] == polls[i + 1]);
        }
        lemma_no_dispatch_before_init_ready(kind, rest);
    }
}

} // verus!
