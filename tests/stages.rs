use particle_sim::config::{DOMAIN_HEIGHT, DOMAIN_WIDTH, WORKGROUP_HEIGHT, WORKGROUP_WIDTH};
use particle_sim::graph::{graph_edges, tick_order, GraphNode};
use particle_sim::render_shader_pipeline::RenderShaderNode;
use particle_sim::sim_shader_pipeline::SimulationShaderNode;
use particle_sim::startup::{startup_action, unsupported_message, Startup};
use particle_sim::stage::{
    workgroup_count, CompileStatus, ComputeShaderState, Dispatch, PipelineError, ShaderProgram,
    StageKind,
};

use CompileStatus::{Failed, Pending, Ready};

#[test]
fn nodes_start_loading() {
    assert_eq!(SimulationShaderNode::default().state, ComputeShaderState::Loading);
    assert_eq!(RenderShaderNode::default().state, ComputeShaderState::Loading);
}

#[test]
fn loading_stage_issues_no_dispatch() {
    let mut render = RenderShaderNode::default();
    let mut sim = SimulationShaderNode::default();
    for _ in 0..5 {
        assert_eq!(render.update(Pending, Ready), Ok(()));
        assert_eq!(sim.update(Pending, Ready), Ok(()));
        assert_eq!(render.run(), None);
        assert_eq!(sim.run(), None);
    }
    assert_eq!(render.state, ComputeShaderState::Loading);
}

#[test]
fn dispatch_starts_after_init_is_ready() {
    let mut render = RenderShaderNode::default();
    assert_eq!(render.update(Ready, Pending), Ok(()));
    assert_eq!(render.state, ComputeShaderState::Init);
    let d = render.run().unwrap();
    assert_eq!(d.program, ShaderProgram::Init);
    assert!(d.x > 0 && d.y > 0 && d.z > 0);
}

#[test]
fn init_and_update_are_checked_on_separate_ticks() {
    let mut sim = SimulationShaderNode::default();
    assert_eq!(sim.update(Ready, Ready), Ok(()));
    assert_eq!(sim.state, ComputeShaderState::Init);
    assert_eq!(sim.update(Ready, Ready), Ok(()));
    assert_eq!(sim.state, ComputeShaderState::Update);
    assert_eq!(
        sim.run(),
        Some(Dispatch { program: ShaderProgram::Update, x: 1, y: 1, z: 1 })
    );
}

#[test]
fn update_state_never_regresses() {
    let mut sim = SimulationShaderNode { state: ComputeShaderState::Update };
    let reports = [(Pending, Pending), (Failed, Failed), (Ready, Pending), (Pending, Failed)];
    for (init, update) in reports {
        assert_eq!(sim.update(init, update), Ok(()));
        assert_eq!(sim.state, ComputeShaderState::Update);
    }
}

#[test]
fn readiness_rank_is_monotonic_over_a_run() {
    let rank = |s: ComputeShaderState| match s {
        ComputeShaderState::Loading => 0,
        ComputeShaderState::Init => 1,
        ComputeShaderState::Update => 2,
    };
    let mut node = RenderShaderNode::default();
    let reports = [
        (Pending, Pending),
        (Ready, Pending),
        (Pending, Pending),
        (Ready, Ready),
        (Pending, Pending),
        (Failed, Failed),
    ];
    let mut last = rank(node.state);
    for (init, update) in reports {
        let _ = node.update(init, update);
        assert!(rank(node.state) >= last);
        last = rank(node.state);
    }
    assert_eq!(node.state, ComputeShaderState::Update);
}

#[test]
fn failed_init_compilation_is_an_error() {
    let mut render = RenderShaderNode::default();
    assert_eq!(
        render.update(Failed, Ready),
        Err(PipelineError::CompileFailed {
            stage: StageKind::Render,
            program: ShaderProgram::Init
        })
    );
    assert_eq!(render.state, ComputeShaderState::Loading);
}

#[test]
fn failed_update_compilation_is_an_error() {
    let mut sim = SimulationShaderNode { state: ComputeShaderState::Init };
    assert_eq!(
        sim.update(Ready, Failed),
        Err(PipelineError::CompileFailed {
            stage: StageKind::Simulation,
            program: ShaderProgram::Update
        })
    );
    assert_eq!(sim.state, ComputeShaderState::Init);
}

#[test]
fn render_dispatch_is_64_by_64_by_1() {
    assert_eq!((DOMAIN_WIDTH, DOMAIN_HEIGHT), (512, 512));
    assert_eq!((WORKGROUP_WIDTH, WORKGROUP_HEIGHT), (8, 8));
    let render = RenderShaderNode { state: ComputeShaderState::Update };
    assert_eq!(
        render.run(),
        Some(Dispatch { program: ShaderProgram::Update, x: 64, y: 64, z: 1 })
    );
    assert_eq!(StageKind::Render.workgroups(), (64, 64, 1));
}

#[test]
fn simulation_dispatch_covers_every_particle() {
    let sim = SimulationShaderNode { state: ComputeShaderState::Init };
    assert_eq!(
        sim.run(),
        Some(Dispatch { program: ShaderProgram::Init, x: 1, y: 1, z: 1 })
    );
}

#[test]
fn workgroup_count_rounds_up() {
    assert_eq!(workgroup_count(512, 8), 64);
    assert_eq!(workgroup_count(513, 8), 65);
    assert_eq!(workgroup_count(7, 8), 1);
    assert_eq!(workgroup_count(0, 8), 0);
    assert_eq!(workgroup_count(u32::MAX, 2), 1 << 31);
    assert_eq!(workgroup_count(u32::MAX, 1), u32::MAX);
}

#[test]
fn entry_point_names() {
    assert_eq!(ShaderProgram::Init.entry_point(), "init");
    assert_eq!(ShaderProgram::Update.entry_point(), "update");
}

#[test]
fn frame_order_honours_declared_edges() {
    let order = tick_order();
    assert_eq!(order, vec![GraphNode::Render, GraphNode::Simulation, GraphNode::Display]);
    for (a, b) in graph_edges() {
        let ia = order.iter().position(|n| *n == a).unwrap();
        let ib = order.iter().position(|n| *n == b).unwrap();
        assert!(ia < ib);
    }
    assert_eq!(
        graph_edges(),
        vec![
            (GraphNode::Simulation, GraphNode::Display),
            (GraphNode::Render, GraphNode::Simulation)
        ]
    );
    assert_eq!(GraphNode::Simulation.label(), "simulation");
    assert_eq!(GraphNode::Render.label(), "render");
}

#[test]
fn startup_needs_a_compute_interface() {
    assert_eq!(startup_action(true, true), Startup::Run);
    assert_eq!(startup_action(false, true), Startup::Unsupported);
    assert_eq!(startup_action(true, false), Startup::Unsupported);
    assert!(unsupported_message().contains("WebGPU"));
}
