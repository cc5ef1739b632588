//! The bridge between the simulation context and the render context: once
//! per frame the authoritative state is copied into a snapshot that the render
//! side owns alone.

use vstd::prelude::*;

use crate::objects::{ParticleColours, Particles, RenderImage, Weights, WeightsImage};

verus! {

/// The state that the simulation context owns and mutates.
pub struct SimulationState {
    pub particles: Particles,
    pub weights: Weights,
    pub colours: ParticleColours,
    pub render_image: RenderImage,
    pub weights_image: WeightsImage,
}

/// The render context's copy of the simulation state for one frame.
pub struct FrameSnapshot {
    pub particles: Particles,
    pub weights: Weights,
    pub colours: ParticleColours,
    pub render_image: RenderImage,
    pub weights_image: WeightsImage,
}

impl SimulationState {
    /// Each resource has its fixed size.
    pub open spec fn wf(&self) -> bool {
        &&& self.particles.wf()
        &&& self.weights.wf()
        &&& self.colours.wf()
    }

    /// The state at start-up: randomly placed particles, a zero weights
    /// matrix and zero colours.
    pub fn new(render_image: RenderImage, weights_image: WeightsImage) -> (r: SimulationState)
        ensures
            r.wf(),
            forall|i: int| 0 <= i < r.particles@.len() ==> #[trigger] r.particles@[i].in_domain(),
            forall|k: int| 0 <= k < r.weights@.len() ==> #[trigger] r.weights@[k] == 0,
            forall|k: int|
                0 <= k < r.colours@.len() ==> #[trigger] r.colours@[k]@ == seq![0u32, 0u32, 0u32, 0u32],
            r.render_image == render_image,
            r.weights_image == weights_image,
    {
        SimulationState {
            particles: Particles::default(),
            weights: Weights::default(),
            colours: ParticleColours::default(),
            render_image,
            weights_image,
        }
    }
}

impl FrameSnapshot {
    /// Each resource has its fixed size.
    pub open spec fn wf(&self) -> bool {
        &&& self.particles.wf()
        &&& self.weights.wf()
        &&& self.colours.wf()
    }

    /// This snapshot holds exactly what `state` holds.
    pub open spec fn mirrors(&self, state: &SimulationState) -> bool {
        &&& self.particles@ == state.particles@
        &&& self.weights@ == state.weights@
        &&& self.colours@ == state.colours@
        &&& self.render_image == state.render_image
        &&& self.weights_image == state.weights_image
    }
}

/// Copies the authoritative state into a fresh snapshot. Nothing is shared
/// between the two afterwards, so the render side never sees the simulation
/// side's later changes.
pub fn extract_snapshot(state: &SimulationState) -> (r: FrameSnapshot)
    ensures
        r.mirrors(state),
        state.wf() ==> r.wf(),
{
    FrameSnapshot {
        particles: state.particles.mirror(),
        weights: state.weights.mirror(),
        colours: state.colours.mirror(),
        render_image: state.render_image,
        weights_image: state.weights_image,
    }
}

} // verus!
