//! Start-up feature detection: without a compute API the simulation is not
//! started and the user is told why.

use vstd::prelude::*;

verus! {

/// What the program does at start-up.
#[derive(Clone, Copy, Debug, PartialEq, Eq, Structural)]
pub enum Startup {
    /// Start the simulation.
    Run,
    /// Show `unsupported_message` instead.
    Unsupported,
}

/// The simulation starts only when the platform exposes a GPU compute
/// interface that also reports its shading-language features.
pub fn startup_action(gpu_present: bool, has_language_features: bool) -> (r: Startup)
    ensures
        r == Startup::Run <==> gpu_present && has_language_features,
{
    if gpu_present && has_language_features {
        Startup::Run
    } else {
        Startup::Unsupported
    }
}

/// The message shown when the platform lacks a compute interface.
pub fn unsupported_message() -> (r: &'static str)
    ensures
        r@ == "Sorry, WebGPU is not supported on this browser. Only Chrome 113 and later is supported."@,
{
    "Sorry, WebGPU is not supported on this browser. Only Chrome 113 and later is supported."
}

} // verus!
