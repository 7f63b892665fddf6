//! The data the checks read: a step's condition and the facts of the current run.

use crate::environment::Environment;
use vstd::prelude::*;

verus! {

/// A toolchain release track.
#[derive(Clone, Copy, Debug, PartialEq, Eq, Structural)]
pub enum RustChannel {
    Stable,
    Beta,
    Nightly,
}

/// What the toolchain probe reported; each fact may be unknown.
pub struct RustInfo {
    /// Version of the compiler, such as "1.72.0".
    pub version: Option<String>,
    pub channel: Option<RustChannel>,
}

/// Inclusive bounds and an exact pin on the toolchain version.
pub struct RustVersionCondition {
    pub min: Option<String>,
    pub max: Option<String>,
    pub equal: Option<String>,
}

/// The declarative constraints of a step. An absent field constrains nothing.
pub struct TaskCondition {
    /// Platforms the step may run on.
    pub platforms: Option<Vec<String>>,
    /// Profiles the step may run under.
    pub profiles: Option<Vec<String>>,
    /// Accepted channels by name: "stable", "beta" or "nightly".
    pub channels: Option<Vec<String>>,
    /// Variables that must be set to exactly the given value.
    pub env: Option<Vec<(String, String)>>,
    /// Variables that must be set.
    pub env_set: Option<Vec<String>>,
    /// Variables that must not be set.
    pub env_not_set: Option<Vec<String>>,
    pub rust_version: Option<RustVersionCondition>,
}

/// The gating part of a step's configuration.
pub struct Step {
    pub condition: Option<TaskCondition>,
    /// Lines of a script whose exit status decides, once the condition holds.
    pub condition_script: Option<Vec<String>>,
    /// The program that runs the script, where not the default.
    pub script_runner: Option<String>,
}

/// The facts of the current run that the checks compare against.
pub struct FlowInfo {
    pub rust_info: RustInfo,
    /// Identifier of the host platform, such as "linux".
    pub platform: String,
    /// Name of the active profile.
    pub profile: String,
    pub env: Environment,
}

/// What the structural checks decided about a step.
#[derive(Clone, Copy, Debug, PartialEq, Eq, Structural)]
pub enum ConditionDecision {
    /// The step may run.
    Pass,
    /// The step may not run; no script is to be started.
    Fail,
    /// The criteria hold and the condition script decides: run it and hand
    /// its exit status to `ConditionDecision::outcome`.
    RunScript,
}

impl TaskCondition {
    /// A condition with every field absent.
    pub fn new() -> (r: Self)
        ensures
            r.platforms is None,
            r.profiles is None,
            r.channels is None,
            r.env is None,
            r.env_set is None,
            r.env_not_set is None,
            r.rust_version is None,
    {
        TaskCondition {
            platforms: None,
            profiles: None,
            channels: None,
            env: None,
            env_set: None,
            env_not_set: None,
            rust_version: None,
        }
    }
}

} // verus!
