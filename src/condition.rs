//! Evaluates a step's condition against the facts of the current run.

use crate::types::{ConditionDecision, FlowInfo, RustChannel, RustInfo, RustVersionCondition, Step, TaskCondition};
use crate::version::{is_newer, newer_spec};
use vstd::prelude::*;

verus! {

/// `name` is one of `names`.
pub open spec fn listed(names: Seq<String>, name: Seq<char>) -> bool {
    exists|i: int| 0 <= i < names.len() && (#[trigger] names[i])@ == name
}

pub open spec fn platform_ok(c: TaskCondition, platform: Seq<char>) -> bool {
    match c.platforms {
        Some(names) => listed(names@, platform),
        None => true,
    }
}

pub open spec fn profile_ok(c: TaskCondition, profile: Seq<char>) -> bool {
    match c.profiles {
        Some(names) => listed(names@, profile),
        None => true,
    }
}

/// The lowercase name of a channel.
pub open spec fn channel_name(ch: RustChannel) -> Seq<char> {
    match ch {
        RustChannel::Stable => "stable"@,
        RustChannel::Beta => "beta"@,
        RustChannel::Nightly => "nightly"@,
    }
}

/// An unknown channel satisfies no channel constraint.
pub open spec fn channel_ok(c: TaskCondition, info: RustInfo) -> bool {
    match c.channels {
        Some(names) => match info.channel {
            Some(ch) => listed(names@, channel_name(ch)),
            None => false,
        },
        None => true,
    }
}

/// Each (name, value) pair is set in `env` to exactly that value.
pub open spec fn all_match(pairs: Seq<(String, String)>, env: Map<Seq<char>, Seq<char>>) -> bool {
    forall|i: int|
        0 <= i < pairs.len() ==> env.contains_key((#[trigger] pairs[i]).0@) && env[pairs[i].0@]
            == pairs[i].1@
}

/// Each of `names` is set in `env`.
pub open spec fn all_set(names: Seq<String>, env: Map<Seq<char>, Seq<char>>) -> bool {
    forall|i: int| 0 <= i < names.len() ==> env.contains_key((#[trigger] names[i])@)
}

/// None of `names` is set in `env`.
pub open spec fn none_set(names: Seq<String>, env: Map<Seq<char>, Seq<char>>) -> bool {
    forall|i: int| 0 <= i < names.len() ==> !env.contains_key((#[trigger] names[i])@)
}

pub open spec fn env_ok(c: TaskCondition, env: Map<Seq<char>, Seq<char>>) -> bool {
    match c.env {
        Some(pairs) => all_match(pairs@, env),
        None => true,
    }
}

pub open spec fn env_set_ok(c: TaskCondition, env: Map<Seq<char>, Seq<char>>) -> bool {
    match c.env_set {
        Some(names) => all_set(names@, env),
        None => true,
    }
}

pub open spec fn env_not_set_ok(c: TaskCondition, env: Map<Seq<char>, Seq<char>>) -> bool {
    match c.env_not_set {
        Some(names) => none_set(names@, env),
        None => true,
    }
}

/// The version range: with the current version unknown it holds; else each
/// present field must hold, `min` and `max` inclusively.
pub open spec fn version_range_ok(rv: RustVersionCondition, current: Option<String>) -> bool {
    match current {
        None => true,
        Some(cur) => {
            &&& match rv.min {
                Some(m) => m@ == cur@ || newer_spec(cur@, m@, true),
                None => true,
            }
            &&& match rv.max {
                Some(m) => m@ == cur@ || newer_spec(m@, cur@, true),
                None => true,
            }
            &&& match rv.equal {
                Some(e) => e@ == cur@,
                None => true,
            }
        },
    }
}

pub open spec fn rust_version_ok(c: TaskCondition, info: RustInfo) -> bool {
    match c.rust_version {
        Some(rv) => version_range_ok(rv, info.version),
        None => true,
    }
}

/// Every structural check of `c` holds against `flow`.
pub open spec fn condition_holds(c: TaskCondition, flow: FlowInfo) -> bool {
    &&& platform_ok(c, flow.platform@)
    &&& profile_ok(c, flow.profile@)
    &&& channel_ok(c, flow.rust_info)
    &&& env_ok(c, flow.env@)
    &&& env_set_ok(c, flow.env@)
    &&& env_not_set_ok(c, flow.env@)
    &&& rust_version_ok(c, flow.rust_info)
}

/// The step's criteria hold; a step without a condition passes.
pub open spec fn criteria_hold(flow: FlowInfo, step: Step) -> bool {
    match step.condition {
        Some(c) => condition_holds(c, flow),
        None => true,
    }
}

/// The decision before any script runs: the script is wanted only when the
/// criteria hold.
pub open spec fn decision_spec(flow: FlowInfo, step: Step) -> ConditionDecision {
    if !criteria_hold(flow, step) {
        ConditionDecision::Fail
    } else if step.condition_script is Some {
        ConditionDecision::RunScript
    } else {
        ConditionDecision::Pass
    }
}

/// The final answer, given the script's exit status where one ran (`None`
/// when it could not be started).
pub open spec fn outcome_spec(d: ConditionDecision, exit_code: Option<i32>) -> bool {
    match d {
        ConditionDecision::Pass => true,
        ConditionDecision::Fail => false,
        ConditionDecision::RunScript => exit_code == Some(0i32),
    }
}

fn contains_name(names: &Vec<String>, name: &String) -> (r: bool)
    ensures
        r == listed(names@, name@),
{
    let mut i: usize = 0;
    while i < names.len()
        invariant
            0 <= i <= names@.len(),
            forall|j: int| 0 <= j < i ==> (#[trigger] names@[j])@ != name@,
        decreases names.len() - i,
    {
        if names[i] == *name {
            return true;
        }
        i += 1;
    }
    false
}

pub fn validate_platform(condition: &TaskCondition, flow_info: &FlowInfo) -> (r: bool)
    ensures
        r == platform_ok(*condition, flow_info.platform@),
{
    match &condition.platforms {
        Some(names) => contains_name(names, &flow_info.platform),
        None => true,
    }
}

pub fn validate_profile(condition: &TaskCondition, flow_info: &FlowInfo) -> (r: bool)
    ensures
        r == profile_ok(*condition, flow_info.profile@),
{
    match &condition.profiles {
        Some(names) => contains_name(names, &flow_info.profile),
        None => true,
    }
}

fn channel_name_string(ch: RustChannel) -> (r: String)
    ensures
        r@ == channel_name(ch),
{
    match ch {
        RustChannel::Stable => String::from_str("stable"),
        RustChannel::Beta => String::from_str("beta"),
        RustChannel::Nightly => String::from_str("nightly"),
    }
}

pub fn validate_channel(condition: &TaskCondition, flow_info: &FlowInfo) -> (r: bool)
    ensures
        r == channel_ok(*condition, flow_info.rust_info),
{
    match &condition.channels {
        Some(names) => match flow_info.rust_info.channel {
            Some(ch) => contains_name(names, &channel_name_string(ch)),
            None => false,
        },
        None => true,
    }
}

pub fn validate_env(condition: &TaskCondition, flow_info: &FlowInfo) -> (r: bool)
    ensures
        r == env_ok(*condition, flow_info.env@),
{
    match &condition.env {
        Some(pairs) => {
            let mut i: usize = 0;
            while i < pairs.len()
                invariant
                    condition.env == Some(*pairs),
                    0 <= i <= pairs@.len(),
                    all_match(pairs@.take(i as int), flow_info.env@),
                decreases pairs.len() - i,
            {
                let matched = match flow_info.env.get(&pairs[i].0) {
                    Some(value) => *value == pairs[i].1,
                    None => false,
                };
                if !matched {
                    assert(!(flow_info.env@.contains_key(pairs@[i as int].0@) && flow_info.env@[pairs@[i as int].0@] == pairs@[i as int].1@));
                    return false;
                }
                i += 1;
            }
            assert(pairs@.take(i as int) =~= pairs@);
            true
        },
        None => true,
    }
}

pub fn validate_env_set(condition: &TaskCondition, flow_info: &FlowInfo) -> (r: bool)
    ensures
        r == env_set_ok(*condition, flow_info.env@),
{
    match &condition.env_set {
        Some(names) => {
            let mut i: usize = 0;
            while i < names.len()
                invariant
                    condition.env_set == Some(*names),
                    0 <= i <= names@.len(),
                    all_set(names@.take(i as int), flow_info.env@),
                decreases names.len() - i,
            {
                if !flow_info.env.contains(&names[i]) {
                    assert(!flow_info.env@.contains_key(names@[i as int]@));
                    return false;
                }
                i += 1;
            }
            assert(names@.take(i as int) =~= names@);
            true
        },
        None => true,
    }
}

pub fn validate_env_not_set(condition: &TaskCondition, flow_info: &FlowInfo) -> (r: bool)
    ensures
        r == env_not_set_ok(*condition, flow_info.env@),
{
    match &condition.env_not_set {
        Some(names) => {
            let mut i: usize = 0;
            while i < names.len()
                invariant
                    condition.env_not_set == Some(*names),
                    0 <= i <= names@.len(),
                    none_set(names@.take(i as int), flow_info.env@),
                decreases names.len() - i,
            {
                if flow_info.env.contains(&names[i]) {
                    assert(flow_info.env@.contains_key(names@[i as int]@));
                    return false;
                }
                i += 1;
            }
            assert(names@.take(i as int) =~= names@);
            true
        },
        None => true,
    }
}

pub fn validate_rust_version_condition(rust_info: &RustInfo, condition: &RustVersionCondition) -> (r: bool)
    ensures
        r == version_range_ok(*condition, rust_info.version),
{
    match &rust_info.version {
        Some(current) => {
            let mut valid = match &condition.min {
                Some(version) => *version == *current || is_newer(current, version, true),
                None => true,
            };
            if valid {
                valid = match &condition.max {
                    Some(version) => *version == *current || is_newer(version, current, true),
                    None => true,
                };
            }
            if valid {
                valid = match &condition.equal {
                    Some(version) => *version == *current,
                    None => true,
                };
            }
            valid
        },
        None => true,
    }
}

pub fn validate_rust_version(condition: &TaskCondition, flow_info: &FlowInfo) -> (r: bool)
    ensures
        r == rust_version_ok(*condition, flow_info.rust_info),
{
    match &condition.rust_version {
        Some(rv) => validate_rust_version_condition(&flow_info.rust_info, rv),
        None => true,
    }
}

/// Runs the structural checks in order, stopping at the first that fails.
pub fn validate_criteria(flow_info: &FlowInfo, step: &Step) -> (r: bool)
    ensures
        r == criteria_hold(*flow_info, *step),
{
    match &step.condition {
        Some(condition) => {
            validate_platform(condition, flow_info)
                && validate_profile(condition, flow_info)
                && validate_channel(condition, flow_info)
                && validate_env(condition, flow_info)
                && validate_env_set(condition, flow_info)
                && validate_env_not_set(condition, flow_info)
                && validate_rust_version(condition, flow_info)
        },
        None => true,
    }
}

/// The script gate: a script passes when it exits with status 0.
pub fn validate_script(exit_code: i32) -> (r: bool)
    ensures
        r == (exit_code == 0),
{
    exit_code == 0
}

/// Decides a step from its criteria. The script is asked for only when the
/// criteria hold, so a failing criterion never starts it.
pub fn validate_condition(flow_info: &FlowInfo, step: &Step) -> (r: ConditionDecision)
    ensures
        r == decision_spec(*flow_info, *step),
        r == ConditionDecision::RunScript ==> criteria_hold(*flow_info, *step),
{
    if !validate_criteria(flow_info, step) {
        ConditionDecision::Fail
    } else if step.condition_script.is_some() {
        ConditionDecision::RunScript
    } else {
        ConditionDecision::Pass
    }
}

impl ConditionDecision {
    /// Whether the step may run, given the condition script's exit status
    /// where it was run (`None` when it could not be started). The status is
    /// read only for `RunScript`.
    pub fn outcome(self, exit_code: Option<i32>) -> (r: bool)
        ensures
            r == outcome_spec(self, exit_code),
    {
        match self {
            ConditionDecision::Pass => true,
            ConditionDecision::Fail => false,
            ConditionDecision::RunScript => match exit_code {
                Some(code) => validate_script(code),
                None => false,
            },
        }
    }
}

/// Every field of `c` is absent.
pub open spec fn all_absent(c: TaskCondition) -> bool {
    &&& c.platforms is None
    &&& c.profiles is None
    &&& c.channels is None
    &&& c.env is None
    &&& c.env_set is None
    &&& c.env_not_set is None
    &&& c.rust_version is None
}

/// A step whose condition constrains nothing and that has no script may
/// run, whatever the facts of the run.
pub proof fn lemma_unconstrained_step_passes(flow: FlowInfo, step: Step, exit_code: Option<i32>)
    requires
        step.condition is None || all_absent(step.condition->Some_0),
        step.condition_script is None,
    ensures
        decision_spec(flow, step) == ConditionDecision::Pass,
        outcome_spec(decision_spec(flow, step), exit_code),
{
}

/// For one variable name, requiring it to be set and requiring it to be
/// unset are exact complements over the same environment.
pub proof fn lemma_env_set_complements_env_not_set(
    set_condition: TaskCondition,
    unset_condition: TaskCondition,
    name: String,
    env: Map<Seq<char>, Seq<char>>,
)
    requires
        set_condition.env_set is Some,
        set_condition.env_set->Some_0@ == seq![name],
        unset_condition.env_not_set is Some,
        unset_condition.env_not_set->Some_0@ == seq![name],
    ensures
        env_set_ok(set_condition, env) == !env_not_set_ok(unset_condition, env),
{
    let set_names = set_condition.env_set->Some_0@;
    assert(set_names[0] == name);
    assert(all_set(set_names, env) == env.contains_key(name@));
}

/// With the current toolchain version unknown, every version constraint holds.
pub proof fn lemma_unknown_version_passes(c: TaskCondition, info: RustInfo)
    requires
        info.version is None,
    ensures
        rust_version_ok(c, info),
        forall|rv: RustVersionCondition| version_range_ok(rv, info.version),
{
}

/// When the platform is excluded, the decision is `Fail`: the condition
/// script is never asked for.
pub proof fn lemma_excluded_platform_skips_script(flow: FlowInfo, step: Step)
    requires
        step.condition is Some,
        !platform_ok(step.condition->Some_0, flow.platform@),
    ensures
        decision_spec(flow, step) == ConditionDecision::Fail,
        decision_spec(flow, step) != ConditionDecision::RunScript,
{
}

/// The answer for a step is the conjunction of every structural check and of
/// the script gate: it is true exactly when each of them passes, so one
/// failing check, with the others passing, turns it false.
pub proof fn lemma_answer_is_conjunction(flow: FlowInfo, step: Step, exit_code: Option<i32>)
    ensures
        outcome_spec(decision_spec(flow, step), exit_code) == ({
            &&& step.condition is Some ==> platform_ok(step.condition->Some_0, flow.platform@)
            &&& step.condition is Some ==> profile_ok(step.condition->Some_0, flow.profile@)
            &&& step.condition is Some ==> channel_ok(step.condition->Some_0, flow.rust_info)
            &&& step.condition is Some ==> env_ok(step.condition->Some_0, flow.env@)
            &&& step.condition is Some ==> env_set_ok(step.condition->Some_0, flow.env@)
            &&& step.condition is Some ==> env_not_set_ok(step.condition->Some_0, flow.env@)
            &&& step.condition is Some ==> rust_version_ok(step.condition->Some_0, flow.rust_info)
            &&& step.condition_script is Some ==> exit_code == Some(0i32)
        }),
{
}

} // verus!
