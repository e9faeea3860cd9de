//! The fan-out plan: what one run does before any child process exists. A
//! validated configuration either stops at the check-only confirmation, or
//! yields one task plan per host — its position, its tag, its color and the
//! full argument vector — which the supervisor then spawns all at once.

use vstd::prelude::*;

use crate::config::Config;
use crate::config::ValidationError;
use crate::config::config_ok;
use crate::config::error_for;
use crate::config::validate_config;
use crate::invoke::build_ssh_args;
use crate::invoke::ssh_args_spec;
use crate::tag::color_name;
use crate::tag::color_spec;
use crate::tag::tag_text;
use crate::tag::tag_text_spec;

verus! {

/// Everything one host's task needs: fixed at fan-out time, owned by the
/// task alone.
pub struct TaskPlan {
    /// The host's position in the configured list; it picks the color and
    /// never changes for the lifetime of the run.
    pub index: usize,
    /// The plain tag text `[hostname]`.
    pub tag: String,
    /// The palette color for this position.
    pub color: String,
    /// The argument vector for the external SSH client.
    pub args: Vec<String>,
}

/// The plan at position `i` belongs to the host at position `i` and carries
/// exactly that host's tag, color and argument vector.
pub open spec fn plan_ok(p: TaskPlan, c: Config, i: int) -> bool {
    &&& p.index as int == i
    &&& p.tag@ == tag_text_spec(c.hosts@[i].host@)
    &&& p.color@ == color_spec(i)
    &&& p.args.deep_view() == ssh_args_spec(c.hosts@[i], c.command@)
}

/// Builds one plan per host, in list order, each at its fixed position.
pub fn make_plans(config: &Config) -> (plans: Vec<TaskPlan>)
    ensures
        plans@.len() == config.hosts@.len(),
        forall|i: int| 0 <= i < plans@.len() ==> plan_ok(#[trigger] plans@[i], *config, i),
{
    let mut plans: Vec<TaskPlan> = Vec::new();
    let n = config.hosts.len();
    let mut i: usize = 0;
    while i < n
        invariant
            n == config.hosts@.len(),
            0 <= i <= n,
            plans@.len() == i,
            forall|j: int| 0 <= j < i ==> plan_ok(#[trigger] plans@[j], *config, j),
        decreases n - i,
    {
        let h = &config.hosts[i];
        let plan = TaskPlan {
            index: i,
            tag: tag_text(h.host.as_str()),
            color: color_name(i),
            args: build_ssh_args(h, &config.command),
        };
        plans.push(plan);
        i += 1;
    }
    plans
}

/// What a run does once the flags and the configuration are in hand.
pub enum RunDecision {
    /// Validation failed; the message is printed and the process exits
    /// non-zero before any remote work begins.
    Reject(ValidationError),
    /// Check-only mode with a valid configuration: print the confirmation
    /// line and spawn nothing.
    CheckOnly,
    /// Execute: spawn one task per plan, all at once, and join them all.
    Execute(Vec<TaskPlan>),
}

/// Decides the run. A configuration with a rejected entry is turned away with
/// the validator's exact error, whatever the mode; a valid one stops at the
/// confirmation in check-only mode — so check-only never produces a plan to
/// spawn — and otherwise fans out into one plan per host.
pub fn decide(config: &Config, check_config: bool, force: bool) -> (d: RunDecision)
    ensures
        match d {
            RunDecision::Reject(e) => error_for(e, config.hosts@, force),
            RunDecision::CheckOnly => config_ok(config.hosts@, force) && check_config,
            RunDecision::Execute(plans) => {
                &&& config_ok(config.hosts@, force)
                &&& !check_config
                &&& plans@.len() == config.hosts@.len()
                &&& forall|i: int| 0 <= i < plans@.len() ==> plan_ok(#[trigger] plans@[i], *config, i)
            },
        },
        (check_config && config_ok(config.hosts@, force)) <==> (d matches RunDecision::CheckOnly),
{
    match validate_config(config, force) {
        Err(e) => {
            proof {
                crate::config::lemma_error_for_not_ok(e, config.hosts@, force);
            }
            RunDecision::Reject(e)
        },
        Ok(_) => {
            if check_config {
                RunDecision::CheckOnly
            } else {
                RunDecision::Execute(make_plans(config))
            }
        },
    }
}

} // verus!
