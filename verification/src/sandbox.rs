//! One coherent entry point for building a sandbox: [`Sandbox`] for a
//! single namespace (optionally with loopback chaos, cgroup limits and a
//! seccomp profile), [`Sandbox::paired`] for two namespaces wired by a veth
//! pair. The builders decide which entry mechanism a sandbox uses, which
//! setup steps its child performs, and what is checked before anything is
//! forked.
//!
//! `Sandbox::paired()` deliberately doesn't accept `.chaos(...)`:
//! composing loopback chaos with a paired sandbox is an untested
//! combination, so [`PairedSandbox`] has no `chaos` method.

use vstd::prelude::*;
use crate::hardening::{CgroupError, CgroupIds, CgroupLimits, CgroupLimitsView, CgroupPlan, issued, limits_valid, plan_matches};
use crate::netns::{ChildSetup, child_start};
use crate::seccomp::SeccompProfile;

verus! {

/// Builds a single sandboxed namespace.
#[derive(Debug)]
pub struct Sandbox {
    netem: Option<nlink::netlink::tc::NetemConfig>,
    cgroup: Option<CgroupLimits>,
    seccomp: Option<SeccompProfile>,
}

/// What a [`Sandbox`] holds.
pub struct SandboxView {
    /// Loopback chaos, if any.
    pub netem: Option<nlink::netlink::tc::NetemConfig>,
    /// cgroup v2 limits, if any.
    pub cgroup: Option<CgroupLimitsView>,
    /// The seccomp profile, if any.
    pub seccomp: Option<SeccompProfile>,
}

impl View for Sandbox {
    type V = SandboxView;

    closed spec fn view(&self) -> SandboxView {
        SandboxView {
            netem: self.netem,
            cgroup: match self.cgroup {
                Some(c) => Some(c@),
                None => None,
            },
            seccomp: self.seccomp,
        }
    }
}

/// How a sandbox is entered.
#[derive(Debug, Clone, Copy, PartialEq, Eq, Structural)]
pub enum EntryRoute {
    /// `fork_and_enter`: namespace and `lo` only.
    Plain,
    /// `fork_and_enter_with_chaos`: namespace, `lo` and netem.
    Chaos,
    /// `fork_and_enter_with_options`: cgroup and/or seccomp hardening, with
    /// or without netem.
    WithOptions,
}

/// The route of a sandbox with the given configuration: plain without
/// anything, chaos with only netem, the hardened path as soon as cgroup
/// limits or a seccomp profile are configured.
pub open spec fn route_of(v: SandboxView) -> EntryRoute {
    if v.cgroup is None && v.seccomp is None {
        if v.netem is None {
            EntryRoute::Plain
        } else {
            EntryRoute::Chaos
        }
    } else {
        EntryRoute::WithOptions
    }
}

impl Sandbox {
    /// Starts building a single (non-paired) sandbox.
    pub fn new() -> (r: Self)
        ensures
            r@.netem is None,
            r@.cgroup is None,
            r@.seccomp is None,
    {
        Sandbox { netem: None, cgroup: None, seccomp: None }
    }

    /// Starts building a paired sandbox instead — see [`PairedSandbox`].
    pub fn paired() -> (r: PairedSandbox)
        ensures
            r == PairedSandbox,
    {
        PairedSandbox
    }

    /// Applies real `tc netem` chaos (delay/loss/jitter/reordering/
    /// corruption/duplication) to the sandbox's own loopback.
    pub fn chaos(self, netem: nlink::netlink::tc::NetemConfig) -> (r: Self)
        ensures
            r@.netem == Some(netem),
            r@.cgroup == self@.cgroup,
            r@.seccomp == self@.seccomp,
    {
        Sandbox { netem: Some(netem), ..self }
    }

    /// Applies cgroup v2 resource limits to the sandbox child. The caller
    /// must have a delegated cgroup v2 root; use [`CgroupLimits::root`]
    /// when `/sys/fs/cgroup` is not writable by the current user.
    pub fn cgroup_limits(self, limits: CgroupLimits) -> (r: Self)
        ensures
            r@.netem == self@.netem,
            r@.cgroup == Some(limits@),
            r@.seccomp == self@.seccomp,
    {
        Sandbox { cgroup: Some(limits), ..self }
    }

    /// Installs an opt-in seccomp-BPF defense-in-depth profile after
    /// network setup and before the test body runs.
    pub fn seccomp(self, profile: SeccompProfile) -> (r: Self)
        ensures
            r@.netem == self@.netem,
            r@.cgroup == self@.cgroup,
            r@.seccomp == Some(profile),
    {
        Sandbox { seccomp: Some(profile), ..self }
    }

    /// How this sandbox is entered.
    pub fn route(&self) -> (r: EntryRoute)
        ensures
            r == route_of(self@),
    {
        if self.cgroup.is_none() && self.seccomp.is_none() {
            if self.netem.is_none() {
                EntryRoute::Plain
            } else {
                EntryRoute::Chaos
            }
        } else {
            EntryRoute::WithOptions
        }
    }

    /// The setup protocol this sandbox's child follows before the body.
    pub fn child_setup(&self) -> (r: ChildSetup)
        ensures
            r == child_start(self@.cgroup is Some, self@.netem is Some, self@.seccomp is Some),
    {
        ChildSetup::new(self.cgroup.is_some(), self.netem.is_some(), self.seccomp.is_some())
    }

    /// The cgroup setup the parent performs before forking, for process
    /// `pid`: none without limits, the rejection of invalid limits (returned
    /// before anything is forked), or the plan. Only a plan takes an id
    /// from the process's counter `ids`.
    pub fn cgroup_plan(&self, pid: u32, ids: &mut CgroupIds) -> (r: Result<Option<CgroupPlan>, CgroupError>)
        ensures
            self@.cgroup is None ==> (r matches Ok(None) && final(ids).next == old(ids).next),
            self@.cgroup matches Some(v) ==> {
                &&& !limits_valid(v) <==> r == Err::<Option<CgroupPlan>, CgroupError>(CgroupError::ZeroCpuPeriod)
                &&& !limits_valid(v) ==> final(ids).next == old(ids).next
                &&& r matches Ok(o) ==> (o matches Some(p) && plan_matches(v, pid as nat, old(ids).next as nat, p)
                    && final(ids).next == issued(old(ids).next, 1))
            },
    {
        match &self.cgroup {
            None => Ok(None),
            Some(limits) => match limits.plan(pid, ids.next) {
                Ok(p) => {
                    let _ = ids.fresh();
                    Ok(Some(p))
                },
                Err(e) => Err(e),
            },
        }
    }

    /// The configured netem, cgroup limits and seccomp profile.
    pub fn into_parts(self) -> (r: (Option<nlink::netlink::tc::NetemConfig>, Option<CgroupLimits>, Option<SeccompProfile>))
        ensures
            r.0 == self@.netem,
            r.1 is Some == self@.cgroup is Some,
            r.1 matches Some(c) ==> self@.cgroup == Some(c@),
            r.2 == self@.seccomp,
    {
        (self.netem, self.cgroup, self.seccomp)
    }
}

impl Default for Sandbox {
    fn default() -> (r: Self)
        ensures
            r@.netem is None,
            r@.cgroup is None,
            r@.seccomp is None,
    {
        Sandbox::new()
    }
}

/// Builds a pair of sandboxed namespaces wired together by a real veth
/// pair. Constructed via [`Sandbox::paired`]; it has no `chaos` method.
#[derive(Debug, Clone, Copy, PartialEq, Eq, Structural)]
pub struct PairedSandbox;

/// Law: a sandbox takes the plain or chaos route only without hardening,
/// and its child then performs exactly the namespace, `lo` and (for chaos)
/// netem steps; as soon as cgroup limits or a seccomp profile are set, the
/// hardened route is taken and the child waits for cgroup admission first
/// when limits are set.
pub proof fn lemma_route_matches_child_setup(v: SandboxView)
    ensures
        route_of(v) == EntryRoute::Plain ==> crate::netns::child_setup_steps(false, false, false)
            == crate::netns::child_setup_steps(v.cgroup is Some, v.netem is Some, v.seccomp is Some),
        route_of(v) == EntryRoute::Chaos ==> crate::netns::child_setup_steps(false, true, false)
            == crate::netns::child_setup_steps(v.cgroup is Some, v.netem is Some, v.seccomp is Some),
        (v.cgroup is Some || v.seccomp is Some) <==> route_of(v) == EntryRoute::WithOptions,
        v.cgroup is Some ==> child_start(v.cgroup is Some, v.netem is Some, v.seccomp is Some).step
            == crate::netns::ChildStep::AwaitAdmission,
{
}

} // verus!
