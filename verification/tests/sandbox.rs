use gateflow::netns::ChildStep;
use gateflow::sandbox::EntryRoute;
use gateflow::hardening::CgroupIds;
use gateflow::{CgroupLimits, PairedSandbox, Sandbox, SeccompProfile};
use nlink::netlink::tc::NetemConfig;
use std::time::Duration;

#[test]
fn sandbox_routes_follow_the_configuration() {
    assert_eq!(Sandbox::new().route(), EntryRoute::Plain);
    assert_eq!(Sandbox::default().route(), EntryRoute::Plain);
    let netem = NetemConfig::new().delay(Duration::from_millis(200)).build();
    assert_eq!(Sandbox::new().chaos(netem.clone()).route(), EntryRoute::Chaos);
    assert_eq!(
        Sandbox::new().seccomp(SeccompProfile::deny_namespace_changes()).route(),
        EntryRoute::WithOptions
    );
    assert_eq!(
        Sandbox::new().chaos(netem).cgroup_limits(CgroupLimits::new()).route(),
        EntryRoute::WithOptions
    );
}

#[test]
fn sandbox_child_setup_matches_options() {
    assert_eq!(Sandbox::new().child_setup().next(), ChildStep::EnterNamespace);
    let hardened = Sandbox::new().cgroup_limits(CgroupLimits::new().pids_max(64));
    assert_eq!(hardened.child_setup().next(), ChildStep::AwaitAdmission);
}

#[test]
fn sandbox_rejects_invalid_limits_before_forking() {
    let mut ids = CgroupIds { next: 2 };
    let s = Sandbox::new().cgroup_limits(CgroupLimits::new().cpu_max(1, 0));
    assert!(s.cgroup_plan(1, &mut ids).is_err());
    assert_eq!(ids.next, 2);
    assert!(matches!(Sandbox::new().cgroup_plan(1, &mut ids), Ok(None)));
    assert_eq!(ids.next, 2);
    let ok = Sandbox::new().cgroup_limits(CgroupLimits::new().memory_max(256 * 1024 * 1024));
    let plan = ok.cgroup_plan(10, &mut ids).unwrap().unwrap();
    assert_eq!(plan.leaf, "/sys/fs/cgroup/gateflow-10-2");
    assert_eq!(plan.writes[0].value, "268435456");
    assert_eq!(ids.next, 3);
    let again = ok.cgroup_plan(10, &mut ids).unwrap().unwrap();
    assert_eq!(again.leaf, "/sys/fs/cgroup/gateflow-10-3");
}

#[test]
fn sandbox_into_parts_returns_the_configuration() {
    let (netem, cgroup, seccomp) = Sandbox::new()
        .seccomp(SeccompProfile::deny_namespace_changes())
        .into_parts();
    assert!(netem.is_none());
    assert!(cgroup.is_none());
    assert!(seccomp.is_some());
}

#[test]
fn paired_builder_is_the_paired_sandbox() {
    assert_eq!(Sandbox::paired(), PairedSandbox);
}
