use gateflow::hardening::{procs_write, CgroupError, CgroupIds, CgroupLimits};

#[test]
fn rejects_zero_cpu_period_before_touching_the_cgroup_root() {
    let result = CgroupLimits::new().cpu_max(1, 0).plan(42, 0);
    assert!(matches!(result, Err(CgroupError::ZeroCpuPeriod)));
    assert_eq!(
        CgroupError::ZeroCpuPeriod.message(),
        "cgroup cpu period must be greater than zero"
    );
}

#[test]
fn plan_without_limits_creates_only_the_leaf() {
    let plan = CgroupLimits::new().plan(4242, 7).expect("valid limits");
    assert_eq!(plan.controllers, "/sys/fs/cgroup/cgroup.controllers");
    assert_eq!(plan.leaf, "/sys/fs/cgroup/gateflow-4242-7");
    assert!(plan.writes.is_empty());
}

#[test]
fn plan_writes_every_limit_in_order() {
    let plan = CgroupLimits::new()
        .root("/sys/fs/cgroup/user.slice/")
        .cpu_max(50_000, 100_000)
        .pids_max(64)
        .memory_max(256 * 1024 * 1024)
        .plan(1, 18_446_744_073_709_551_615)
        .expect("valid limits");
    assert_eq!(plan.leaf, "/sys/fs/cgroup/user.slice/gateflow-1-18446744073709551615");
    let writes: Vec<(String, String)> = plan
        .writes
        .iter()
        .map(|w| (w.path.clone(), w.value.clone()))
        .collect();
    assert_eq!(
        writes,
        vec![
            (
                "/sys/fs/cgroup/user.slice/gateflow-1-18446744073709551615/memory.max".to_string(),
                "268435456".to_string()
            ),
            (
                "/sys/fs/cgroup/user.slice/gateflow-1-18446744073709551615/pids.max".to_string(),
                "64".to_string()
            ),
            (
                "/sys/fs/cgroup/user.slice/gateflow-1-18446744073709551615/cpu.max".to_string(),
                "50000 100000".to_string()
            ),
        ]
    );
}

#[test]
fn later_limit_replaces_earlier_one() {
    let plan = CgroupLimits::new()
        .memory_max(1)
        .memory_max(0)
        .plan(9, 9)
        .expect("valid limits");
    assert_eq!(plan.writes.len(), 1);
    assert_eq!(plan.writes[0].value, "0");
}

#[test]
fn empty_root_joins_without_separator() {
    let plan = CgroupLimits::new().root("").pids_max(3).plan(5, 6).expect("valid limits");
    assert_eq!(plan.controllers, "cgroup.controllers");
    assert_eq!(plan.leaf, "gateflow-5-6");
    assert_eq!(plan.writes[0].path, "gateflow-5-6/pids.max");
}

#[test]
fn nonzero_period_with_zero_quota_is_accepted() {
    let plan = CgroupLimits::new().cpu_max(0, 1).plan(1, 2).expect("valid limits");
    assert_eq!(plan.writes[0].value, "0 1");
}

#[test]
fn procs_write_admits_the_child_pid() {
    let w = procs_write("/sys/fs/cgroup/gateflow-1-0", 31337);
    assert_eq!(w.path, "/sys/fs/cgroup/gateflow-1-0/cgroup.procs");
    assert_eq!(w.value, "31337");
    let negative = procs_write("/x", -12);
    assert_eq!(negative.value, "-12");
}

#[test]
fn default_limits_equal_new() {
    let d = CgroupLimits::default().plan(1, 1).expect("valid");
    let n = CgroupLimits::new().plan(1, 1).expect("valid");
    assert_eq!(d.leaf, n.leaf);
    assert!(d.writes.is_empty());
}

#[test]
fn leaf_names_distinguish_pid_and_counter() {
    let a = CgroupLimits::new().plan(1, 23).expect("valid");
    let b = CgroupLimits::new().plan(12, 3).expect("valid");
    assert_eq!(a.leaf, "/sys/fs/cgroup/gateflow-1-23");
    assert_eq!(b.leaf, "/sys/fs/cgroup/gateflow-12-3");
    assert_ne!(a.leaf, b.leaf);
}

#[test]
fn cgroup_ids_count_up_and_wrap() {
    let mut ids = CgroupIds { next: 0 };
    assert_eq!(ids.fresh(), 0);
    assert_eq!(ids.fresh(), 1);
    assert_eq!(ids.next, 2);
    let mut last = CgroupIds { next: u64::MAX };
    assert_eq!(last.fresh(), u64::MAX);
    assert_eq!(last.next, 0);
}
