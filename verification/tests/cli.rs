use gateflow::cli::{check_line, command_exit_code, doctor_report, parse_command, Command, HostFacts};

#[test]
fn commands_are_selected_by_the_first_argument() {
    assert_eq!(parse_command(None), Command::Help);
    assert_eq!(parse_command(Some("doctor")), Command::Doctor);
    for a in ["help", "--help", "-h"] {
        assert_eq!(parse_command(Some(a)), Command::Help);
    }
    for a in ["version", "--version", "-V"] {
        assert_eq!(parse_command(Some(a)), Command::Version);
    }
    let unknown = parse_command(Some("frobnicate"));
    assert_eq!(unknown, Command::Unknown("frobnicate".to_string()));
    assert_eq!(command_exit_code(&unknown), 2);
    assert_eq!(command_exit_code(&Command::Help), 0);
}

fn facts() -> HostFacts {
    HostFacts {
        linux: true,
        procfs: true,
        userns_clone: Some("1\n".to_string()),
        apparmor_restrict: Some(" 1\n".to_string()),
        cgroup_v2: false,
        seccomp: true,
    }
}

#[test]
fn doctor_reports_ready_despite_warnings() {
    let report = doctor_report(&facts());
    assert!(report.ready);
    assert_eq!(report.exit_code(), 0);
    let lines: Vec<String> = report.checks.iter().map(check_line).collect();
    assert_eq!(
        lines,
        vec![
            "[PASS] Linux target: namespace isolation is Linux-only",
            "[PASS] namespace handles: /proc/self/ns/user and /proc/self/ns/net",
            "[PASS] unprivileged user namespaces: kernel.unprivileged_userns_clone=1",
            "[WARN] AppArmor userns policy: kernel.apparmor_restrict_unprivileged_userns=1",
            "[WARN] cgroup v2: not mounted; cgroup limits will be unavailable",
            "[PASS] seccomp: kernel reports seccomp actions",
        ]
    );
    assert_eq!(
        report.verdict_lines(),
        vec![
            "status: READY — prerequisites look compatible",
            "note: run a real isolated test to verify namespace netlink permissions",
        ]
    );
}

#[test]
fn doctor_blocks_when_userns_is_disabled() {
    let mut f = facts();
    f.userns_clone = Some("0\n".to_string());
    f.apparmor_restrict = None;
    let report = doctor_report(&f);
    assert!(!report.ready);
    assert_eq!(report.exit_code(), 1);
    assert_eq!(check_line(&report.checks[3]), "[PASS] AppArmor userns policy: sysctl is not exposed; verify with a sandbox test");
    assert_eq!(
        report.verdict_lines(),
        vec!["status: BLOCKED — fix the required checks before running gateflow tests"]
    );
}
