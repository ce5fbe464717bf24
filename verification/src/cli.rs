//! The decisions of the `gateflow` diagnostic CLI: which command an
//! argument selects, and what `gateflow doctor` reports about the host
//! from the facts it read, without changing anything on the host.

use vstd::prelude::*;
use crate::text::{str_eq, trim, trimmed};

verus! {

/// A CLI command.
#[derive(Debug, Clone, PartialEq, Eq)]
pub enum Command {
    /// `doctor`: check host prerequisites.
    Doctor,
    /// `help`, `--help`, `-h`, or no argument at all.
    Help,
    /// `version`, `--version`, `-V`.
    Version,
    /// Anything else, with the argument as given.
    Unknown(String),
}

/// Whether `a` names one of the commands.
pub open spec fn known_command(a: Seq<char>) -> bool {
    a == "doctor"@ || a == "help"@ || a == "--help"@ || a == "-h"@ || a == "version"@ || a == "--version"@
        || a == "-V"@
}

/// Selects the command for the first argument `arg`.
pub fn parse_command(arg: Option<&str>) -> (r: Command)
    ensures
        arg is None ==> r == Command::Help,
        arg is Some && arg->0@ == "doctor"@ ==> r == Command::Doctor,
        arg is Some && (arg->0@ == "help"@ || arg->0@ == "--help"@ || arg->0@ == "-h"@) ==> r == Command::Help,
        arg is Some && (arg->0@ == "version"@ || arg->0@ == "--version"@ || arg->0@ == "-V"@) ==> r
            == Command::Version,
        arg is Some && !known_command(arg->0@) ==> (r matches Command::Unknown(s) && s@ == arg->0@),
{
    proof {
        reveal_strlit("doctor");
        reveal_strlit("help");
        reveal_strlit("--help");
        reveal_strlit("-h");
        reveal_strlit("version");
        reveal_strlit("--version");
        reveal_strlit("-V");
        assert("doctor"@.len() == 6 && "help"@.len() == 4 && "--help"@.len() == 6 && "-h"@.len() == 2);
        assert("version"@.len() == 7 && "--version"@.len() == 9 && "-V"@.len() == 2);
        assert("doctor"@[0] != "--help"@[0]);
        assert("-h"@[1] != "-V"@[1]);
    }
    match arg {
        None => Command::Help,
        Some(a) => {
            if str_eq(a, "doctor") {
                Command::Doctor
            } else if str_eq(a, "help") || str_eq(a, "--help") || str_eq(a, "-h") {
                Command::Help
            } else if str_eq(a, "version") || str_eq(a, "--version") || str_eq(a, "-V") {
                Command::Version
            } else {
                Command::Unknown(String::from_str(a))
            }
        },
    }
}

/// The process exit code after printing help or the version (`0`), or
/// after rejecting an unknown command (`2`). `doctor` has its own
/// [`DoctorReport::exit_code`].
pub fn command_exit_code(c: &Command) -> (r: i32)
    ensures
        c is Unknown ==> r == 2,
        !(c is Unknown) ==> r == 0,
{
    match c {
        Command::Unknown(_) => 2,
        _ => 0,
    }
}

/// What `gateflow doctor` read from the host.
#[derive(Debug, Clone)]
pub struct HostFacts {
    /// Built for Linux.
    pub linux: bool,
    /// `/proc/self/ns/user` and `/proc/self/ns/net` exist.
    pub procfs: bool,
    /// The contents of the `kernel.unprivileged_userns_clone` sysctl file,
    /// if it could be read.
    pub userns_clone: Option<String>,
    /// The contents of the `kernel.apparmor_restrict_unprivileged_userns`
    /// sysctl file, if it could be read.
    pub apparmor_restrict: Option<String>,
    /// `/sys/fs/cgroup/cgroup.controllers` is a file.
    pub cgroup_v2: bool,
    /// `kernel.seccomp.actions_avail` could be read.
    pub seccomp: bool,
}

/// One line of the doctor's report.
#[derive(Debug, Clone)]
pub struct Check {
    /// What was checked.
    pub name: &'static str,
    /// Whether it passed (`PASS`) or only warns (`WARN`).
    pub passed: bool,
    /// The evidence.
    pub detail: String,
}

impl View for Check {
    type V = (Seq<char>, bool, Seq<char>);

    open spec fn view(&self) -> (Seq<char>, bool, Seq<char>) {
        (self.name@, self.passed, self.detail@)
    }
}

/// The doctor's report: its checks in order, and whether the required
/// ones passed.
#[derive(Debug, Clone)]
pub struct DoctorReport {
    /// The checks, in the order they are printed.
    pub checks: Vec<Check>,
    /// The required prerequisites hold.
    pub ready: bool,
}

/// The detail shown when a sysctl is not exposed.
pub open spec fn not_exposed() -> Seq<char> {
    "sysctl is not exposed; verify with a sandbox test"@
}

/// The checks of the doctor's report for the host facts `f`, in order:
/// Linux target, namespace handles, unprivileged user namespaces, AppArmor
/// userns policy, cgroup v2, seccomp.
pub open spec fn doctor_checks(f: HostFacts) -> Seq<(Seq<char>, bool, Seq<char>)> {
    seq![
        ("Linux target"@, f.linux, "namespace isolation is Linux-only"@),
        ("namespace handles"@, f.procfs, "/proc/self/ns/user and /proc/self/ns/net"@),
        match f.userns_clone {
            Some(v) => (
                "unprivileged user namespaces"@,
                trimmed(v@) == "1"@,
                "kernel.unprivileged_userns_clone="@ + trimmed(v@),
            ),
            None => ("unprivileged user namespaces"@, true, not_exposed()),
        },
        match f.apparmor_restrict {
            Some(v) => (
                "AppArmor userns policy"@,
                trimmed(v@) == "0"@,
                "kernel.apparmor_restrict_unprivileged_userns="@ + trimmed(v@),
            ),
            None => ("AppArmor userns policy"@, true, not_exposed()),
        },
        ("cgroup v2"@, f.cgroup_v2, if f.cgroup_v2 {
            "available for opt-in resource limits"@
        } else {
            "not mounted; cgroup limits will be unavailable"@
        }),
        ("seccomp"@, f.seccomp, if f.seccomp {
            "kernel reports seccomp actions"@
        } else {
            "kernel capability could not be confirmed"@
        }),
    ]
}

/// Whether the host is ready: Linux, the namespace handles exist, and
/// unprivileged user namespaces are not switched off (the sysctl, without
/// surrounding white space, is `1` where it is exposed). AppArmor, cgroup v2
/// and seccomp only warn.
pub open spec fn host_ready(f: HostFacts) -> bool {
    &&& f.linux
    &&& f.procfs
    &&& match f.userns_clone {
        Some(v) => trimmed(v@) == "1"@,
        None => true,
    }
}

/// The doctor's report on the host facts `f`.
pub fn doctor_report(f: &HostFacts) -> (r: DoctorReport)
    ensures
        r.checks@.map_values(|c: Check| c@) == doctor_checks(*f),
        r.ready == host_ready(*f),
{
    let mut checks: Vec<Check> = Vec::new();
    checks.push(Check {
        name: "Linux target",
        passed: f.linux,
        detail: String::from_str("namespace isolation is Linux-only"),
    });
    checks.push(Check {
        name: "namespace handles",
        passed: f.procfs,
        detail: String::from_str("/proc/self/ns/user and /proc/self/ns/net"),
    });
    let mut ready = f.linux && f.procfs;
    match &f.userns_clone {
        Some(v) => {
            let value = trim(v.as_str());
            let enabled = str_eq(value.as_str(), "1");
            let mut detail = String::from_str("kernel.unprivileged_userns_clone=");
            detail.append(value.as_str());
            checks.push(Check { name: "unprivileged user namespaces", passed: enabled, detail });
            ready = ready && enabled;
        },
        None => {
            checks.push(Check {
                name: "unprivileged user namespaces",
                passed: true,
                detail: String::from_str("sysctl is not exposed; verify with a sandbox test"),
            });
        },
    }
    match &f.apparmor_restrict {
        Some(v) => {
            let value = trim(v.as_str());
            let relaxed = str_eq(value.as_str(), "0");
            let mut detail = String::from_str("kernel.apparmor_restrict_unprivileged_userns=");
            detail.append(value.as_str());
            checks.push(Check { name: "AppArmor userns policy", passed: relaxed, detail });
        },
        None => {
            checks.push(Check {
                name: "AppArmor userns policy",
                passed: true,
                detail: String::from_str("sysctl is not exposed; verify with a sandbox test"),
            });
        },
    }
    checks.push(Check {
        name: "cgroup v2",
        passed: f.cgroup_v2,
        detail: if f.cgroup_v2 {
            String::from_str("available for opt-in resource limits")
        } else {
            String::from_str("not mounted; cgroup limits will be unavailable")
        },
    });
    checks.push(Check {
        name: "seccomp",
        passed: f.seccomp,
        detail: if f.seccomp {
            String::from_str("kernel reports seccomp actions")
        } else {
            String::from_str("kernel capability could not be confirmed")
        },
    });
    assert(checks@.map_values(|c: Check| c@) =~= doctor_checks(*f));
    DoctorReport { checks, ready }
}

/// The printed form of a check.
pub open spec fn check_text(c: (Seq<char>, bool, Seq<char>)) -> Seq<char> {
    "["@ + (if c.1 { "PASS"@ } else { "WARN"@ }) + "] "@ + c.0 + ": "@ + c.2
}

/// The printed form of a check: `[PASS] name: detail` or
/// `[WARN] name: detail`.
pub fn check_line(c: &Check) -> (r: String)
    ensures
        r@ == check_text(c@),
{
    let mut r = String::from_str("[");
    r.append(if c.passed { "PASS" } else { "WARN" });
    r.append("] ");
    r.append(c.name);
    r.append(": ");
    r.append(c.detail.as_str());
    r
}

/// The closing lines of the report.
pub open spec fn verdict_text(ready: bool) -> Seq<Seq<char>> {
    if ready {
        seq![
            "status: READY — prerequisites look compatible"@,
            "note: run a real isolated test to verify namespace netlink permissions"@,
        ]
    } else {
        seq!["status: BLOCKED — fix the required checks before running gateflow tests"@]
    }
}

impl DoctorReport {
    /// The closing lines of the report.
    pub fn verdict_lines(&self) -> (r: Vec<&'static str>)
        ensures
            r@.map_values(|s: &'static str| s@) == verdict_text(self.ready),
    {
        let mut r: Vec<&'static str> = Vec::new();
        if self.ready {
            r.push("status: READY — prerequisites look compatible");
            r.push("note: run a real isolated test to verify namespace netlink permissions");
        } else {
            r.push("status: BLOCKED — fix the required checks before running gateflow tests");
        }
        assert(r@.map_values(|s: &'static str| s@) =~= verdict_text(self.ready));
        r
    }

    /// The doctor's exit code: `0` when ready, `1` when blocked.
    pub fn exit_code(&self) -> (r: i32)
        ensures
            r == (if self.ready { 0i32 } else { 1i32 }),
    {
        if self.ready {
            0
        } else {
            1
        }
    }
}

/// Law: only the required checks decide readiness — whatever AppArmor,
/// cgroup v2 and seccomp report, the verdict is the same — and the host is
/// ready exactly when the three required checks (Linux target, namespace
/// handles, unprivileged user namespaces) all pass: Linux, the handles
/// present, and the userns sysctl, where the kernel exposes it at all,
/// reading `1` (a kernel without that sysctl is not blocked by it).
pub proof fn lemma_only_required_checks_block(f: HostFacts, g: HostFacts)
    ensures
        (f.linux == g.linux && f.procfs == g.procfs && f.userns_clone == g.userns_clone) ==> host_ready(f)
            == host_ready(g),
        host_ready(f) == (doctor_checks(f)[0].1 && doctor_checks(f)[1].1 && doctor_checks(f)[2].1),
        host_ready(f) <==> (f.linux && f.procfs && (f.userns_clone is Some ==> trimmed(f.userns_clone->0@)
            == "1"@)),
        (f.linux && f.procfs && f.userns_clone is None) ==> host_ready(f),
        doctor_checks(f)[0].0 == "Linux target"@,
        doctor_checks(f)[1].0 == "namespace handles"@,
        doctor_checks(f)[2].0 == "unprivileged user namespaces"@,
{
}

} // verus!
