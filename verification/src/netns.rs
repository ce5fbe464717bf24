//! Unprivileged Linux user + network namespace creation: what the process
//! writes to enter one, and the setup protocol a forked sandbox child runs
//! before the test body.
//!
//! `unshare(2)` with `CLONE_NEWUSER` requires the calling process to be
//! single-threaded, which a `cargo test` binary is not; so the sandbox
//! forks first, and the child (single-threaded right after `fork(2)`)
//! follows [`ChildSetup`] step by step. A setup failure ends the child
//! with a sentinel exit code instead of running the body:
//!
//! | Code | Meaning |
//! |---|---|
//! | 111 | entering the namespace failed |
//! | 112 | bringing `lo` up or applying `tc netem` to it failed |
//! | 114 | the child could not be admitted to its cgroup, or installing the seccomp profile failed |

use vstd::prelude::*;
use crate::text::{decimal, push_decimal};

verus! {

/// One write into a `/proc/self/...` file.
#[derive(Debug, Clone)]
pub struct ProcWrite {
    /// The file written.
    pub path: &'static str,
    /// The text written into it.
    pub contents: String,
}

impl View for ProcWrite {
    type V = (Seq<char>, Seq<char>);

    open spec fn view(&self) -> (Seq<char>, Seq<char>) {
        (self.path@, self.contents@)
    }
}

/// The line of an id map that maps `outside` to id 0 inside the namespace
/// and nothing else.
pub open spec fn root_mapping(outside: nat) -> Seq<char> {
    "0 "@ + decimal(outside) + " 1"@
}

/// The writes that follow `unshare(CLONE_NEWUSER | CLONE_NEWNET)`, in this
/// order: deny `setgroups` (an unprivileged process may not write
/// `gid_map` before that), map the caller's uid to 0, map its gid to 0.
pub open spec fn id_map_writes(uid: nat, gid: nat) -> Seq<(Seq<char>, Seq<char>)> {
    seq![
        ("/proc/self/setgroups"@, "deny"@),
        ("/proc/self/uid_map"@, root_mapping(uid)),
        ("/proc/self/gid_map"@, root_mapping(gid)),
    ]
}

/// Law: `setgroups` is denied before `gid_map` is written, and only the
/// caller's own ids are mapped.
pub proof fn lemma_setgroups_denied_first(uid: nat, gid: nat)
    ensures
        id_map_writes(uid, gid).len() == 3,
        id_map_writes(uid, gid)[0].0 == "/proc/self/setgroups"@,
        id_map_writes(uid, gid)[2].0 == "/proc/self/gid_map"@,
        id_map_writes(uid, gid)[1].1 == root_mapping(uid),
        id_map_writes(uid, gid)[2].1 == root_mapping(gid),
{
}

/// Law: the uid and gid map lines each read, field by field, `0`, the
/// caller's own id outside the namespace (for every id, above 65535 too),
/// and `1`: exactly one id, the caller's, mapped to root inside.
pub proof fn lemma_id_maps_read_back(uid: nat, gid: nat)
    ensures
        ({
            let w = id_map_writes(uid, gid);
            let u = w[1].1;
            let g = w[2].1;
            &&& u.len() >= 5 && g.len() >= 5
            &&& u.subrange(0, 2) == seq!['0', ' '] && g.subrange(0, 2) == seq!['0', ' ']
            &&& u.subrange(u.len() - 2, u.len() as int) == seq![' ', '1']
            &&& g.subrange(g.len() - 2, g.len() as int) == seq![' ', '1']
            &&& crate::text::parse_decimal(u.subrange(2, u.len() - 2)) == uid
            &&& crate::text::parse_decimal(g.subrange(2, g.len() - 2)) == gid
            &&& forall|i: int| 2 <= i < u.len() - 2 ==> '0' <= #[trigger] u[i] <= '9'
            &&& forall|i: int| 2 <= i < g.len() - 2 ==> '0' <= #[trigger] g[i] <= '9'
        }),
{
    reveal_strlit("0 ");
    reveal_strlit(" 1");
    lemma_root_mapping_reads_back(uid);
    lemma_root_mapping_reads_back(gid);
}

proof fn lemma_root_mapping_reads_back(n: nat)
    ensures
        ({
            let u = root_mapping(n);
            &&& u.len() >= 5
            &&& u.subrange(0, 2) == seq!['0', ' ']
            &&& u.subrange(u.len() - 2, u.len() as int) == seq![' ', '1']
            &&& crate::text::parse_decimal(u.subrange(2, u.len() - 2)) == n
            &&& forall|i: int| 2 <= i < u.len() - 2 ==> '0' <= #[trigger] u[i] <= '9'
        }),
{
    reveal_strlit("0 ");
    reveal_strlit(" 1");
    crate::text::lemma_decimal_round_trip(n);
    crate::text::lemma_decimal_digits(n);
    let u = root_mapping(n);
    let d = decimal(n);
    assert(u =~= seq!['0', ' '] + d + seq![' ', '1']);
    assert(u.subrange(0, 2) =~= seq!['0', ' ']);
    assert(u.subrange(u.len() - 2, u.len() as int) =~= seq![' ', '1']);
    assert(u.subrange(2, u.len() - 2) =~= d);
    assert forall|i: int| 2 <= i < u.len() - 2 implies '0' <= #[trigger] u[i] <= '9' by {
        assert(u[i] == d[i - 2]);
    }
}

/// The id-map line for `outside`.
pub fn root_mapping_line(outside: u32) -> (r: String)
    ensures
        r@ == root_mapping(outside as nat),
{
    let mut r = String::from_str("0 ");
    push_decimal(&mut r, outside as u64);
    r.append(" 1");
    r
}

/// The writes that make a fresh user namespace usable by the process whose
/// uid and gid outside it are `uid` and `gid`.
pub fn id_map_plan(uid: u32, gid: u32) -> (r: Vec<ProcWrite>)
    ensures
        r@.map_values(|w: ProcWrite| w@) == id_map_writes(uid as nat, gid as nat),
{
    let mut r: Vec<ProcWrite> = Vec::new();
    r.push(ProcWrite { path: "/proc/self/setgroups", contents: String::from_str("deny") });
    r.push(ProcWrite { path: "/proc/self/uid_map", contents: root_mapping_line(uid) });
    r.push(ProcWrite { path: "/proc/self/gid_map", contents: root_mapping_line(gid) });
    assert(r@.map_values(|w: ProcWrite| w@) =~= id_map_writes(uid as nat, gid as nat));
    r
}

/// What became of the step a sandboxed process just performed.
#[derive(Debug, Clone, Copy, PartialEq, Eq, Structural)]
pub enum Outcome {
    /// The operation succeeded.
    Done,
    /// The operation failed.
    Failed,
    /// A read returned this many bytes (a single signal byte is `1`;
    /// end of file is `0`).
    ReadBytes(usize),
    /// `waitpid(2)` reported that the child exited normally with this code.
    Exited(i32),
    /// The caller's closure returned this code.
    Returned(i32),
}

/// The next thing a sandbox child does.
#[derive(Debug, Clone, Copy, PartialEq, Eq, Structural)]
pub enum ChildStep {
    /// Wait for the parent's byte saying the child was added to its cgroup.
    AwaitAdmission,
    /// Enter a fresh user + network namespace.
    EnterNamespace,
    /// Bring `lo` up.
    LoopbackUp,
    /// Apply the configured `tc netem` qdisc to `lo`.
    ApplyChaos,
    /// Install the seccomp profile.
    InstallSeccomp,
    /// Run the test body.
    RunBody,
    /// Exit with this code.
    Exit(i32),
}

/// The setup protocol of a single sandbox child: which optional steps it
/// has, and how far it got.
#[derive(Debug, Clone, Copy, PartialEq, Eq, Structural)]
pub struct ChildSetup {
    /// The child waits for cgroup admission first.
    pub cgroup: bool,
    /// `tc netem` is applied to `lo`.
    pub chaos: bool,
    /// A seccomp profile is installed before the body runs.
    pub seccomp: bool,
    /// The next step.
    pub step: ChildStep,
}

/// The step after `step` once it succeeded (the body's step excluded).
pub open spec fn after(c: ChildSetup, step: ChildStep) -> ChildStep {
    match step {
        ChildStep::AwaitAdmission => ChildStep::EnterNamespace,
        ChildStep::EnterNamespace => ChildStep::LoopbackUp,
        ChildStep::LoopbackUp => if c.chaos {
            ChildStep::ApplyChaos
        } else if c.seccomp {
            ChildStep::InstallSeccomp
        } else {
            ChildStep::RunBody
        },
        ChildStep::ApplyChaos => if c.seccomp {
            ChildStep::InstallSeccomp
        } else {
            ChildStep::RunBody
        },
        _ => ChildStep::RunBody,
    }
}

/// The sentinel code of a failed setup step.
pub open spec fn child_sentinel(step: ChildStep) -> i32 {
    match step {
        ChildStep::AwaitAdmission => 114,
        ChildStep::EnterNamespace => 111,
        ChildStep::LoopbackUp => 112,
        ChildStep::ApplyChaos => 112,
        ChildStep::InstallSeccomp => 114,
        _ => 0,
    }
}

/// Whether `o` is the successful outcome of `step`: a single byte read for
/// the admission wait, plain success for the other setup steps.
pub open spec fn child_step_ok(step: ChildStep, o: Outcome) -> bool {
    match step {
        ChildStep::AwaitAdmission => o == Outcome::ReadBytes(1),
        _ => o == Outcome::Done,
    }
}

/// The child's protocol after the current step ended with `o`: a failed
/// setup step exits with its sentinel code, the body's return value becomes
/// the exit code, and an exit stays an exit.
pub open spec fn child_advance(c: ChildSetup, o: Outcome) -> ChildSetup {
    match c.step {
        ChildStep::Exit(_) => c,
        ChildStep::RunBody => match o {
            Outcome::Returned(code) => ChildSetup { step: ChildStep::Exit(code), ..c },
            _ => c,
        },
        s => if child_step_ok(s, o) {
            ChildSetup { step: after(c, s), ..c }
        } else {
            ChildSetup { step: ChildStep::Exit(child_sentinel(s)), ..c }
        },
    }
}

/// The protocol at its start.
pub open spec fn child_start(cgroup: bool, chaos: bool, seccomp: bool) -> ChildSetup {
    ChildSetup {
        cgroup,
        chaos,
        seccomp,
        step: if cgroup { ChildStep::AwaitAdmission } else { ChildStep::EnterNamespace },
    }
}

/// The protocol after the outcomes `os`, one per step, from its start.
pub open spec fn child_run(c: ChildSetup, os: Seq<Outcome>) -> ChildSetup
    decreases os.len(),
{
    if os.len() == 0 {
        c
    } else {
        child_advance(child_run(c, os.drop_last()), os.last())
    }
}

impl ChildSetup {
    /// The protocol of a child with the given optional steps, at its start.
    pub fn new(cgroup: bool, chaos: bool, seccomp: bool) -> (r: Self)
        ensures
            r == child_start(cgroup, chaos, seccomp),
    {
        ChildSetup {
            cgroup,
            chaos,
            seccomp,
            step: if cgroup { ChildStep::AwaitAdmission } else { ChildStep::EnterNamespace },
        }
    }

    /// The next step to perform.
    pub fn next(&self) -> (r: ChildStep)
        ensures
            r == self.step,
    {
        self.step
    }

    /// Records how the current step ended.
    pub fn advance(&mut self, o: Outcome)
        ensures
            *final(self) == child_advance(*old(self), o),
    {
        match self.step {
            ChildStep::Exit(_) => {},
            ChildStep::RunBody => {
                if let Outcome::Returned(code) = o {
                    self.step = ChildStep::Exit(code);
                }
            },
            ChildStep::AwaitAdmission => {
                self.step = if o == Outcome::ReadBytes(1) {
                    ChildStep::EnterNamespace
                } else {
                    ChildStep::Exit(114)
                };
            },
            ChildStep::EnterNamespace => {
                self.step = if o == Outcome::Done {
                    ChildStep::LoopbackUp
                } else {
                    ChildStep::Exit(111)
                };
            },
            ChildStep::LoopbackUp => {
                self.step = if o != Outcome::Done {
                    ChildStep::Exit(112)
                } else if self.chaos {
                    ChildStep::ApplyChaos
                } else if self.seccomp {
                    ChildStep::InstallSeccomp
                } else {
                    ChildStep::RunBody
                };
            },
            ChildStep::ApplyChaos => {
                self.step = if o != Outcome::Done {
                    ChildStep::Exit(112)
                } else if self.seccomp {
                    ChildStep::InstallSeccomp
                } else {
                    ChildStep::RunBody
                };
            },
            ChildStep::InstallSeccomp => {
                self.step = if o == Outcome::Done {
                    ChildStep::RunBody
                } else {
                    ChildStep::Exit(114)
                };
            },
        }
    }
}

/// Law: the body runs only once every configured setup step succeeded, in
/// order — cgroup admission (if configured), the namespace, `lo`, netem
/// (if configured), seccomp (if configured) — and never after a failed one.
pub proof fn lemma_body_runs_after_setup(cgroup: bool, chaos: bool, seccomp: bool, os: Seq<Outcome>)
    requires
        child_run(child_start(cgroup, chaos, seccomp), os).step == ChildStep::RunBody,
    ensures
        os.len() >= child_setup_steps(cgroup, chaos, seccomp).len(),
        forall|i: int| 0 <= i < child_setup_steps(cgroup, chaos, seccomp).len() ==> child_step_ok(
            #[trigger] child_setup_steps(cgroup, chaos, seccomp)[i],
            os[i],
        ),
    decreases os.len(),
{
    lemma_child_run_position(cgroup, chaos, seccomp, os);
}

/// The setup steps of a child with the given options, in the order it
/// performs them.
pub open spec fn child_setup_steps(cgroup: bool, chaos: bool, seccomp: bool) -> Seq<ChildStep> {
    (if cgroup { seq![ChildStep::AwaitAdmission] } else { Seq::empty() })
        + seq![ChildStep::EnterNamespace, ChildStep::LoopbackUp]
        + (if chaos { seq![ChildStep::ApplyChaos] } else { Seq::empty() })
        + (if seccomp { seq![ChildStep::InstallSeccomp] } else { Seq::empty() })
}

/// Where the protocol stands after `os`: either still in setup at step
/// `os.len()` with all earlier steps successful, or running the body after
/// all setup steps succeeded, or exited.
proof fn lemma_child_run_position(cgroup: bool, chaos: bool, seccomp: bool, os: Seq<Outcome>)
    ensures
        ({
            let steps = child_setup_steps(cgroup, chaos, seccomp);
            let c = child_run(child_start(cgroup, chaos, seccomp), os);
            &&& c.cgroup == cgroup && c.chaos == chaos && c.seccomp == seccomp
            &&& (c.step is Exit || (forall|i: int| 0 <= i < os.len() && i < steps.len() ==> child_step_ok(#[trigger] steps[i], os[i])))
            &&& (os.len() < steps.len() && !(c.step is Exit)) ==> c.step == steps[os.len() as int]
            &&& (!(c.step is Exit) && c.step == ChildStep::RunBody) ==> os.len() >= steps.len()
            &&& (os.len() >= steps.len() && !(c.step is Exit)) ==> c.step == ChildStep::RunBody
        }),
    decreases os.len(),
{
    let steps = child_setup_steps(cgroup, chaos, seccomp);
    if os.len() > 0 {
        lemma_child_run_position(cgroup, chaos, seccomp, os.drop_last());
        let prev = child_run(child_start(cgroup, chaos, seccomp), os.drop_last());
        let n = os.len() - 1;
        if n < steps.len() && !(prev.step is Exit) {
            assert(prev.step == steps[n]);
            if n + 1 < steps.len() {
                assert(after(prev, steps[n]) == steps[n + 1]);
            } else {
                assert(after(prev, steps[n]) == ChildStep::RunBody);
            }
        }
    }
}

/// While every step so far succeeded, the child is at the next setup step,
/// or at the body once all of them succeeded.
proof fn lemma_child_on_track(cgroup: bool, chaos: bool, seccomp: bool, os: Seq<Outcome>)
    requires
        os.len() <= child_setup_steps(cgroup, chaos, seccomp).len(),
        forall|i: int| 0 <= i < os.len() ==> child_step_ok(
            #[trigger] child_setup_steps(cgroup, chaos, seccomp)[i],
            os[i],
        ),
    ensures
        ({
            let steps = child_setup_steps(cgroup, chaos, seccomp);
            let c = child_run(child_start(cgroup, chaos, seccomp), os);
            &&& c.cgroup == cgroup && c.chaos == chaos && c.seccomp == seccomp
            &&& c.step == if os.len() < steps.len() { steps[os.len() as int] } else { ChildStep::RunBody }
        }),
    decreases os.len(),
{
    let steps = child_setup_steps(cgroup, chaos, seccomp);
    if os.len() > 0 {
        let p = os.drop_last();
        assert forall|i: int| 0 <= i < p.len() implies child_step_ok(#[trigger] steps[i], p[i]) by {
            assert(p[i] == os[i]);
        }
        lemma_child_on_track(cgroup, chaos, seccomp, p);
        let n = p.len() as int;
        let prev = child_run(child_start(cgroup, chaos, seccomp), p);
        assert(prev.step == steps[n]);
        assert(child_step_ok(steps[n], os[n]));
        if n + 1 < steps.len() {
            assert(after(prev, steps[n]) == steps[n + 1]);
        } else {
            assert(after(prev, steps[n]) == ChildStep::RunBody);
        }
    }
}

/// An exited child stays exited.
proof fn lemma_child_exit_stays(c: ChildSetup, os: Seq<Outcome>, k: int)
    requires
        0 <= k <= os.len(),
        child_run(c, os.take(k)).step is Exit,
    ensures
        child_run(c, os) == child_run(c, os.take(k)),
    decreases os.len() - k,
{
    if k < os.len() {
        assert(os.take(k + 1).drop_last() =~= os.take(k));
        lemma_child_exit_stays(c, os, k + 1);
        assert(os.take(os.len() as int) =~= os);
    } else {
        assert(os.take(k) =~= os);
    }
}

/// Law: when the child's `k`-th setup step fails, it exits with that
/// step's sentinel code (111 for the namespace, 112 for `lo` or netem, 114
/// for cgroup admission or seccomp) and never runs the body, whatever
/// happens afterwards.
pub proof fn lemma_child_failure_exits(
    cgroup: bool,
    chaos: bool,
    seccomp: bool,
    os: Seq<Outcome>,
    o: Outcome,
    rest: Seq<Outcome>,
)
    requires
        os.len() < child_setup_steps(cgroup, chaos, seccomp).len(),
        forall|i: int| 0 <= i < os.len() ==> child_step_ok(
            #[trigger] child_setup_steps(cgroup, chaos, seccomp)[i],
            os[i],
        ),
        !child_step_ok(child_setup_steps(cgroup, chaos, seccomp)[os.len() as int], o),
    ensures
        child_run(child_start(cgroup, chaos, seccomp), os.push(o) + rest).step == ChildStep::Exit(
            child_sentinel(child_setup_steps(cgroup, chaos, seccomp)[os.len() as int]),
        ),
{
    let start = child_start(cgroup, chaos, seccomp);
    lemma_child_on_track(cgroup, chaos, seccomp, os);
    let pre = os.push(o);
    assert(pre.drop_last() =~= os);
    let all = pre + rest;
    assert(all.take(pre.len() as int) =~= pre);
    lemma_child_exit_stays(start, all, pre.len() as int);
}

/// How far a child has got.
pub open spec fn child_rank(step: ChildStep) -> nat {
    match step {
        ChildStep::AwaitAdmission => 0,
        ChildStep::EnterNamespace => 1,
        ChildStep::LoopbackUp => 2,
        ChildStep::ApplyChaos => 3,
        ChildStep::InstallSeccomp => 4,
        ChildStep::RunBody => 5,
        ChildStep::Exit(_) => 6,
    }
}

/// A child never goes back.
proof fn lemma_child_rank_grows(c: ChildSetup, os: Seq<Outcome>, k: int, m: int)
    requires
        0 <= k <= m <= os.len(),
    ensures
        child_rank(child_run(c, os.take(m)).step) >= child_rank(child_run(c, os.take(k)).step),
    decreases m - k,
{
    if k < m {
        lemma_child_rank_grows(c, os, k, m - 1);
        assert(os.take(m).drop_last() =~= os.take(m - 1));
    }
}

/// Law: the test body runs at most once: once the child has been told to
/// run it and it returned, the child exits with its code and is never told
/// to run it again.
pub proof fn lemma_body_runs_once(c: ChildSetup, os: Seq<Outcome>, i: int, j: int)
    requires
        0 <= i < j <= os.len(),
        child_run(c, os.take(i)).step == ChildStep::RunBody,
        os[i] is Returned,
    ensures
        child_run(c, os.take(j)).step != ChildStep::RunBody,
        child_run(c, os.take(i + 1)).step == ChildStep::Exit(os[i]->Returned_0),
{
    assert(os.take(i + 1).drop_last() =~= os.take(i));
    lemma_child_rank_grows(c, os, i + 1, j);
}

} // verus!
