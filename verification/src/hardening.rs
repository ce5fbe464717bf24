//! Optional resource hardening for a sandboxed test: cgroup v2 limits.
//!
//! These controls are opt-in. [`CgroupLimits`] only describes the limits;
//! [`CgroupLimits::plan`] turns them into the exact directory and control
//! file writes that set them up, checking them before anything on disk is
//! touched.

use vstd::prelude::*;
use crate::text::{decimal, decimal_string, join, join_path, push_decimal, signed_decimal, signed_decimal_string};
pub use crate::seccomp::SeccompProfile;

verus! {

/// CPU quota parameters for cgroup v2's `cpu.max` file.
#[derive(Debug, Clone, Copy)]
pub struct CpuMax {
    /// CPU time allowed per period, in microseconds.
    pub quota_us: u64,
    /// Length of the period, in microseconds.
    pub period_us: u64,
}

/// Resource limits applied through a cgroup v2 sandbox.
///
/// The default cgroup root is `/sys/fs/cgroup`. Rootless callers should use
/// [`CgroupLimits::root`] to point at a cgroup delegated to their user, such
/// as a systemd user-slice subtree. The parent process creates and
/// configures the leaf cgroup; the forked sandbox child is added before it
/// is released to enter its network namespace.
#[derive(Debug, Clone)]
pub struct CgroupLimits {
    root: String,
    memory_max: Option<u64>,
    pids_max: Option<u64>,
    cpu_max: Option<CpuMax>,
}

/// What a [`CgroupLimits`] holds.
pub struct CgroupLimitsView {
    /// The parent cgroup directory.
    pub root: Seq<char>,
    /// The `memory.max` limit in bytes, if any.
    pub memory_max: Option<u64>,
    /// The `pids.max` limit, if any.
    pub pids_max: Option<u64>,
    /// The `cpu.max` quota and period in microseconds, if any.
    pub cpu_max: Option<(u64, u64)>,
}

impl View for CgroupLimits {
    type V = CgroupLimitsView;

    closed spec fn view(&self) -> CgroupLimitsView {
        CgroupLimitsView {
            root: self.root@,
            memory_max: self.memory_max,
            pids_max: self.pids_max,
            cpu_max: match self.cpu_max {
                Some(c) => Some((c.quota_us, c.period_us)),
                None => None,
            },
        }
    }
}

/// The default parent cgroup directory.
pub open spec fn default_root() -> Seq<char> {
    "/sys/fs/cgroup"@
}

/// One write of a value into a cgroup control file.
#[derive(Debug, Clone)]
pub struct CgroupWrite {
    /// The control file.
    pub path: String,
    /// The text written into it.
    pub value: String,
}

impl View for CgroupWrite {
    type V = (Seq<char>, Seq<char>);

    open spec fn view(&self) -> (Seq<char>, Seq<char>) {
        (self.path@, self.value@)
    }
}

/// Everything the parent does on disk to set up one sandbox's cgroup, in
/// order: check that `controllers` is a file (the root is a cgroup v2
/// directory), create the `leaf` directory, then perform `writes` in order,
/// removing `leaf` again if one of them fails.
#[derive(Debug, Clone)]
pub struct CgroupPlan {
    /// `cgroup.controllers` of the root.
    pub controllers: String,
    /// The leaf cgroup directory owned by this sandbox.
    pub leaf: String,
    /// The limit writes.
    pub writes: Vec<CgroupWrite>,
}

/// Why a set of limits cannot be applied.
#[derive(Debug, Clone, Copy, PartialEq, Eq, Structural)]
pub enum CgroupError {
    /// `cpu.max` was given a period of zero (an invalid input).
    ZeroCpuPeriod,
}

impl CgroupError {
    /// The message of this error.
    pub fn message(&self) -> (r: &'static str)
        ensures
            r@ == "cgroup cpu period must be greater than zero"@,
    {
        "cgroup cpu period must be greater than zero"
    }
}

/// The name of the leaf cgroup for process `pid`'s `id`-th sandbox.
pub open spec fn leaf_name(pid: nat, id: nat) -> Seq<char> {
    "gateflow-"@ + decimal(pid) + "-"@ + decimal(id)
}

/// The control-file writes that set the limits `v` on the cgroup `leaf`:
/// `memory.max`, then `pids.max`, then `cpu.max` as `"<quota> <period>"`,
/// each only when that limit is set.
pub open spec fn limit_writes(v: CgroupLimitsView, leaf: Seq<char>) -> Seq<(Seq<char>, Seq<char>)> {
    let mem = match v.memory_max {
        Some(b) => seq![(join_path(leaf, "memory.max"@), decimal(b as nat))],
        None => Seq::empty(),
    };
    let pids = match v.pids_max {
        Some(c) => seq![(join_path(leaf, "pids.max"@), decimal(c as nat))],
        None => Seq::empty(),
    };
    let cpu = match v.cpu_max {
        Some((q, p)) => seq![(join_path(leaf, "cpu.max"@), decimal(q as nat) + " "@ + decimal(p as nat))],
        None => Seq::empty(),
    };
    mem + pids + cpu
}

/// Whether `p` is the setup of the limits `v` for process `pid`'s `id`-th
/// sandbox: the root's `cgroup.controllers`, the leaf directory
/// `<root>/gateflow-<pid>-<id>`, and the limit writes into the leaf.
pub open spec fn plan_matches(v: CgroupLimitsView, pid: nat, id: nat, p: CgroupPlan) -> bool {
    &&& p.controllers@ == join_path(v.root, "cgroup.controllers"@)
    &&& p.leaf@ == join_path(v.root, leaf_name(pid, id))
    &&& p.writes@.map_values(|w: CgroupWrite| w@) == limit_writes(v, p.leaf@)
}

/// Whether the limits `v` can be applied at all.
pub open spec fn limits_valid(v: CgroupLimitsView) -> bool {
    match v.cpu_max {
        Some((_, p)) => p != 0,
        None => true,
    }
}

/// Law: distinct sandboxes get distinct leaf cgroups — the leaf name
/// determines the process id and the per-process counter it was made from.
pub proof fn lemma_leaf_names_distinct(p1: nat, i1: nat, p2: nat, i2: nat)
    requires
        leaf_name(p1, i1) == leaf_name(p2, i2),
    ensures
        p1 == p2,
        i1 == i2,
{
    reveal_strlit("-");
    let a = decimal(p1);
    let b = decimal(i1);
    let c = decimal(p2);
    let d = decimal(i2);
    crate::text::lemma_decimal_digits(p1);
    crate::text::lemma_decimal_digits(i1);
    crate::text::lemma_decimal_digits(p2);
    crate::text::lemma_decimal_digits(i2);
    crate::text::lemma_decimal_round_trip(p1);
    crate::text::lemma_decimal_round_trip(i1);
    crate::text::lemma_decimal_round_trip(p2);
    crate::text::lemma_decimal_round_trip(i2);
    let pre = "gateflow-"@;
    let s1 = leaf_name(p1, i1);
    let s2 = leaf_name(p2, i2);
    let t1 = s1.subrange(pre.len() as int, s1.len() as int);
    let t2 = s2.subrange(pre.len() as int, s2.len() as int);
    assert(t1 =~= a + seq!['-'] + b);
    assert(t2 =~= c + seq!['-'] + d);
    assert(t1 == t2);
    if a.len() < c.len() {
        assert(t1[a.len() as int] == '-');
        assert(t2[a.len() as int] == c[a.len() as int]);
        assert('0' <= c[a.len() as int] <= '9');
    }
    if c.len() < a.len() {
        assert(t2[c.len() as int] == '-');
        assert(t1[c.len() as int] == a[c.len() as int]);
        assert('0' <= a[c.len() as int] <= '9');
    }
    assert(a.len() == c.len());
    assert(a =~= t1.subrange(0, a.len() as int));
    assert(c =~= t2.subrange(0, c.len() as int));
    assert(b =~= t1.subrange(a.len() as int + 1, t1.len() as int));
    assert(d =~= t2.subrange(c.len() as int + 1, t2.len() as int));
}

/// The per-process counter that numbers a process's sandbox cgroups.
#[derive(Debug)]
pub struct CgroupIds {
    /// The id the next sandbox gets.
    pub next: u64,
}

/// The id the counter hands out `k` calls after it stood at `start`
/// (counting wraps around at 2^64).
pub open spec fn issued(start: u64, k: nat) -> u64 {
    ((start + k) % 0x1_0000_0000_0000_0000) as u64
}

impl CgroupIds {
    /// Hands out the next id and moves the counter on by one, wrapping at
    /// 2^64.
    pub fn fresh(&mut self) -> (id: u64)
        ensures
            id == old(self).next,
            final(self).next == issued(old(self).next, 1),
    {
        let id: u64 = self.next;
        self.next = if id == u64::MAX { 0 } else { id + 1 };
        id
    }
}

/// Law: moving the counter on one call at a time gives the ids
/// `start, start + 1, ...`, so no two of the first 2^64 ids a process hands
/// out are equal — and with [`lemma_leaf_names_distinct`], no two of its
/// sandboxes share a leaf cgroup.
pub proof fn lemma_issued_ids_distinct(start: u64, i: nat, j: nat)
    requires
        i < j < 0x1_0000_0000_0000_0000,
    ensures
        issued(issued(start, i), 1) == issued(start, i + 1),
        issued(start, i) != issued(start, j),
{
}

/// Law: the value written for the memory limit reads back as that limit.
pub proof fn lemma_memory_limit_reads_back(v: CgroupLimitsView, leaf: Seq<char>)
    requires
        v.memory_max is Some,
    ensures
        crate::text::parse_decimal(limit_writes(v, leaf)[0].1) == v.memory_max->0,
{
    crate::text::lemma_decimal_round_trip(v.memory_max->0 as nat);
}

/// Law: the value written for the process limit reads back as that limit.
pub proof fn lemma_pids_limit_reads_back(v: CgroupLimitsView, leaf: Seq<char>)
    requires
        v.pids_max is Some,
    ensures
        crate::text::parse_decimal(
            limit_writes(v, leaf)[if v.memory_max is Some { 1int } else { 0int }].1,
        ) == v.pids_max->0,
{
    crate::text::lemma_decimal_round_trip(v.pids_max->0 as nat);
}

/// Law: the `cpu.max` value is the last write and reads back as the
/// configured pair: digits of the quota, one space, digits of the period,
/// for every quota and period (a quota above the period — several CPUs'
/// worth — included).
pub proof fn lemma_cpu_limit_reads_back(v: CgroupLimitsView, leaf: Seq<char>)
    requires
        v.cpu_max is Some,
    ensures
        ({
            let ws = limit_writes(v, leaf);
            let w = ws.last().1;
            let (q, p) = v.cpu_max->0;
            &&& ws.last().0 == join_path(leaf, "cpu.max"@)
            &&& exists|k: int|
                0 < k < w.len() - 1 && w[k] == ' ' && crate::text::parse_decimal(w.subrange(0, k)) == q
                    && crate::text::parse_decimal(w.subrange(k + 1, w.len() as int)) == p && (forall|i: int|
                    0 <= i < w.len() && i != k ==> '0' <= #[trigger] w[i] <= '9')
        }),
{
    reveal_strlit(" ");
    let (q, p) = v.cpu_max->0;
    crate::text::lemma_decimal_round_trip(q as nat);
    crate::text::lemma_decimal_round_trip(p as nat);
    crate::text::lemma_decimal_digits(q as nat);
    crate::text::lemma_decimal_digits(p as nat);
    let ws = limit_writes(v, leaf);
    let dq = decimal(q as nat);
    let dp = decimal(p as nat);
    let w = ws.last().1;
    assert(w =~= dq + seq![' '] + dp);
    let k = dq.len() as int;
    assert(w.subrange(0, k) =~= dq);
    assert(w.subrange(k + 1, w.len() as int) =~= dp);
    assert(w[k] == ' ');
    assert forall|i: int| 0 <= i < w.len() && i != k implies '0' <= #[trigger] w[i] <= '9' by {
        if i < k {
            assert(w[i] == dq[i]);
        } else {
            assert(w[i] == dp[i - k - 1]);
        }
    }
}

impl CgroupLimits {
    /// Starts an empty cgroup v2 limit set under `/sys/fs/cgroup`.
    pub fn new() -> (r: Self)
        ensures
            r@.root == default_root(),
            r@.memory_max is None,
            r@.pids_max is None,
            r@.cpu_max is None,
    {
        CgroupLimits {
            root: String::from_str("/sys/fs/cgroup"),
            memory_max: None,
            pids_max: None,
            cpu_max: None,
        }
    }

    /// Uses a caller-provided delegated cgroup v2 directory as the parent.
    pub fn root(self, root: &str) -> (r: Self)
        ensures
            r@.root == root@,
            r@.memory_max == self@.memory_max,
            r@.pids_max == self@.pids_max,
            r@.cpu_max == self@.cpu_max,
    {
        CgroupLimits { root: String::from_str(root), ..self }
    }

    /// Limits the sandbox's memory usage in bytes.
    pub fn memory_max(self, bytes: u64) -> (r: Self)
        ensures
            r@.root == self@.root,
            r@.memory_max == Some(bytes),
            r@.pids_max == self@.pids_max,
            r@.cpu_max == self@.cpu_max,
    {
        CgroupLimits { memory_max: Some(bytes), ..self }
    }

    /// Limits the number of processes/threads in the sandbox.
    pub fn pids_max(self, count: u64) -> (r: Self)
        ensures
            r@.root == self@.root,
            r@.memory_max == self@.memory_max,
            r@.pids_max == Some(count),
            r@.cpu_max == self@.cpu_max,
    {
        CgroupLimits { pids_max: Some(count), ..self }
    }

    /// Limits CPU time to `quota_us` per `period_us`.
    pub fn cpu_max(self, quota_us: u64, period_us: u64) -> (r: Self)
        ensures
            r@.root == self@.root,
            r@.memory_max == self@.memory_max,
            r@.pids_max == self@.pids_max,
            r@.cpu_max == Some((quota_us, period_us)),
    {
        CgroupLimits { cpu_max: Some(CpuMax { quota_us, period_us }), ..self }
    }

    /// The setup of the leaf cgroup for process `pid`'s `id`-th sandbox, or
    /// the reason these limits cannot be applied. Nothing on disk is
    /// touched: a zero CPU period is rejected before the root is looked at.
    pub fn plan(&self, pid: u32, id: u64) -> (r: Result<CgroupPlan, CgroupError>)
        ensures
            !limits_valid(self@) <==> r == Err::<CgroupPlan, CgroupError>(CgroupError::ZeroCpuPeriod),
            r matches Ok(p) ==> plan_matches(self@, pid as nat, id as nat, p),
    {
        if let Some(cpu) = self.cpu_max {
            if cpu.period_us == 0 {
                return Err(CgroupError::ZeroCpuPeriod);
            }
        }
        let controllers = join(self.root.as_str(), "cgroup.controllers");
        let mut name = String::from_str("gateflow-");
        push_decimal(&mut name, pid as u64);
        name.append("-");
        push_decimal(&mut name, id);
        let leaf = join(self.root.as_str(), name.as_str());
        let ghost lv = leaf@;

        let mut writes: Vec<CgroupWrite> = Vec::new();
        if let Some(bytes) = self.memory_max {
            writes.push(CgroupWrite { path: join(leaf.as_str(), "memory.max"), value: decimal_string(bytes) });
        }
        let ghost after_mem = writes@.map_values(|w: CgroupWrite| w@);
        if let Some(count) = self.pids_max {
            writes.push(CgroupWrite { path: join(leaf.as_str(), "pids.max"), value: decimal_string(count) });
        }
        let ghost after_pids = writes@.map_values(|w: CgroupWrite| w@);
        if let Some(cpu) = self.cpu_max {
            let mut value = decimal_string(cpu.quota_us);
            value.append(" ");
            push_decimal(&mut value, cpu.period_us);
            writes.push(CgroupWrite { path: join(leaf.as_str(), "cpu.max"), value });
        }
        proof {
            let v = self@;
            let mem = match v.memory_max {
                Some(b) => seq![(join_path(lv, "memory.max"@), decimal(b as nat))],
                None => Seq::empty(),
            };
            let pids = match v.pids_max {
                Some(c) => seq![(join_path(lv, "pids.max"@), decimal(c as nat))],
                None => Seq::empty(),
            };
            assert(after_mem =~= mem);
            assert(after_pids =~= mem + pids);
            assert(writes@.map_values(|w: CgroupWrite| w@) =~= limit_writes(v, lv));
        }
        Ok(CgroupPlan { controllers, leaf, writes })
    }
}

/// The write that admits process `pid` to the cgroup `leaf`.
pub fn procs_write(leaf: &str, pid: i32) -> (w: CgroupWrite)
    ensures
        w@ == (join_path(leaf@, "cgroup.procs"@), signed_decimal(pid as int)),
{
    CgroupWrite { path: join(leaf, "cgroup.procs"), value: signed_decimal_string(pid) }
}

impl Default for CgroupLimits {
    fn default() -> (r: Self)
        ensures
            r@.root == default_root(),
            r@.memory_max is None,
            r@.pids_max is None,
            r@.cpu_max is None,
    {
        Self::new()
    }
}

} // verus!
