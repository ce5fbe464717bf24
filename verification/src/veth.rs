//! Real veth-pair connectivity between two sandboxed namespaces: the
//! addressing of the link, the setup each side performs, and the
//! handshake protocol that sequences the two forked processes.
//!
//! ```text
//! Coordinator (caller)
//!   └─ fork → A: enter_unprivileged_net_namespace() [new userns U, netns N1]
//!        └─ fork → B: enter_sibling_net_namespace()  [same U, new netns N2]
//! ```
//!
//! `B` is a fork of `A`, so both namespaces share one owning user namespace.
//! Pipes sequence the handshake: `B` tells `A` its namespace is ready; `A`
//! creates the pair, configures its end and tells `B`; `B` configures its
//! end and confirms it is up; only then does `a_fn` run (a veth end has no
//! carrier until both ends are up), and only after `a_fn` returned does `A`
//! reap `B` (reaping first deadlocks a `B` that waits for `a_fn`'s traffic)
//! and relay `B`'s exit code to the coordinator as one byte.
//!
//! Sentinel exit codes of a failed setup step:
//!
//! | Code | Side | Meaning |
//! |---|---|---|
//! | 121 | A | `enter_unprivileged_net_namespace` failed |
//! | 122 | A | forking B failed |
//! | 123 | A | never heard B's "namespace ready" signal (B died first) |
//! | 124 | A | creating/configuring the veth pair failed |
//! | 125 | A | signaling B that wiring is done failed |
//! | 126 | A | `waitpid` on B failed, or B didn't exit normally |
//! | 127 | A | relaying B's exit code back to the coordinator failed |
//! | 128 | A | never heard B confirm its own end is up (B died first) |
//! | 131 | B | `enter_sibling_net_namespace` failed |
//! | 132 | B | signaling "namespace ready" to A failed |
//! | 133 | B | never heard A's "wiring done" signal (A died first) |
//! | 134 | B | configuring its own veth end failed |
//! | 135 | B | signaling "my end is up" back to A failed |
//!
//! `-1` for B's code means A never relayed one.

use vstd::prelude::*;
use crate::netns::Outcome;

verus! {

/// An IPv4 address as its four octets, most significant first.
#[derive(Debug, Clone, Copy, PartialEq, Eq, Structural)]
pub struct Ipv4 {
    /// First octet.
    pub a: u8,
    /// Second octet.
    pub b: u8,
    /// Third octet.
    pub c: u8,
    /// Fourth octet.
    pub d: u8,
}

/// The network interfaces a paired sandbox touches.
#[derive(Debug, Clone, Copy, PartialEq, Eq, Structural)]
pub enum Iface {
    /// A's end of the pair, `veth-a`.
    VethA,
    /// B's end of the pair, `veth-b`.
    VethB,
    /// The loopback interface, `lo`.
    Loopback,
}

/// The kernel name of an interface.
pub open spec fn iface_name(i: Iface) -> Seq<char> {
    match i {
        Iface::VethA => "veth-a"@,
        Iface::VethB => "veth-b"@,
        Iface::Loopback => "lo"@,
    }
}

impl Iface {
    /// The kernel name of this interface.
    pub fn name(&self) -> (r: &'static str)
        ensures
            r@ == iface_name(*self),
    {
        match self {
            Iface::VethA => "veth-a",
            Iface::VethB => "veth-b",
            Iface::Loopback => "lo",
        }
    }
}

/// Prefix length of the point-to-point link's private `/24`.
pub const SUBNET_PREFIX: u8 = 24;

/// A's address on the link, `10.200.100.1`.
pub open spec fn addr_a() -> Ipv4 {
    Ipv4 { a: 10, b: 200, c: 100, d: 1 }
}

/// B's address on the link, `10.200.100.2`.
pub open spec fn addr_b() -> Ipv4 {
    Ipv4 { a: 10, b: 200, c: 100, d: 2 }
}

/// One step of setting up a side's end of the link.
#[derive(Debug, Clone, Copy, PartialEq, Eq, Structural)]
pub enum SetupOp {
    /// Make the read end of the peer's completion-signal pipe non-blocking.
    PeerSignalNonblocking,
    /// Create the veth pair `local`/`peer`, with `peer` placed in the
    /// network namespace of process `peer_pid`.
    AddVethPair { local: Iface, peer: Iface, peer_pid: u32 },
    /// Assign `address/prefix` to `iface`.
    AddAddress { iface: Iface, address: Ipv4, prefix: u8 },
    /// Bring `iface` up.
    SetUp(Iface),
}

/// What one side's closure gets to know about its end of the link.
#[derive(Debug, Clone, Copy, PartialEq, Eq, Structural)]
pub struct Endpoint {
    /// The local interface, already up.
    pub interface: Iface,
    /// This side's address on the link.
    pub address: Ipv4,
    /// The peer's address: what to connect or send to.
    pub peer_address: Ipv4,
}

/// A's setup, given B's pid: mark the peer signal non-blocking, create the
/// pair with `veth-b` in B's namespace, address and bring up `veth-a`,
/// bring up `lo`.
pub open spec fn side_a_ops(peer_pid: i32) -> Seq<SetupOp> {
    seq![
        SetupOp::PeerSignalNonblocking,
        SetupOp::AddVethPair { local: Iface::VethA, peer: Iface::VethB, peer_pid: peer_pid as u32 },
        SetupOp::AddAddress { iface: Iface::VethA, address: addr_a(), prefix: 24 },
        SetupOp::SetUp(Iface::VethA),
        SetupOp::SetUp(Iface::Loopback),
    ]
}

/// B's setup: `veth-b` already exists in its namespace, so it only marks
/// the peer signal non-blocking, addresses and brings up `veth-b`, and
/// brings up `lo`.
pub open spec fn side_b_ops() -> Seq<SetupOp> {
    seq![
        SetupOp::PeerSignalNonblocking,
        SetupOp::AddAddress { iface: Iface::VethB, address: addr_b(), prefix: 24 },
        SetupOp::SetUp(Iface::VethB),
        SetupOp::SetUp(Iface::Loopback),
    ]
}

/// A's end of the link.
pub open spec fn endpoint_a() -> Endpoint {
    Endpoint { interface: Iface::VethA, address: addr_a(), peer_address: addr_b() }
}

/// B's end of the link.
pub open spec fn endpoint_b() -> Endpoint {
    Endpoint { interface: Iface::VethB, address: addr_b(), peer_address: addr_a() }
}

/// A's setup steps and the end its closure gets.
pub fn side_a_setup(peer_pid: i32) -> (r: (Vec<SetupOp>, Endpoint))
    ensures
        r.0@ == side_a_ops(peer_pid),
        r.1 == endpoint_a(),
{
    let a = Ipv4 { a: 10, b: 200, c: 100, d: 1 };
    let b = Ipv4 { a: 10, b: 200, c: 100, d: 2 };
    let mut ops: Vec<SetupOp> = Vec::new();
    ops.push(SetupOp::PeerSignalNonblocking);
    ops.push(SetupOp::AddVethPair { local: Iface::VethA, peer: Iface::VethB, peer_pid: peer_pid as u32 });
    ops.push(SetupOp::AddAddress { iface: Iface::VethA, address: a, prefix: SUBNET_PREFIX });
    ops.push(SetupOp::SetUp(Iface::VethA));
    ops.push(SetupOp::SetUp(Iface::Loopback));
    assert(ops@ =~= side_a_ops(peer_pid));
    (ops, Endpoint { interface: Iface::VethA, address: a, peer_address: b })
}

/// B's setup steps and the end its closure gets.
pub fn side_b_setup() -> (r: (Vec<SetupOp>, Endpoint))
    ensures
        r.0@ == side_b_ops(),
        r.1 == endpoint_b(),
{
    let a = Ipv4 { a: 10, b: 200, c: 100, d: 1 };
    let b = Ipv4 { a: 10, b: 200, c: 100, d: 2 };
    let mut ops: Vec<SetupOp> = Vec::new();
    ops.push(SetupOp::PeerSignalNonblocking);
    ops.push(SetupOp::AddAddress { iface: Iface::VethB, address: b, prefix: SUBNET_PREFIX });
    ops.push(SetupOp::SetUp(Iface::VethB));
    ops.push(SetupOp::SetUp(Iface::Loopback));
    assert(ops@ =~= side_b_ops());
    (ops, Endpoint { interface: Iface::VethB, address: b, peer_address: a })
}

/// Law: the two ends describe one link: each side's peer address is the
/// other's address, the addresses differ and share the `/24` both are
/// assigned with, the interface A creates as the peer is the one B
/// configures, and each closure's interface is the one its side brought up.
pub proof fn lemma_endpoints_agree(peer_pid: i32)
    ensures
        endpoint_a().peer_address == endpoint_b().address,
        endpoint_b().peer_address == endpoint_a().address,
        endpoint_a().address != endpoint_b().address,
        endpoint_a().address.a == endpoint_b().address.a,
        endpoint_a().address.b == endpoint_b().address.b,
        endpoint_a().address.c == endpoint_b().address.c,
        side_a_ops(peer_pid)[1] == (SetupOp::AddVethPair { local: endpoint_a().interface, peer: endpoint_b().interface, peer_pid: peer_pid as u32 }),
        side_a_ops(peer_pid)[2] == (SetupOp::AddAddress { iface: endpoint_a().interface, address: endpoint_a().address, prefix: 24 }),
        side_b_ops()[1] == (SetupOp::AddAddress { iface: endpoint_b().interface, address: endpoint_b().address, prefix: 24 }),
        side_a_ops(peer_pid)[3] == SetupOp::SetUp(endpoint_a().interface),
        side_b_ops()[2] == SetupOp::SetUp(endpoint_b().interface),
        iface_name(endpoint_a().interface) != iface_name(endpoint_b().interface),
{
    reveal_strlit("veth-a");
    reveal_strlit("veth-b");
    assert("veth-a"@[5] != "veth-b"@[5]);
}

// ---------------------------------------------------------------------
// Side A
// ---------------------------------------------------------------------

/// The next thing side A does.
#[derive(Debug, Clone, Copy, PartialEq, Eq, Structural)]
pub enum StepA {
    /// Enter a fresh user + network namespace.
    EnterNamespace,
    /// Fork B.
    ForkB,
    /// Read B's "namespace ready" byte.
    AwaitBReady,
    /// Perform [`side_a_setup`].
    Configure,
    /// Write the "wiring done" byte to B.
    SignalWired,
    /// Read B's "my end is up" byte.
    AwaitBEndUp,
    /// Run `a_fn`.
    RunA,
    /// `waitpid` on B.
    ReapB,
    /// Write B's exit code, clamped to a byte, to the coordinator.
    RelayB(u8),
    /// Exit with this code.
    Exit(i32),
}

/// Side A's progress.
#[derive(Debug, Clone, Copy, PartialEq, Eq, Structural)]
pub enum SideA {
    /// Nothing done yet.
    Start,
    /// In its own namespace.
    Entered,
    /// B forked.
    Forked,
    /// B's namespace is ready.
    BReady,
    /// The pair exists and A's end is up.
    Configured,
    /// B was told the wiring is done.
    Wired,
    /// B confirmed its end is up.
    BEndUp,
    /// `a_fn` returned this code.
    Ran(i32),
    /// B was reaped; A's code and the byte to relay.
    Reaped(i32, u8),
    /// A exits with this code.
    Finished(i32),
}

/// B's exit code as the byte relayed to the coordinator.
pub open spec fn clamp_byte(code: i32) -> u8 {
    if code < 0 {
        0
    } else if code > 255 {
        255
    } else {
        code as u8
    }
}

/// The step side A performs in state `s`.
pub open spec fn step_a(s: SideA) -> StepA {
    match s {
        SideA::Start => StepA::EnterNamespace,
        SideA::Entered => StepA::ForkB,
        SideA::Forked => StepA::AwaitBReady,
        SideA::BReady => StepA::Configure,
        SideA::Configured => StepA::SignalWired,
        SideA::Wired => StepA::AwaitBEndUp,
        SideA::BEndUp => StepA::RunA,
        SideA::Ran(_) => StepA::ReapB,
        SideA::Reaped(_, byte) => StepA::RelayB(byte),
        SideA::Finished(code) => StepA::Exit(code),
    }
}

/// Side A after its current step ended with `o`.
pub open spec fn advance_a(s: SideA, o: Outcome) -> SideA {
    match s {
        SideA::Start => if o == Outcome::Done { SideA::Entered } else { SideA::Finished(121) },
        SideA::Entered => if o == Outcome::Done { SideA::Forked } else { SideA::Finished(122) },
        SideA::Forked => if o == Outcome::ReadBytes(1) { SideA::BReady } else { SideA::Finished(123) },
        SideA::BReady => if o == Outcome::Done { SideA::Configured } else { SideA::Finished(124) },
        SideA::Configured => if o == Outcome::Done { SideA::Wired } else { SideA::Finished(125) },
        SideA::Wired => if o == Outcome::ReadBytes(1) { SideA::BEndUp } else { SideA::Finished(128) },
        SideA::BEndUp => match o {
            Outcome::Returned(code) => SideA::Ran(code),
            _ => s,
        },
        SideA::Ran(a) => match o {
            Outcome::Exited(b) => SideA::Reaped(a, clamp_byte(b)),
            _ => SideA::Finished(126),
        },
        SideA::Reaped(a, _) => if o == Outcome::Done { SideA::Finished(a) } else { SideA::Finished(127) },
        SideA::Finished(_) => s,
    }
}

/// Side A after the outcomes `os`, one per step, from its start.
pub open spec fn run_a(os: Seq<Outcome>) -> SideA
    decreases os.len(),
{
    if os.len() == 0 {
        SideA::Start
    } else {
        advance_a(run_a(os.drop_last()), os.last())
    }
}

/// The outcomes of a fully successful setup of side A, up to and including
/// B's confirmation that its end is up.
pub open spec fn setup_a_ok() -> Seq<Outcome> {
    seq![Outcome::Done, Outcome::Done, Outcome::ReadBytes(1), Outcome::Done, Outcome::Done, Outcome::ReadBytes(1)]
}

/// The sentinel code of side A's `k`-th setup step.
pub open spec fn sentinel_a(k: int) -> i32 {
    if k == 0 {
        121
    } else if k == 1 {
        122
    } else if k == 2 {
        123
    } else if k == 3 {
        124
    } else if k == 4 {
        125
    } else {
        128
    }
}

impl SideA {
    /// Side A before it does anything.
    pub fn new() -> (r: Self)
        ensures
            r == SideA::Start,
    {
        SideA::Start
    }

    /// The step to perform next.
    pub fn next(&self) -> (r: StepA)
        ensures
            r == step_a(*self),
    {
        match *self {
            SideA::Start => StepA::EnterNamespace,
            SideA::Entered => StepA::ForkB,
            SideA::Forked => StepA::AwaitBReady,
            SideA::BReady => StepA::Configure,
            SideA::Configured => StepA::SignalWired,
            SideA::Wired => StepA::AwaitBEndUp,
            SideA::BEndUp => StepA::RunA,
            SideA::Ran(_) => StepA::ReapB,
            SideA::Reaped(_, byte) => StepA::RelayB(byte),
            SideA::Finished(code) => StepA::Exit(code),
        }
    }

    /// Records how the current step ended.
    pub fn advance(&mut self, o: Outcome)
        ensures
            *final(self) == advance_a(*old(self), o),
    {
        let next = match *self {
            SideA::Start => if o == Outcome::Done { SideA::Entered } else { SideA::Finished(121) },
            SideA::Entered => if o == Outcome::Done { SideA::Forked } else { SideA::Finished(122) },
            SideA::Forked => if o == Outcome::ReadBytes(1) { SideA::BReady } else { SideA::Finished(123) },
            SideA::BReady => if o == Outcome::Done { SideA::Configured } else { SideA::Finished(124) },
            SideA::Configured => if o == Outcome::Done { SideA::Wired } else { SideA::Finished(125) },
            SideA::Wired => if o == Outcome::ReadBytes(1) { SideA::BEndUp } else { SideA::Finished(128) },
            SideA::BEndUp => match o {
                Outcome::Returned(code) => SideA::Ran(code),
                _ => SideA::BEndUp,
            },
            SideA::Ran(a) => match o {
                Outcome::Exited(b) => SideA::Reaped(a, relay_byte(b)),
                _ => SideA::Finished(126),
            },
            SideA::Reaped(a, _) => if o == Outcome::Done { SideA::Finished(a) } else { SideA::Finished(127) },
            SideA::Finished(code) => SideA::Finished(code),
        };
        *self = next;
    }
}

/// B's exit code as the byte A relays: clamped to `0..=255`.
pub fn relay_byte(code: i32) -> (r: u8)
    ensures
        r == clamp_byte(code),
{
    if code < 0 {
        0
    } else if code > 255 {
        255
    } else {
        code as u8
    }
}

/// B's exit code as the coordinator reads it from the relay pipe, after
/// reading `bytes_read` bytes into `byte`.
pub open spec fn relayed(bytes_read: nat, byte: u8) -> i32 {
    if bytes_read == 1 {
        byte as i32
    } else {
        -1i32
    }
}

/// B's exit code as the coordinator reads it from the relay pipe: the byte
/// when exactly one was read, `-1` when A never relayed one.
pub fn decode_relay(bytes_read: usize, byte: u8) -> (r: i32)
    ensures
        r == relayed(bytes_read as nat, byte),
{
    if bytes_read == 1 {
        byte as i32
    } else {
        -1
    }
}

/// Law: an exit code in `0..=255` survives the relay unchanged; any other
/// is clamped into that range.
pub proof fn lemma_relay_round_trip(code: i32)
    ensures
        0 <= code <= 255 ==> relayed(1, clamp_byte(code)) == code,
        relayed(0, clamp_byte(code)) == -1,
        code < 0 ==> clamp_byte(code) == 0,
        code > 255 ==> clamp_byte(code) == 255,
{
}

/// A finished side stays finished.
proof fn lemma_a_finished_stays(os: Seq<Outcome>, k: int)
    requires
        0 <= k <= os.len(),
        run_a(os.take(k)) is Finished,
    ensures
        run_a(os) == run_a(os.take(k)),
    decreases os.len() - k,
{
    if k < os.len() {
        assert(os.take(k + 1).drop_last() =~= os.take(k));
        lemma_a_finished_stays(os, k + 1);
        assert(os.take(os.len() as int) =~= os);
    } else {
        assert(os.take(k) =~= os);
    }
}

/// Side A's state after `k` outcomes, as long as the setup is on track.
proof fn lemma_a_prefix(os: Seq<Outcome>)
    ensures
        ({
            let s = run_a(os);
            let n = os.len();
            &&& (s == SideA::Start) ==> n == 0
            &&& (s == SideA::Entered) ==> n == 1 && os =~= setup_a_ok().take(1)
            &&& (s == SideA::Forked) ==> n == 2 && os =~= setup_a_ok().take(2)
            &&& (s == SideA::BReady) ==> n == 3 && os =~= setup_a_ok().take(3)
            &&& (s == SideA::Configured) ==> n == 4 && os =~= setup_a_ok().take(4)
            &&& (s == SideA::Wired) ==> n == 5 && os =~= setup_a_ok().take(5)
            &&& (s == SideA::BEndUp) ==> n >= 6 && os.take(6) =~= setup_a_ok()
                && (forall|i: int| 6 <= i < n ==> !(#[trigger] os[i] is Returned))
            &&& (s is Ran) ==> n >= 7 && os.take(6) =~= setup_a_ok()
                && (exists|i: int| 6 <= i < n && #[trigger] os[i] == Outcome::Returned(s->Ran_0))
            &&& (s is Reaped) ==> n >= 8 && os.take(6) =~= setup_a_ok()
                && (exists|i: int| 6 <= i < n - 1 && #[trigger] os[i] == Outcome::Returned(s->Reaped_0))
                && (exists|b: i32| os.last() == Outcome::Exited(b) && s->Reaped_1 == clamp_byte(b))
        }),
    decreases os.len(),
{
    if os.len() > 0 {
        let p = os.drop_last();
        lemma_a_prefix(p);
        let s0 = run_a(p);
        let n = os.len();
        assert(os.take(n - 1) =~= p);
        if s0 is BEndUp {
            assert(p.take(6) =~= os.take(6));
            assert forall|i: int| 6 <= i < n - 1 implies !(#[trigger] os[i] is Returned) by {
                assert(os[i] == p[i]);
            }
            if let Outcome::Returned(c) = os.last() {
                assert(os[n - 1] == Outcome::Returned(c));
            }
        }
        if s0 is Ran {
            assert(p.take(6) =~= os.take(6));
            let i = choose|i: int| 6 <= i < p.len() && #[trigger] p[i] == Outcome::Returned(s0->Ran_0);
            assert(os[i] == p[i]);
        }
        if s0 == SideA::Wired {
            assert(os =~= setup_a_ok().take(5).push(os.last()));
        }
        if s0 == SideA::Start {
            assert(p.len() == 0);
        }
        if s0 == SideA::Entered || s0 == SideA::Forked || s0 == SideA::BReady || s0 == SideA::Configured {
            assert(os =~= p.push(os.last()));
        }
    }
}

/// Law: `a_fn` runs only once every setup step succeeded — A's namespace,
/// forking B, B's readiness, the pair and A's end, telling B, and B's
/// confirmation that its own end is up — so both ends have carrier.
pub proof fn lemma_a_runs_only_after_b_end_up(os: Seq<Outcome>)
    requires
        step_a(run_a(os)) == StepA::RunA,
    ensures
        os.len() >= 6,
        os.take(6) == setup_a_ok(),
{
    lemma_a_prefix(os);
}

/// Law: A reaps B only after `a_fn` returned — never before, which would
/// deadlock a B that waits for `a_fn`'s traffic.
pub proof fn lemma_b_reaped_only_after_a_ran(os: Seq<Outcome>)
    requires
        step_a(run_a(os)) == StepA::ReapB,
    ensures
        os.len() >= 7,
        os.take(6) == setup_a_ok(),
        exists|i: int| 6 <= i < os.len() && (#[trigger] os[i]) is Returned,
{
    lemma_a_prefix(os);
}

/// Side A's state after the first `k` outcomes of a successful setup.
pub open spec fn setup_state_a(k: int) -> SideA {
    if k <= 0 {
        SideA::Start
    } else if k == 1 {
        SideA::Entered
    } else if k == 2 {
        SideA::Forked
    } else if k == 3 {
        SideA::BReady
    } else if k == 4 {
        SideA::Configured
    } else if k == 5 {
        SideA::Wired
    } else {
        SideA::BEndUp
    }
}

proof fn lemma_setup_a_states(k: int)
    requires
        0 <= k <= 6,
    ensures
        run_a(setup_a_ok().take(k)) == setup_state_a(k),
    decreases k,
{
    if k > 0 {
        lemma_setup_a_states(k - 1);
        assert(setup_a_ok().take(k).drop_last() =~= setup_a_ok().take(k - 1));
    } else {
        assert(setup_a_ok().take(0) =~= Seq::<Outcome>::empty());
    }
}

/// Law: A relays a code only for a B it reaped after a full setup and after
/// `a_fn` returned, and the byte it relays is B's exit code clamped to
/// `0..=255`; before that, the coordinator reads nothing and reports `-1`.
pub proof fn lemma_relay_only_after_reaping_b(os: Seq<Outcome>)
    requires
        step_a(run_a(os)) is RelayB,
    ensures
        os.len() >= 8,
        os.take(6) == setup_a_ok(),
        exists|i: int| 6 <= i < os.len() - 1 && (#[trigger] os[i]) is Returned,
        exists|b: i32| os.last() == Outcome::Exited(b) && step_a(run_a(os)) == StepA::RelayB(clamp_byte(b)),
{
    lemma_a_prefix(os);
}

/// Law: when A's `k`-th setup step fails, A exits with that step's sentinel
/// code and does nothing more, whatever happens afterwards.
pub proof fn lemma_a_sentinel(k: int, o: Outcome, rest: Seq<Outcome>)
    requires
        0 <= k < 6,
        o != setup_a_ok()[k],
    ensures
        run_a(setup_a_ok().take(k).push(o) + rest) == SideA::Finished(sentinel_a(k)),
{
    let pre = setup_a_ok().take(k).push(o);
    let os = pre + rest;
    assert(pre.drop_last() =~= setup_a_ok().take(k));
    lemma_setup_a_states(k);
    assert(run_a(pre) == SideA::Finished(sentinel_a(k)));
    assert(os.take(pre.len() as int) =~= pre);
    lemma_a_finished_stays(os, pre.len() as int);
}

/// Law: after a successful setup, `a_fn` returning `a`, B exiting with `b`
/// and a successful relay, A relays `b` clamped to a byte and exits with `a`.
pub proof fn lemma_a_success(a: i32, b: i32)
    ensures
        step_a(run_a(setup_a_ok().push(Outcome::Returned(a)).push(Outcome::Exited(b)))) == StepA::RelayB(clamp_byte(b)),
        run_a(setup_a_ok().push(Outcome::Returned(a)).push(Outcome::Exited(b)).push(Outcome::Done)) == SideA::Finished(a),
{
    let s = setup_a_ok();
    lemma_setup_a_states(6);
    assert(s.take(6) =~= s);
    assert(run_a(s) == SideA::BEndUp);
    let r = s.push(Outcome::Returned(a));
    assert(r.drop_last() =~= s);
    assert(run_a(r) == SideA::Ran(a));
    let e = r.push(Outcome::Exited(b));
    assert(e.drop_last() =~= r);
    assert(run_a(e) == SideA::Reaped(a, clamp_byte(b)));
    let d = e.push(Outcome::Done);
    assert(d.drop_last() =~= e);
    assert(run_a(d) == SideA::Finished(a));
}

// ---------------------------------------------------------------------
// Side B
// ---------------------------------------------------------------------

/// The next thing side B does.
#[derive(Debug, Clone, Copy, PartialEq, Eq, Structural)]
pub enum StepB {
    /// Enter a new network namespace owned by A's user namespace.
    EnterSiblingNamespace,
    /// Write the "namespace ready" byte to A.
    SignalReady,
    /// Read A's "wiring done" byte.
    AwaitWired,
    /// Perform [`side_b_setup`].
    Configure,
    /// Write the "my end is up" byte to A.
    SignalEndUp,
    /// Run `b_fn`.
    RunB,
    /// Exit with this code.
    Exit(i32),
}

/// Side B's progress.
#[derive(Debug, Clone, Copy, PartialEq, Eq, Structural)]
pub enum SideB {
    /// Nothing done yet.
    Start,
    /// In its own network namespace.
    Entered,
    /// A was told the namespace is ready.
    Announced,
    /// A said the pair exists.
    Wired,
    /// B's end is up.
    Configured,
    /// A was told B's end is up.
    EndUp,
    /// B exits with this code.
    Finished(i32),
}

/// The step side B performs in state `s`.
pub open spec fn step_b(s: SideB) -> StepB {
    match s {
        SideB::Start => StepB::EnterSiblingNamespace,
        SideB::Entered => StepB::SignalReady,
        SideB::Announced => StepB::AwaitWired,
        SideB::Wired => StepB::Configure,
        SideB::Configured => StepB::SignalEndUp,
        SideB::EndUp => StepB::RunB,
        SideB::Finished(code) => StepB::Exit(code),
    }
}

/// Side B after its current step ended with `o`.
pub open spec fn advance_b(s: SideB, o: Outcome) -> SideB {
    match s {
        SideB::Start => if o == Outcome::Done { SideB::Entered } else { SideB::Finished(131) },
        SideB::Entered => if o == Outcome::Done { SideB::Announced } else { SideB::Finished(132) },
        SideB::Announced => if o == Outcome::ReadBytes(1) { SideB::Wired } else { SideB::Finished(133) },
        SideB::Wired => if o == Outcome::Done { SideB::Configured } else { SideB::Finished(134) },
        SideB::Configured => if o == Outcome::Done { SideB::EndUp } else { SideB::Finished(135) },
        SideB::EndUp => match o {
            Outcome::Returned(code) => SideB::Finished(code),
            _ => s,
        },
        SideB::Finished(_) => s,
    }
}

/// Side B after the outcomes `os`, one per step, from its start.
pub open spec fn run_b(os: Seq<Outcome>) -> SideB
    decreases os.len(),
{
    if os.len() == 0 {
        SideB::Start
    } else {
        advance_b(run_b(os.drop_last()), os.last())
    }
}

/// The outcomes of a fully successful setup of side B.
pub open spec fn setup_b_ok() -> Seq<Outcome> {
    seq![Outcome::Done, Outcome::Done, Outcome::ReadBytes(1), Outcome::Done, Outcome::Done]
}

/// The sentinel code of side B's `k`-th setup step.
pub open spec fn sentinel_b(k: int) -> i32 {
    (131 + k) as i32
}

impl SideB {
    /// Side B before it does anything.
    pub fn new() -> (r: Self)
        ensures
            r == SideB::Start,
    {
        SideB::Start
    }

    /// The step to perform next.
    pub fn next(&self) -> (r: StepB)
        ensures
            r == step_b(*self),
    {
        match *self {
            SideB::Start => StepB::EnterSiblingNamespace,
            SideB::Entered => StepB::SignalReady,
            SideB::Announced => StepB::AwaitWired,
            SideB::Wired => StepB::Configure,
            SideB::Configured => StepB::SignalEndUp,
            SideB::EndUp => StepB::RunB,
            SideB::Finished(code) => StepB::Exit(code),
        }
    }

    /// Records how the current step ended.
    pub fn advance(&mut self, o: Outcome)
        ensures
            *final(self) == advance_b(*old(self), o),
    {
        let next = match *self {
            SideB::Start => if o == Outcome::Done { SideB::Entered } else { SideB::Finished(131) },
            SideB::Entered => if o == Outcome::Done { SideB::Announced } else { SideB::Finished(132) },
            SideB::Announced => if o == Outcome::ReadBytes(1) { SideB::Wired } else { SideB::Finished(133) },
            SideB::Wired => if o == Outcome::Done { SideB::Configured } else { SideB::Finished(134) },
            SideB::Configured => if o == Outcome::Done { SideB::EndUp } else { SideB::Finished(135) },
            SideB::EndUp => match o {
                Outcome::Returned(code) => SideB::Finished(code),
                _ => SideB::EndUp,
            },
            SideB::Finished(code) => SideB::Finished(code),
        };
        *self = next;
    }
}

/// Side B's state after `os`, as long as the setup is on track.
proof fn lemma_b_prefix(os: Seq<Outcome>)
    ensures
        ({
            let s = run_b(os);
            let n = os.len();
            &&& (s == SideB::Start) ==> n == 0
            &&& (s == SideB::Entered) ==> os =~= setup_b_ok().take(1)
            &&& (s == SideB::Announced) ==> os =~= setup_b_ok().take(2)
            &&& (s == SideB::Wired) ==> os =~= setup_b_ok().take(3)
            &&& (s == SideB::Configured) ==> os =~= setup_b_ok().take(4)
            &&& (s == SideB::EndUp) ==> n >= 5 && os.take(5) =~= setup_b_ok()
        }),
    decreases os.len(),
{
    if os.len() > 0 {
        let p = os.drop_last();
        lemma_b_prefix(p);
        let n = os.len();
        assert(os.take(n - 1) =~= p);
        if run_b(p) == SideB::EndUp {
            assert(p.take(5) =~= os.take(5));
        }
        assert(os =~= p.push(os.last()));
    }
}

/// Side B's state after the first `k` outcomes of a successful setup.
pub open spec fn setup_state_b(k: int) -> SideB {
    if k <= 0 {
        SideB::Start
    } else if k == 1 {
        SideB::Entered
    } else if k == 2 {
        SideB::Announced
    } else if k == 3 {
        SideB::Wired
    } else if k == 4 {
        SideB::Configured
    } else {
        SideB::EndUp
    }
}

proof fn lemma_setup_b_states(k: int)
    requires
        0 <= k <= 5,
    ensures
        run_b(setup_b_ok().take(k)) == setup_state_b(k),
    decreases k,
{
    if k > 0 {
        lemma_setup_b_states(k - 1);
        assert(setup_b_ok().take(k).drop_last() =~= setup_b_ok().take(k - 1));
    } else {
        assert(setup_b_ok().take(0) =~= Seq::<Outcome>::empty());
    }
}

/// A finished side B stays finished.
proof fn lemma_b_finished_stays(os: Seq<Outcome>, k: int)
    requires
        0 <= k <= os.len(),
        run_b(os.take(k)) is Finished,
    ensures
        run_b(os) == run_b(os.take(k)),
    decreases os.len() - k,
{
    if k < os.len() {
        assert(os.take(k + 1).drop_last() =~= os.take(k));
        lemma_b_finished_stays(os, k + 1);
        assert(os.take(os.len() as int) =~= os);
    } else {
        assert(os.take(k) =~= os);
    }
}

/// Law: when B's `k`-th setup step fails, B exits with that step's sentinel
/// code (131 to 135) and does nothing more; after a successful setup, B
/// exits with what `b_fn` returned.
pub proof fn lemma_b_exit_codes(k: int, o: Outcome, rest: Seq<Outcome>, code: i32)
    requires
        0 <= k < 5,
        o != setup_b_ok()[k],
    ensures
        run_b(setup_b_ok().take(k).push(o) + rest) == SideB::Finished(sentinel_b(k)),
        run_b(setup_b_ok().push(Outcome::Returned(code))) == SideB::Finished(code),
{
    let pre = setup_b_ok().take(k).push(o);
    let os = pre + rest;
    assert(pre.drop_last() =~= setup_b_ok().take(k));
    lemma_setup_b_states(k);
    assert(run_b(pre) == SideB::Finished(sentinel_b(k)));
    assert(os.take(pre.len() as int) =~= pre);
    lemma_b_finished_stays(os, pre.len() as int);
    lemma_setup_b_states(5);
    assert(setup_b_ok().take(5) =~= setup_b_ok());
    assert(setup_b_ok().push(Outcome::Returned(code)).drop_last() =~= setup_b_ok());
}

/// Law: `b_fn` runs only after B's namespace is ready, A confirmed the pair
/// exists, and B's own end is up and announced to A.
pub proof fn lemma_b_runs_only_after_setup(os: Seq<Outcome>)
    requires
        step_b(run_b(os)) == StepB::RunB,
    ensures
        os.len() >= 5,
        os.take(5) == setup_b_ok(),
{
    lemma_b_prefix(os);
}

// ---------------------------------------------------------------------
// Each closure runs at most once
// ---------------------------------------------------------------------

/// How far side A has got.
pub open spec fn rank_a(s: SideA) -> nat {
    match s {
        SideA::Start => 0,
        SideA::Entered => 1,
        SideA::Forked => 2,
        SideA::BReady => 3,
        SideA::Configured => 4,
        SideA::Wired => 5,
        SideA::BEndUp => 6,
        SideA::Ran(_) => 7,
        SideA::Reaped(_, _) => 8,
        SideA::Finished(_) => 9,
    }
}

/// How far side B has got.
pub open spec fn rank_b(s: SideB) -> nat {
    match s {
        SideB::Start => 0,
        SideB::Entered => 1,
        SideB::Announced => 2,
        SideB::Wired => 3,
        SideB::Configured => 4,
        SideB::EndUp => 5,
        SideB::Finished(_) => 6,
    }
}

/// Side A never goes back.
proof fn lemma_rank_a_grows(os: Seq<Outcome>, k: int, m: int)
    requires
        0 <= k <= m <= os.len(),
    ensures
        rank_a(run_a(os.take(m))) >= rank_a(run_a(os.take(k))),
    decreases m - k,
{
    if k < m {
        lemma_rank_a_grows(os, k, m - 1);
        assert(os.take(m).drop_last() =~= os.take(m - 1));
    }
}

/// Side B never goes back.
proof fn lemma_rank_b_grows(os: Seq<Outcome>, k: int, m: int)
    requires
        0 <= k <= m <= os.len(),
    ensures
        rank_b(run_b(os.take(m))) >= rank_b(run_b(os.take(k))),
    decreases m - k,
{
    if k < m {
        lemma_rank_b_grows(os, k, m - 1);
        assert(os.take(m).drop_last() =~= os.take(m - 1));
    }
}

/// Law: `a_fn` runs at most once: once side A has been told to run it and
/// it returned, side A is never told to run it again.
pub proof fn lemma_a_fn_runs_once(os: Seq<Outcome>, i: int, j: int)
    requires
        0 <= i < j <= os.len(),
        step_a(run_a(os.take(i))) == StepA::RunA,
        os[i] is Returned,
    ensures
        step_a(run_a(os.take(j))) != StepA::RunA,
{
    assert(os.take(i + 1).drop_last() =~= os.take(i));
    assert(rank_a(run_a(os.take(i + 1))) == 7);
    lemma_rank_a_grows(os, i + 1, j);
}

/// Law: `b_fn` runs at most once: once side B has been told to run it and
/// it returned, side B is never told to run it again.
pub proof fn lemma_b_fn_runs_once(os: Seq<Outcome>, i: int, j: int)
    requires
        0 <= i < j <= os.len(),
        step_b(run_b(os.take(i))) == StepB::RunB,
        os[i] is Returned,
    ensures
        step_b(run_b(os.take(j))) != StepB::RunB,
{
    assert(os.take(i + 1).drop_last() =~= os.take(i));
    assert(rank_b(run_b(os.take(i + 1))) == 6);
    lemma_rank_b_grows(os, i + 1, j);
}

// ---------------------------------------------------------------------
// Completion signal between the two closures
// ---------------------------------------------------------------------

/// What one non-blocking read of the peer's completion-signal pipe gave.
#[derive(Debug, Clone, Copy, PartialEq, Eq, Structural)]
pub enum PeerRead {
    /// This many bytes were read (`0` is end of file: the peer is gone).
    Bytes(usize),
    /// No data yet (`EAGAIN`).
    WouldBlock,
    /// Any other error, with its errno.
    Error(i32),
}

/// What waiting for the peer does after one read.
#[derive(Debug, Clone, Copy, PartialEq, Eq, Structural)]
pub enum PollDecision {
    /// The peer signaled: the wait returns `true`.
    Signaled,
    /// The peer exited without signaling, or the deadline passed: the wait
    /// returns `false`.
    NoSignal,
    /// Sleep briefly and read again.
    Retry,
    /// The read failed: the wait returns this errno as an error.
    Fail(i32),
}

/// The decision after one read, given whether the deadline has passed: a
/// signal byte ends the wait with `true`; end of file (the peer exited
/// without signaling) or a passed deadline end it with `false`; no data
/// before the deadline retries; any other error fails.
pub open spec fn poll_decision(read: PeerRead, deadline_passed: bool) -> PollDecision {
    match read {
        PeerRead::Bytes(n) => if n == 1 { PollDecision::Signaled } else { PollDecision::NoSignal },
        PeerRead::WouldBlock => if deadline_passed { PollDecision::NoSignal } else { PollDecision::Retry },
        PeerRead::Error(e) => PollDecision::Fail(e),
    }
}

/// Decides what waiting for the peer does after one read.
pub fn poll_peer(read: PeerRead, deadline_passed: bool) -> (r: PollDecision)
    ensures
        r == poll_decision(read, deadline_passed),
{
    match read {
        PeerRead::Bytes(n) => if n == 1 { PollDecision::Signaled } else { PollDecision::NoSignal },
        PeerRead::WouldBlock => if deadline_passed { PollDecision::NoSignal } else { PollDecision::Retry },
        PeerRead::Error(e) => PollDecision::Fail(e),
    }
}

/// Law: a timeout is an ordinary `false`, never an error, and the wait
/// never retries once its deadline has passed.
pub proof fn lemma_wait_respects_deadline(read: PeerRead)
    ensures
        poll_decision(read, true) != PollDecision::Retry,
        poll_decision(PeerRead::WouldBlock, true) == PollDecision::NoSignal,
        poll_decision(read, true) == PollDecision::Signaled <==> read == PeerRead::Bytes(1),
{
}

} // verus!
