use gateflow::netns::Outcome;
use gateflow::veth::{
    decode_relay, poll_peer, relay_byte, side_a_setup, side_b_setup, Iface, Ipv4, PeerRead,
    PollDecision, SetupOp, SideA, SideB, StepA, StepB,
};

fn drive_a(outcomes: &[Outcome]) -> Vec<StepA> {
    let mut a = SideA::new();
    let mut steps = vec![a.next()];
    for o in outcomes {
        a.advance(*o);
        steps.push(a.next());
    }
    steps
}

fn drive_b(outcomes: &[Outcome]) -> Vec<StepB> {
    let mut b = SideB::new();
    let mut steps = vec![b.next()];
    for o in outcomes {
        b.advance(*o);
        steps.push(b.next());
    }
    steps
}

const SETUP_A: [Outcome; 6] = [
    Outcome::Done,
    Outcome::Done,
    Outcome::ReadBytes(1),
    Outcome::Done,
    Outcome::Done,
    Outcome::ReadBytes(1),
];

#[test]
fn side_a_runs_a_fn_after_b_end_up_and_before_reaping_b() {
    let mut outcomes = SETUP_A.to_vec();
    outcomes.extend([Outcome::Returned(3), Outcome::Exited(300), Outcome::Done]);
    assert_eq!(
        drive_a(&outcomes),
        vec![
            StepA::EnterNamespace,
            StepA::ForkB,
            StepA::AwaitBReady,
            StepA::Configure,
            StepA::SignalWired,
            StepA::AwaitBEndUp,
            StepA::RunA,
            StepA::ReapB,
            StepA::RelayB(255),
            StepA::Exit(3),
        ]
    );
}

#[test]
fn side_a_sentinel_codes() {
    let expected = [121, 122, 123, 124, 125, 128];
    for (k, code) in expected.iter().enumerate() {
        let mut outcomes = SETUP_A[..k].to_vec();
        outcomes.push(Outcome::Failed);
        assert_eq!(drive_a(&outcomes).last(), Some(&StepA::Exit(*code)), "step {k}");
    }
    // B died before confirming: EOF on the end-up pipe.
    let mut eof = SETUP_A[..5].to_vec();
    eof.push(Outcome::ReadBytes(0));
    assert_eq!(drive_a(&eof).last(), Some(&StepA::Exit(128)));
    let mut reap_fail = SETUP_A.to_vec();
    reap_fail.extend([Outcome::Returned(0), Outcome::Failed]);
    assert_eq!(drive_a(&reap_fail).last(), Some(&StepA::Exit(126)));
    let mut relay_fail = SETUP_A.to_vec();
    relay_fail.extend([Outcome::Returned(0), Outcome::Exited(0), Outcome::Failed]);
    assert_eq!(drive_a(&relay_fail).last(), Some(&StepA::Exit(127)));
}

#[test]
fn side_b_sentinel_codes_and_success() {
    let setup = [Outcome::Done, Outcome::Done, Outcome::ReadBytes(1), Outcome::Done, Outcome::Done];
    for (k, code) in [131, 132, 133, 134, 135].iter().enumerate() {
        let mut outcomes = setup[..k].to_vec();
        outcomes.push(Outcome::Failed);
        assert_eq!(drive_b(&outcomes).last(), Some(&StepB::Exit(*code)), "step {k}");
    }
    let mut ok = setup.to_vec();
    ok.push(Outcome::Returned(9));
    assert_eq!(
        drive_b(&ok),
        vec![
            StepB::EnterSiblingNamespace,
            StepB::SignalReady,
            StepB::AwaitWired,
            StepB::Configure,
            StepB::SignalEndUp,
            StepB::RunB,
            StepB::Exit(9),
        ]
    );
}

#[test]
fn relay_round_trips_exit_codes() {
    for code in [0, 1, 42, 255] {
        assert_eq!(decode_relay(1, relay_byte(code)), code);
    }
    assert_eq!(relay_byte(-5), 0);
    assert_eq!(relay_byte(1000), 255);
    assert_eq!(decode_relay(0, 17), -1);
}

#[test]
fn both_ends_describe_one_link() {
    let (ops_a, end_a) = side_a_setup(4321);
    let (ops_b, end_b) = side_b_setup();
    let addr_a = Ipv4 { a: 10, b: 200, c: 100, d: 1 };
    let addr_b = Ipv4 { a: 10, b: 200, c: 100, d: 2 };
    assert_eq!(end_a.address, addr_a);
    assert_eq!(end_a.peer_address, addr_b);
    assert_eq!(end_b.address, addr_b);
    assert_eq!(end_b.peer_address, addr_a);
    assert_eq!(end_a.interface.name(), "veth-a");
    assert_eq!(end_b.interface.name(), "veth-b");
    assert_eq!(Iface::Loopback.name(), "lo");
    assert_eq!(
        ops_a,
        vec![
            SetupOp::PeerSignalNonblocking,
            SetupOp::AddVethPair { local: Iface::VethA, peer: Iface::VethB, peer_pid: 4321 },
            SetupOp::AddAddress { iface: Iface::VethA, address: addr_a, prefix: 24 },
            SetupOp::SetUp(Iface::VethA),
            SetupOp::SetUp(Iface::Loopback),
        ]
    );
    assert_eq!(
        ops_b,
        vec![
            SetupOp::PeerSignalNonblocking,
            SetupOp::AddAddress { iface: Iface::VethB, address: addr_b, prefix: 24 },
            SetupOp::SetUp(Iface::VethB),
            SetupOp::SetUp(Iface::Loopback),
        ]
    );
}

#[test]
fn wait_for_peer_decisions() {
    assert_eq!(poll_peer(PeerRead::Bytes(1), false), PollDecision::Signaled);
    assert_eq!(poll_peer(PeerRead::Bytes(0), false), PollDecision::NoSignal);
    assert_eq!(poll_peer(PeerRead::WouldBlock, false), PollDecision::Retry);
    assert_eq!(poll_peer(PeerRead::WouldBlock, true), PollDecision::NoSignal);
    assert_eq!(poll_peer(PeerRead::Error(9), false), PollDecision::Fail(9));
}
