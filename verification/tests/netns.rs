use gateflow::netns::{id_map_plan, root_mapping_line, ChildSetup, ChildStep, Outcome};

#[test]
fn id_maps_deny_setgroups_first() {
    let plan = id_map_plan(1000, 100);
    let writes: Vec<(&str, String)> = plan.iter().map(|w| (w.path, w.contents.clone())).collect();
    assert_eq!(
        writes,
        vec![
            ("/proc/self/setgroups", "deny".to_string()),
            ("/proc/self/uid_map", "0 1000 1".to_string()),
            ("/proc/self/gid_map", "0 100 1".to_string()),
        ]
    );
    assert_eq!(root_mapping_line(0), "0 0 1");
}

fn drive(mut c: ChildSetup, outcomes: &[Outcome]) -> Vec<ChildStep> {
    let mut steps = vec![c.next()];
    for o in outcomes {
        c.advance(*o);
        steps.push(c.next());
    }
    steps
}

#[test]
fn plain_child_enters_then_brings_lo_up_then_runs() {
    let steps = drive(
        ChildSetup::new(false, false, false),
        &[Outcome::Done, Outcome::Done, Outcome::Returned(7)],
    );
    assert_eq!(
        steps,
        vec![ChildStep::EnterNamespace, ChildStep::LoopbackUp, ChildStep::RunBody, ChildStep::Exit(7)]
    );
}

#[test]
fn hardened_child_waits_for_admission_and_installs_seccomp_last() {
    let steps = drive(
        ChildSetup::new(true, true, true),
        &[Outcome::ReadBytes(1), Outcome::Done, Outcome::Done, Outcome::Done, Outcome::Done, Outcome::Returned(0)],
    );
    assert_eq!(
        steps,
        vec![
            ChildStep::AwaitAdmission,
            ChildStep::EnterNamespace,
            ChildStep::LoopbackUp,
            ChildStep::ApplyChaos,
            ChildStep::InstallSeccomp,
            ChildStep::RunBody,
            ChildStep::Exit(0),
        ]
    );
}

#[test]
fn failed_setup_steps_exit_with_their_sentinels() {
    assert_eq!(drive(ChildSetup::new(false, false, false), &[Outcome::Failed]).last(), Some(&ChildStep::Exit(111)));
    assert_eq!(drive(ChildSetup::new(true, false, false), &[Outcome::ReadBytes(0)]).last(), Some(&ChildStep::Exit(114)));
    assert_eq!(
        drive(ChildSetup::new(false, true, false), &[Outcome::Done, Outcome::Failed]).last(),
        Some(&ChildStep::Exit(112))
    );
    assert_eq!(
        drive(ChildSetup::new(false, true, false), &[Outcome::Done, Outcome::Done, Outcome::Failed]).last(),
        Some(&ChildStep::Exit(112))
    );
    assert_eq!(
        drive(ChildSetup::new(false, false, true), &[Outcome::Done, Outcome::Done, Outcome::Failed]).last(),
        Some(&ChildStep::Exit(114))
    );
    // An exit stays an exit.
    assert_eq!(
        drive(ChildSetup::new(false, false, false), &[Outcome::Failed, Outcome::Done, Outcome::Returned(0)]).last(),
        Some(&ChildStep::Exit(111))
    );
}
