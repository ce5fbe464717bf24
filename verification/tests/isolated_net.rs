use gateflow::isolated_net::{after_pair, ChaosArgError, ChaosArgs, ChaosKey, Separator};
use gateflow::sandbox::EntryRoute;
use gateflow::Sandbox;

fn parse(pairs: &[(&str, &str)]) -> Result<ChaosArgs<String>, ChaosArgError> {
    let mut args = ChaosArgs::new();
    for (k, v) in pairs {
        args.accept(k, v.to_string())?;
    }
    Ok(args)
}

#[test]
fn wraps_body_in_sandbox_enter() {
    let args = parse(&[]).unwrap();
    assert!(args.into_netem_calls().is_empty());
    // No chaos: the body runs in a plain `Sandbox::new()`.
    assert_eq!(Sandbox::new().route(), EntryRoute::Plain);
}

#[test]
fn expands_chaos_parameters_into_netem_builder() {
    let args = parse(&[
        ("delay_ms", "100"),
        ("jitter_ms", "20"),
        ("loss_percent", "1.5"),
        ("reorder_percent", "2.0"),
    ])
    .expect("chaos parameters should parse");
    let calls: Vec<(&str, bool, String)> = args
        .into_netem_calls()
        .into_iter()
        .map(|c| (c.key.method(), c.key.is_millis(), c.value))
        .collect();
    assert_eq!(
        calls,
        vec![
            ("delay", true, "100".to_string()),
            ("jitter", true, "20".to_string()),
            ("loss", false, "1.5".to_string()),
            ("reorder", false, "2.0".to_string()),
        ]
    );
}

#[test]
fn rejects_unknown_chaos_parameters() {
    let error = match parse(&[("latency_ms", "100")]) {
        Ok(_) => panic!("unknown chaos parameter should be rejected"),
        Err(error) => error,
    };
    assert!(error.message().contains("unknown gateflow chaos parameter"));
}

#[test]
fn rejects_duplicate_chaos_parameters() {
    let error = parse(&[("loss_percent", "1"), ("loss_percent", "2")]).err().unwrap();
    assert_eq!(error, ChaosArgError::DuplicateParameter);
    assert_eq!(error.message(), "duplicate gateflow chaos parameter");
}

#[test]
fn calls_come_in_builder_order_whatever_the_argument_order() {
    let args = parse(&[("duplicate_percent", "3"), ("delay_ms", "5"), ("corrupt_percent", "4")]).unwrap();
    let keys: Vec<ChaosKey> = args.into_netem_calls().into_iter().map(|c| c.key).collect();
    assert_eq!(keys, vec![ChaosKey::DelayMs, ChaosKey::CorruptPercent, ChaosKey::DuplicatePercent]);
}

#[test]
fn pairs_must_be_comma_separated() {
    assert_eq!(after_pair(true, false), Ok(Separator::Comma));
    assert_eq!(after_pair(false, true), Ok(Separator::End));
    assert_eq!(after_pair(false, false), Err(ChaosArgError::MissingComma));
    assert_eq!(ChaosArgError::MissingComma.message(), "expected `,` between gateflow chaos parameters");
}

#[test]
fn keys_round_trip_through_their_names() {
    for name in ["delay_ms", "jitter_ms", "loss_percent", "reorder_percent", "corrupt_percent", "duplicate_percent"] {
        assert!(ChaosKey::from_name(name).is_some(), "{name}");
    }
    assert_eq!(ChaosKey::from_name("Delay_ms"), None);
}
