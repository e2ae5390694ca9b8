use aeron_glide::{parse_idle_strategy, parse_threading_mode, IdleStrategy, ThreadingMode};

const ALL_IDLE: [IdleStrategy; 5] = [
    IdleStrategy::Backoff,
    IdleStrategy::Spin,
    IdleStrategy::Yield,
    IdleStrategy::Sleeping,
    IdleStrategy::Noop,
];

#[test]
fn idle_strategy_names() {
    assert_eq!(IdleStrategy::Backoff.as_str(), "backoff");
    assert_eq!(IdleStrategy::Spin.as_str(), "spin");
    assert_eq!(IdleStrategy::Yield.as_str(), "yield");
    assert_eq!(IdleStrategy::Sleeping.as_str(), "sleeping");
    assert_eq!(IdleStrategy::Noop.as_str(), "noop");
}

#[test]
fn idle_strategy_round_trips_through_its_name() {
    for s in ALL_IDLE {
        assert_eq!(parse_idle_strategy(s.as_str()), Ok(s));
    }
}

#[test]
fn unknown_idle_strategy_is_refused_with_message() {
    assert_eq!(
        parse_idle_strategy("busy"),
        Err("Unknown idle strategy: 'busy'. Expected: backoff, spin, yield, sleeping, noop".to_string())
    );
    assert!(parse_idle_strategy("Spin").is_err());
    assert!(parse_idle_strategy("").is_err());
    assert!(parse_idle_strategy("spin ").is_err());
}

#[test]
fn threading_modes_parse_from_their_names() {
    assert_eq!(parse_threading_mode("dedicated"), Ok(ThreadingMode::Dedicated));
    assert_eq!(parse_threading_mode("shared_network"), Ok(ThreadingMode::SharedNetwork));
    assert_eq!(parse_threading_mode("shared"), Ok(ThreadingMode::Shared));
    assert_eq!(parse_threading_mode("invoker"), Ok(ThreadingMode::Invoker));
}

#[test]
fn unknown_threading_mode_is_refused_with_message() {
    assert_eq!(
        parse_threading_mode("sharednetwork"),
        Err("Unknown threading mode: 'sharednetwork'. Expected: dedicated, shared_network, shared, invoker".to_string())
    );
    assert!(parse_threading_mode("shared_").is_err());
    assert!(parse_threading_mode("DEDICATED").is_err());
}

#[test]
fn threading_mode_codes() {
    assert_eq!(ThreadingMode::Dedicated.code(), 0);
    assert_eq!(ThreadingMode::SharedNetwork.code(), 1);
    assert_eq!(ThreadingMode::Shared.code(), 2);
    assert_eq!(ThreadingMode::Invoker.code(), 3);
}
