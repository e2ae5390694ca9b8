use aeron_glide::config::{driver_settings, DriverConfig, DriverSetting};
use aeron_glide::{IdleStrategy, ThreadingMode};

#[test]
fn empty_config_asks_for_nothing() {
    let (settings, error) = driver_settings(&DriverConfig::default());
    assert!(settings.is_empty());
    assert_eq!(error, None);
}

#[test]
fn settings_come_in_driver_order() {
    let mut c = DriverConfig::default();
    c.receiver_cpu_affinity = Some(3);
    c.mtu_length = Some(1408);
    c.threading_mode = Some("shared".to_string());
    c.dir = Some("/dev/shm/aeron".to_string());
    c.sender_idle_strategy = Some("noop".to_string());
    c.print_configuration = Some(true);
    let (settings, error) = driver_settings(&c);
    assert_eq!(error, None);
    assert_eq!(
        settings,
        vec![
            DriverSetting::Dir("/dev/shm/aeron".to_string()),
            DriverSetting::Threading(ThreadingMode::Shared),
            DriverSetting::SenderIdle(IdleStrategy::Noop),
            DriverSetting::MtuLength(1408),
            DriverSetting::PrintConfiguration(true),
            DriverSetting::ReceiverCpuAffinity(3),
        ]
    );
}

#[test]
fn all_entries_are_kept() {
    let c = DriverConfig {
        dir: Some("d".to_string()),
        dir_delete_on_start: Some(true),
        dir_delete_on_shutdown: Some(false),
        threading_mode: Some("dedicated".to_string()),
        conductor_idle_strategy: Some("backoff".to_string()),
        sender_idle_strategy: Some("spin".to_string()),
        receiver_idle_strategy: Some("yield".to_string()),
        term_buffer_length: Some(65536),
        ipc_term_buffer_length: Some(131072),
        mtu_length: Some(1408),
        ipc_mtu_length: Some(8192),
        socket_so_rcvbuf: Some(1),
        socket_so_sndbuf: Some(2),
        print_configuration: Some(false),
        conductor_cpu_affinity: Some(0),
        sender_cpu_affinity: Some(1),
        receiver_cpu_affinity: Some(-1),
    };
    let (settings, error) = driver_settings(&c);
    assert_eq!(error, None);
    assert_eq!(settings.len(), 17);
    assert_eq!(settings[4], DriverSetting::ConductorIdle(IdleStrategy::Backoff));
    assert_eq!(settings[16], DriverSetting::ReceiverCpuAffinity(-1));
}

#[test]
fn bad_threading_mode_stops_after_earlier_settings() {
    let mut c = DriverConfig::default();
    c.dir = Some("x".to_string());
    c.threading_mode = Some("single".to_string());
    c.mtu_length = Some(1408);
    let (settings, error) = driver_settings(&c);
    assert_eq!(settings, vec![DriverSetting::Dir("x".to_string())]);
    assert_eq!(
        error,
        Some("Unknown threading mode: 'single'. Expected: dedicated, shared_network, shared, invoker".to_string())
    );
}

#[test]
fn first_bad_idle_strategy_is_reported() {
    let mut c = DriverConfig::default();
    c.conductor_idle_strategy = Some("sleeping".to_string());
    c.sender_idle_strategy = Some("lazy".to_string());
    c.receiver_idle_strategy = Some("busy".to_string());
    let (settings, error) = driver_settings(&c);
    assert_eq!(settings, vec![DriverSetting::ConductorIdle(IdleStrategy::Sleeping)]);
    assert_eq!(
        error,
        Some("Unknown idle strategy: 'lazy'. Expected: backoff, spin, yield, sleeping, noop".to_string())
    );
}
