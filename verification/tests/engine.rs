use intqual::engine::core_engine::{
    CoreEngine, EngineCommand, EngineControl, BANDWIDTH_DOWNLOAD_PATH, BANDWIDTH_TEST_HOST,
    TRACEROUTE_MAX_HOPS, TRACEROUTE_TIMEOUT_MS,
};
use intqual::engine::fallback::FallbackEngine;
use intqual::engine::mock::MockEngine;
use std::time::Duration;

#[test]
fn core_engine_new() {
    let e = CoreEngine::new("example.com".to_string(), 8443, 250, 1500);
    assert_eq!(e.target_ip.as_str(), "example.com");
    assert_eq!(e.target_port, 8443);
    assert_eq!(e.interval, Duration::from_millis(250));
    assert_eq!(e.timeout, Duration::from_millis(1500));
}

#[test]
fn lookup_address_joins_host_and_port() {
    let e = CoreEngine::new("8.8.8.8".to_string(), 443, 500, 1000);
    assert_eq!(e.lookup_address(), "8.8.8.8:443");
    let e0 = CoreEngine::new("h".to_string(), 0, 500, 1000);
    assert_eq!(e0.lookup_address(), "h:0");
}

#[test]
fn identifier_from_nanos_wraps() {
    assert_eq!(CoreEngine::identifier_from_nanos(65534), 65534);
    assert_eq!(CoreEngine::identifier_from_nanos(65535), 0);
    assert_eq!(CoreEngine::identifier_from_nanos(999_999_999), (999_999_999u32 % 65535) as u16);
}

#[test]
fn engine_constants() {
    assert_eq!(BANDWIDTH_TEST_HOST, "speed.cloudflare.com");
    assert_eq!(BANDWIDTH_DOWNLOAD_PATH, "/__down?bytes=50000000");
    assert_eq!(TRACEROUTE_MAX_HOPS, 30);
    assert_eq!(TRACEROUTE_TIMEOUT_MS, 1000);
}

#[test]
fn command_sequence() {
    let mut c = EngineControl::started();
    assert!(c.probes_active && !c.bandwidth_active);

    let p = c.apply(EngineCommand::Pause);
    assert!(p.cancel_probes && !p.spawn_probes && !p.stop);
    assert!(!c.probes_active);

    let p = c.apply(EngineCommand::Pause);
    assert!(!p.cancel_probes);

    let p = c.apply(EngineCommand::Resume);
    assert!(p.spawn_probes && !p.cancel_bandwidth);
    assert!(c.probes_active);

    let p = c.apply(EngineCommand::Resume);
    assert!(!p.spawn_probes);

    let p = c.apply(EngineCommand::StartBandwidthTest);
    assert!(p.cancel_probes && p.start_bandwidth);
    assert!(!c.probes_active && c.bandwidth_active);

    let p = c.apply(EngineCommand::Resume);
    assert!(p.cancel_bandwidth && p.spawn_probes);
    assert!(c.probes_active && !c.bandwidth_active);

    let p = c.apply(EngineCommand::StartTraceroute("1.1.1.1".to_string()));
    assert!(p.cancel_probes);
    assert_eq!(p.start_traceroute.as_deref(), Some("1.1.1.1"));
    assert!(!c.probes_active);

    let p = c.apply(EngineCommand::Stop);
    assert!(p.stop && !p.cancel_probes && !p.cancel_bandwidth);
    assert!(!c.probes_active && !c.bandwidth_active);
}

#[test]
fn stop_cancels_running_work() {
    let mut c = EngineControl::started();
    let p = c.apply(EngineCommand::Stop);
    assert!(p.stop && p.cancel_probes && !p.cancel_bandwidth);
}

#[test]
fn mock_engine_runs_until_stop() {
    let m = MockEngine::new();
    assert!(m.keeps_running(&EngineCommand::Pause));
    assert!(m.keeps_running(&EngineCommand::StartTraceroute("x".to_string())));
    assert!(!m.keeps_running(&EngineCommand::Stop));
}

#[test]
fn fallback_engine_defaults() {
    let f = FallbackEngine::new("10.0.0.1".to_string());
    assert_eq!(f.target_ip, "10.0.0.1");
    assert_eq!(f.target_port, 443);
    assert_eq!(f.interval, Duration::from_millis(500));
}
