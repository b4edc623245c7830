use intqual::models::{describe_error, ProbeError, ProbeErrorKind};
use intqual::network::bandwidth::{phase_outcome, status_error, PhaseEvent, PhaseOutcome};
use intqual::text::decimal_text;

#[test]
fn decimal_text_matches_to_string() {
    for n in [0u64, 7, 9, 10, 42, 100, 255, 443, 65535, 1_000_000, u64::MAX] {
        assert_eq!(decimal_text(n), n.to_string());
    }
}

#[test]
fn error_messages() {
    assert_eq!(ProbeError::IcmpTimeout.message(), "ICMP Timeout");
    assert_eq!(ProbeError::TcpTimeout.message(), "TCP Timeout");
    assert_eq!(ProbeError::PermissionDenied.message(), "Permission Denied / Unsupported");
    assert_eq!(ProbeError::TimeSyncError.message(), "Time Synchronization Error");
    assert_eq!(
        ProbeError::DnsResolution("no such host".to_string()).message(),
        "DNS Resolution Failed: no such host"
    );
    assert_eq!(
        ProbeError::BandwidthTestFailed("HTTP Error: 404 Not Found".to_string()).message(),
        "Bandwidth Test Failed: HTTP Error: 404 Not Found"
    );
    assert_eq!(ProbeError::RateLimited("slow down".to_string()).message(), "Rate Limit Exceeded (Ban): slow down");
    assert_eq!(ProbeError::ThreadPanic("join".to_string()).message(), "Thread Panic: join");
    assert_eq!(
        ProbeError::PacketError("Buffer too short".to_string()).message(),
        "Packet Build/Decode Error: Buffer too short"
    );
    let io = std::io::Error::new(std::io::ErrorKind::Other, "boom");
    assert_eq!(ProbeError::Socket(io).message(), "Socket Error: boom");
}

#[test]
fn describe_error_ignores_detail_of_plain_kinds() {
    assert_eq!(describe_error(ProbeErrorKind::IcmpTimeout, "unused"), "ICMP Timeout");
    assert_eq!(describe_error(ProbeErrorKind::Socket, "refused"), "Socket Error: refused");
}

#[test]
fn failure_after_data_is_not_reported() {
    assert!(status_error(false, false, "503 Service Unavailable", 1).is_none());
    assert!(status_error(true, true, "429 Too Many Requests", 65536).is_none());
}

fn failure_text(o: PhaseOutcome) -> Option<String> {
    match o {
        PhaseOutcome::Completed => None,
        PhaseOutcome::Failed(ProbeError::BandwidthTestFailed(m)) => Some(m),
        PhaseOutcome::Failed(other) => panic!("unexpected {:?}", other),
    }
}

#[test]
fn phase_outcomes() {
    assert_eq!(
        failure_text(phase_outcome(false, PhaseEvent::UserCancelled, false)),
        Some("Cancelled by user".to_string())
    );
    assert_eq!(
        failure_text(phase_outcome(true, PhaseEvent::UserCancelled, true)),
        Some("Cancelled by user".to_string())
    );
    assert_eq!(
        failure_text(phase_outcome(false, PhaseEvent::WorkersAborted, true)),
        Some("Test aborted internally due to server error (e.g. Rate Limit)".to_string())
    );
    assert_eq!(
        failure_text(phase_outcome(true, PhaseEvent::WorkersAborted, false)),
        Some("Test aborted internally due to server error".to_string())
    );
    assert_eq!(failure_text(phase_outcome(true, PhaseEvent::WorkersAborted, true)), None);
    assert_eq!(failure_text(phase_outcome(false, PhaseEvent::TimeUp, false)), None);
    assert_eq!(failure_text(phase_outcome(true, PhaseEvent::UiGone, false)), None);
}
