use intqual::network::bandwidth::status_error;
use intqual::models::ProbeError;
use intqual::ui::widgets::error::ErrorWidget;
use intqual::ui::widgets::traceroute::TracerouteWidget;
use intqual::ui::widgets::ActiveWidget;
use intqual::ui::{bandwidth_error_applies, exits_when_engine_gone, widget_for};
use intqual::ui::{key_action, nav_text, push_chart_data, DnsStatus, Key, KeyAction, ModeKind, HISTORY_SIZE};
use std::collections::VecDeque;

#[test]
fn chart_window_keeps_latest_points() {
    let mut d: VecDeque<u64> = VecDeque::new();
    for i in 0..250u64 {
        push_chart_data(&mut d, i);
        assert!(d.len() <= HISTORY_SIZE);
    }
    assert_eq!(d.len(), 100);
    assert_eq!(*d.front().unwrap(), 150);
    assert_eq!(*d.back().unwrap(), 249);
    assert_eq!(d.as_slices().0.len(), 100);
}

#[test]
fn chart_window_below_limit() {
    let mut d: VecDeque<(f64, f64)> = VecDeque::new();
    push_chart_data(&mut d, (1.0, 2.5));
    push_chart_data(&mut d, (2.0, 3.5));
    assert_eq!(d.len(), 2);
    assert_eq!(d[1], (2.0, 3.5));
}

#[test]
fn key_bindings() {
    assert_eq!(key_action(ModeKind::Ping, Key::Quit, false), KeyAction::Quit);
    assert_eq!(key_action(ModeKind::Ping, Key::SpeedTest, false), KeyAction::StartBandwidthTest);
    assert_eq!(key_action(ModeKind::BandwidthRunning, Key::SpeedTest, true), KeyAction::Nothing);
    assert_eq!(key_action(ModeKind::BandwidthFailed, Key::SpeedTest, true), KeyAction::Nothing);
    assert_eq!(key_action(ModeKind::Traceroute, Key::SpeedTest, true), KeyAction::StartBandwidthTest);
    assert_eq!(key_action(ModeKind::Ping, Key::Traceroute, true), KeyAction::StartTraceroute);
    assert_eq!(key_action(ModeKind::Ping, Key::Traceroute, false), KeyAction::Nothing);
    assert_eq!(key_action(ModeKind::Ping, Key::Escape, true), KeyAction::Nothing);
    assert_eq!(key_action(ModeKind::BandwidthRunning, Key::Escape, true), KeyAction::ReturnToPing);
    assert_eq!(key_action(ModeKind::Error, Key::Escape, true), KeyAction::ReturnToPing);
    assert_eq!(key_action(ModeKind::BandwidthRunning, Key::Enter, true), KeyAction::Nothing);
    assert_eq!(key_action(ModeKind::BandwidthFinished, Key::Enter, true), KeyAction::ReturnToPing);
    assert_eq!(key_action(ModeKind::Traceroute, Key::Enter, true), KeyAction::ReturnToPing);
    assert_eq!(key_action(ModeKind::Ping, Key::Enter, true), KeyAction::Nothing);
    assert_eq!(key_action(ModeKind::Ping, Key::Other, true), KeyAction::Nothing);
}

#[test]
fn top_bar_texts() {
    assert_eq!(nav_text(ModeKind::BandwidthRunning), "[Q: Quit] | [Esc: Cancel Test]");
    assert_eq!(nav_text(ModeKind::BandwidthFinished), "[Q: Quit] | [Enter: Return to Ping]");
    assert_eq!(nav_text(ModeKind::Traceroute), "[Q: Quit] | [Enter: Return to Ping]");
    assert_eq!(nav_text(ModeKind::Error), "[Q: Quit] | [Esc: Return to Ping]");
    assert_eq!(nav_text(ModeKind::Ping), "[Q: Quit] | [S: Speed Test] | [T: Traceroute]");
}

#[test]
fn error_panel_text() {
    assert_eq!(
        ErrorWidget::message(Some("socket failed")),
        "\n\nPermission Denied: Administrator privileges (sudo) are required.\n\nDetails:\nsocket failed"
    );
    assert!(ErrorWidget::message(None).ends_with("Details:\nUnknown Error"));
}

#[test]
fn traceroute_table_texts() {
    assert_eq!(TracerouteWidget::title(true), " Traceroute (Complete) ");
    assert_eq!(TracerouteWidget::title(false), " Traceroute (Running...) ");
    assert_eq!(TracerouteWidget::hostname_text(Some(&DnsStatus::Resolving)), "Resolving...");
    assert_eq!(TracerouteWidget::hostname_text(Some(&DnsStatus::Resolved("dns.google".to_string()))), "dns.google");
    assert_eq!(TracerouteWidget::hostname_text(Some(&DnsStatus::Failed)), "Unknown");
    assert_eq!(TracerouteWidget::hostname_text(None), "Unknown");
}

#[test]
fn bandwidth_status_errors() {
    match status_error(false, true, "429 Too Many Requests", 0) {
        Some(ProbeError::RateLimited(m)) => {
            assert_eq!(m, "Cloudflare Rate Limit (Ban) Exceeded. Please wait ~1 hour before testing again.")
        }
        other => panic!("unexpected {:?}", other),
    }
    match status_error(true, true, "429 Too Many Requests", 0) {
        Some(ProbeError::RateLimited(m)) => assert_eq!(m, "Cloudflare Rate Limit (Ban) Exceeded during upload."),
        other => panic!("unexpected {:?}", other),
    }
    match status_error(false, false, "404 Not Found", 0) {
        Some(ProbeError::BandwidthTestFailed(m)) => assert_eq!(m, "HTTP Error: 404 Not Found"),
        other => panic!("unexpected {:?}", other),
    }
    match status_error(true, false, "500 Internal Server Error", 0) {
        Some(ProbeError::BandwidthTestFailed(m)) => assert_eq!(m, "HTTP Upload Error: 500 Internal Server Error"),
        other => panic!("unexpected {:?}", other),
    }
    assert!(status_error(false, true, "429 Too Many Requests", 10).is_none());
}

#[test]
fn panel_follows_screen() {
    assert_eq!(widget_for(ModeKind::Ping), ActiveWidget::Latency);
    assert_eq!(widget_for(ModeKind::BandwidthRunning), ActiveWidget::Bandwidth);
    assert_eq!(widget_for(ModeKind::BandwidthFailed), ActiveWidget::Bandwidth);
    assert_eq!(widget_for(ModeKind::Traceroute), ActiveWidget::Traceroute);
    assert_eq!(widget_for(ModeKind::Error), ActiveWidget::Error);
}

#[test]
fn stale_bandwidth_errors_and_disconnects() {
    assert!(bandwidth_error_applies(ModeKind::BandwidthRunning));
    assert!(bandwidth_error_applies(ModeKind::BandwidthFinished));
    assert!(!bandwidth_error_applies(ModeKind::Ping));
    assert!(!bandwidth_error_applies(ModeKind::Traceroute));
    assert!(exits_when_engine_gone(ModeKind::Ping));
    assert!(!exits_when_engine_gone(ModeKind::Error));
}
