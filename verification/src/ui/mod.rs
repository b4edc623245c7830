pub mod history;
pub mod widgets;

use vstd::prelude::*;
use std::collections::VecDeque;
use widgets::ActiveWidget;

verus! {

/// Points kept in each chart series.
pub const HISTORY_SIZE: usize = 100;

/// Whether handling an event changed what is on screen.
#[must_use]
pub enum RenderAction {
    Redraw,
    Skip,
}

/// Reverse-DNS state of a traceroute hop's address.
#[derive(Debug, Clone)]
pub enum DnsStatus {
    Resolving,
    Resolved(String),
    Failed,
}

/// Calls `VecDeque::make_contiguous`, which std documents as rearranging
/// the storage so that the elements form one slice, in the same order.
#[verifier::external_body]
fn make_contiguous<T>(data: &mut VecDeque<T>)
    ensures
        final(data)@ == old(data)@,
{
    data.make_contiguous();
}

/// The chart series after appending `item` to `s`: the oldest point is
/// dropped once there are more than `HISTORY_SIZE`.
pub open spec fn spec_push_chart<T>(s: Seq<T>, item: T) -> Seq<T> {
    if s.len() + 1 > HISTORY_SIZE {
        s.push(item).drop_first()
    } else {
        s.push(item)
    }
}

/// Appends a point to a chart series, keeping at most the latest
/// `HISTORY_SIZE` points, stored contiguously.
pub fn push_chart_data<T>(data: &mut VecDeque<T>, item: T)
    ensures
        final(data)@ == spec_push_chart(old(data)@, item),
{
    data.push_back(item);
    if data.len() > HISTORY_SIZE {
        let _ = data.pop_front();
    }
    make_contiguous(data);
}

/// Law: a chart series that starts within `HISTORY_SIZE` points stays
/// within it, and its newest point is the one just pushed, preceded by the
/// previous points in order.
pub proof fn lemma_chart_window<T>(s: Seq<T>, item: T)
    requires
        s.len() <= HISTORY_SIZE,
    ensures
        spec_push_chart(s, item).len() <= HISTORY_SIZE,
        spec_push_chart(s, item).last() == item,
        spec_push_chart(s, item).drop_last() == (if s.len() == HISTORY_SIZE {
            s.drop_first()
        } else {
            s
        }),
{
    if s.len() == HISTORY_SIZE {
        assert(s.push(item).drop_first().drop_last() =~= s.drop_first());
    } else {
        assert(s.push(item).drop_last() =~= s);
    }
}

/// The screen the dashboard shows, without the measurements it displays.
#[derive(Debug, Clone, Copy, PartialEq, Eq)]
pub enum ModeKind {
    Ping,
    /// A bandwidth test is downloading or uploading.
    BandwidthRunning,
    BandwidthFinished,
    BandwidthFailed,
    Traceroute,
    Error,
}

/// The keys the dashboard reacts to.
#[derive(Debug, Clone, Copy, PartialEq, Eq)]
pub enum Key {
    /// `q`
    Quit,
    /// `s`
    SpeedTest,
    /// `t`
    Traceroute,
    Escape,
    Enter,
    Other,
}

/// What a key press asks for.
#[derive(Debug, Clone, Copy, PartialEq, Eq)]
pub enum KeyAction {
    /// Stop the engine and leave.
    Quit,
    /// Ask the engine for a bandwidth test.
    StartBandwidthTest,
    /// Run a traceroute to the current target.
    StartTraceroute,
    /// Reset the ping view and resume the periodic probes.
    ReturnToPing,
    Nothing,
}

pub open spec fn is_bandwidth_mode(m: ModeKind) -> bool {
    m == ModeKind::BandwidthRunning || m == ModeKind::BandwidthFinished || m == ModeKind::BandwidthFailed
}

/// The dashboard's key bindings.
pub open spec fn spec_key_action(mode: ModeKind, key: Key, has_target: bool) -> KeyAction {
    match key {
        Key::Quit => KeyAction::Quit,
        Key::SpeedTest => if is_bandwidth_mode(mode) {
            KeyAction::Nothing
        } else {
            KeyAction::StartBandwidthTest
        },
        Key::Traceroute => if has_target {
            KeyAction::StartTraceroute
        } else {
            KeyAction::Nothing
        },
        Key::Escape => if mode == ModeKind::Ping {
            KeyAction::Nothing
        } else {
            KeyAction::ReturnToPing
        },
        Key::Enter => if mode == ModeKind::BandwidthFinished || mode == ModeKind::BandwidthFailed
            || mode == ModeKind::Traceroute || mode == ModeKind::Error {
            KeyAction::ReturnToPing
        } else {
            KeyAction::Nothing
        },
        Key::Other => KeyAction::Nothing,
    }
}

/// What pressing `key` does on the screen `mode`; `has_target` says whether
/// a measurement target is known yet.
pub fn key_action(mode: ModeKind, key: Key, has_target: bool) -> (a: KeyAction)
    ensures
        a == spec_key_action(mode, key, has_target),
{
    match key {
        Key::Quit => KeyAction::Quit,
        Key::SpeedTest => {
            match mode {
                ModeKind::BandwidthRunning | ModeKind::BandwidthFinished | ModeKind::BandwidthFailed => {
                    KeyAction::Nothing
                },
                _ => KeyAction::StartBandwidthTest,
            }
        },
        Key::Traceroute => {
            if has_target {
                KeyAction::StartTraceroute
            } else {
                KeyAction::Nothing
            }
        },
        Key::Escape => {
            match mode {
                ModeKind::Ping => KeyAction::Nothing,
                _ => KeyAction::ReturnToPing,
            }
        },
        Key::Enter => {
            match mode {
                ModeKind::BandwidthFinished | ModeKind::BandwidthFailed | ModeKind::Traceroute
                | ModeKind::Error => KeyAction::ReturnToPing,
                _ => KeyAction::Nothing,
            }
        },
        Key::Other => KeyAction::Nothing,
    }
}

/// Law: `q` always quits; the ping screen is never "returned to" from
/// itself; a bandwidth test is never started while a bandwidth screen is up.
pub proof fn lemma_key_bindings(mode: ModeKind, key: Key, has_target: bool)
    ensures
        spec_key_action(mode, Key::Quit, has_target) == KeyAction::Quit,
        mode == ModeKind::Ping ==> spec_key_action(mode, key, has_target) != KeyAction::ReturnToPing,
        is_bandwidth_mode(mode) ==> spec_key_action(mode, key, has_target)
            != KeyAction::StartBandwidthTest,
{
}

/// The panel that goes with each screen.
pub open spec fn spec_widget_for(mode: ModeKind) -> ActiveWidget {
    match mode {
        ModeKind::Ping => ActiveWidget::Latency,
        ModeKind::BandwidthRunning | ModeKind::BandwidthFinished | ModeKind::BandwidthFailed => ActiveWidget::Bandwidth,
        ModeKind::Traceroute => ActiveWidget::Traceroute,
        ModeKind::Error => ActiveWidget::Error,
    }
}

pub fn widget_for(mode: ModeKind) -> (w: ActiveWidget)
    ensures
        w == spec_widget_for(mode),
{
    match mode {
        ModeKind::Ping => ActiveWidget::Latency,
        ModeKind::BandwidthRunning | ModeKind::BandwidthFinished | ModeKind::BandwidthFailed => ActiveWidget::Bandwidth,
        ModeKind::Traceroute => ActiveWidget::Traceroute,
        ModeKind::Error => ActiveWidget::Error,
    }
}

/// Whether a bandwidth-test error changes the screen: only while a
/// bandwidth screen is up (a stale error after leaving it is ignored).
pub fn bandwidth_error_applies(mode: ModeKind) -> (res: bool)
    ensures
        res == is_bandwidth_mode(mode),
{
    match mode {
        ModeKind::BandwidthRunning | ModeKind::BandwidthFinished | ModeKind::BandwidthFailed => true,
        _ => false,
    }
}

/// Whether the interface closes once the engine's channel is gone: it stays
/// up on the error screen so the error can be read.
pub fn exits_when_engine_gone(mode: ModeKind) -> (res: bool)
    ensures
        res == (mode != ModeKind::Error),
{
    match mode {
        ModeKind::Error => false,
        _ => true,
    }
}

pub const NAV_RUNNING_TEST: &'static str = "[Q: Quit] | [Esc: Cancel Test]";

pub const NAV_RETURN_ENTER: &'static str = "[Q: Quit] | [Enter: Return to Ping]";

pub const NAV_RETURN_ESC: &'static str = "[Q: Quit] | [Esc: Return to Ping]";

pub const NAV_MAIN: &'static str = "[Q: Quit] | [S: Speed Test] | [T: Traceroute]";

/// The key help shown in the top bar for a screen.
pub open spec fn spec_nav_text(mode: ModeKind) -> &'static str {
    match mode {
        ModeKind::BandwidthRunning => NAV_RUNNING_TEST,
        ModeKind::BandwidthFinished | ModeKind::BandwidthFailed | ModeKind::Traceroute => NAV_RETURN_ENTER,
        ModeKind::Error => NAV_RETURN_ESC,
        ModeKind::Ping => NAV_MAIN,
    }
}

pub fn nav_text(mode: ModeKind) -> (t: &'static str)
    ensures
        t == spec_nav_text(mode),
{
    match mode {
        ModeKind::BandwidthRunning => NAV_RUNNING_TEST,
        ModeKind::BandwidthFinished | ModeKind::BandwidthFailed | ModeKind::Traceroute => NAV_RETURN_ENTER,
        ModeKind::Error => NAV_RETURN_ESC,
        ModeKind::Ping => NAV_MAIN,
    }
}

/// Law: every key that a screen's top bar offers does what the bar says:
/// where it offers "Enter: Return to Ping", Enter returns to the ping
/// screen; where it offers Esc (to cancel the test or to return), Escape
/// returns to the ping screen; where it offers "S: Speed Test" and
/// "T: Traceroute", those keys start them (the traceroute once a target is
/// known).
pub proof fn lemma_top_bar_keys_do_what_they_say(mode: ModeKind, has_target: bool)
    ensures
        spec_nav_text(mode)@ == NAV_RETURN_ENTER@ ==> spec_key_action(mode, Key::Enter, has_target)
            == KeyAction::ReturnToPing,
        spec_nav_text(mode)@ == NAV_RETURN_ESC@ ==> spec_key_action(mode, Key::Escape, has_target)
            == KeyAction::ReturnToPing,
        spec_nav_text(mode)@ == NAV_RUNNING_TEST@ ==> spec_key_action(mode, Key::Escape, has_target)
            == KeyAction::ReturnToPing,
        spec_nav_text(mode)@ == NAV_MAIN@ ==> spec_key_action(mode, Key::SpeedTest, has_target)
            == KeyAction::StartBandwidthTest,
        spec_nav_text(mode)@ == NAV_MAIN@ && has_target ==> spec_key_action(
            mode,
            Key::Traceroute,
            has_target,
        ) == KeyAction::StartTraceroute,
{
    reveal_strlit("[Q: Quit] | [Esc: Cancel Test]");
    reveal_strlit("[Q: Quit] | [Enter: Return to Ping]");
    reveal_strlit("[Q: Quit] | [Esc: Return to Ping]");
    reveal_strlit("[Q: Quit] | [S: Speed Test] | [T: Traceroute]");
    assert(NAV_RUNNING_TEST@.len() == 30);
    assert(NAV_RETURN_ENTER@.len() == 35);
    assert(NAV_RETURN_ESC@.len() == 33);
    assert(NAV_MAIN@.len() == 45);
}

/// Law: Enter leaves every screen that shows a finished result (a finished
/// or failed speed test, a traceroute, an error) for the ping screen, and
/// does nothing on the ping screen or while a test runs; Escape leaves
/// every screen but the ping screen.
pub proof fn lemma_enter_and_escape(mode: ModeKind, has_target: bool)
    ensures
        (mode == ModeKind::BandwidthFinished || mode == ModeKind::BandwidthFailed || mode
            == ModeKind::Traceroute || mode == ModeKind::Error) <==> spec_key_action(
            mode,
            Key::Enter,
            has_target,
        ) == KeyAction::ReturnToPing,
        mode != ModeKind::Ping <==> spec_key_action(mode, Key::Escape, has_target)
            == KeyAction::ReturnToPing,
{
}

} // verus!
