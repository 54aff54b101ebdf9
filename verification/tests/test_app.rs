use internet_reloader::app::NetworkApp;
use internet_reloader::app::NetworkStatus;
use internet_reloader::internet_connectivity::FixedConnectivity;
use internet_reloader::network_manager::CallKind;
use internet_reloader::network_manager::CapabilityManager;
use internet_reloader::network_manager::ScriptedWlan;

fn count(calls: &[CallKind], kind: CallKind) -> usize {
    calls.iter().filter(|c| **c == kind).count()
}

fn utf16(s: &str) -> Vec<u16> {
    s.encode_utf16().collect()
}

fn app_with(
    network: bool,
    internet: bool,
    cap: ScriptedWlan,
) -> NetworkApp<FixedConnectivity, CapabilityManager<ScriptedWlan>> {
    NetworkApp::new(FixedConnectivity::new(network, internet), CapabilityManager::new(cap))
}

#[test]
fn link_down_reports_disconnected_without_reconnect() {
    let cap = ScriptedWlan::new(true, Some(vec![1u128]), Some(utf16("HomeWifi")), true, true);
    let mut app = app_with(false, false, cap);
    let status = app.poll();
    assert_eq!(status, NetworkStatus::Disconnected);
    assert!(app.manager.cap.calls.is_empty());
}

#[test]
fn link_down_with_internet_signal_still_reports_disconnected() {
    let cap = ScriptedWlan::new(true, Some(vec![1u128]), Some(utf16("HomeWifi")), true, true);
    let mut app = app_with(false, true, cap);
    let status = app.poll();
    assert_eq!(status, NetworkStatus::Disconnected);
    assert!(app.manager.cap.calls.is_empty());
}

#[test]
fn link_and_internet_report_connected_without_reconnect() {
    let cap = ScriptedWlan::new(true, Some(vec![1u128]), Some(utf16("HomeWifi")), true, true);
    let mut app = app_with(true, true, cap);
    let status = app.poll();
    assert_eq!(status, NetworkStatus::Connected);
    assert!(app.manager.cap.calls.is_empty());
}

#[test]
fn successful_reconnect_reports_connected_and_releases_everything() {
    let mut padded = utf16("HomeWifi");
    padded.resize(256, 0);
    let cap = ScriptedWlan::new(true, Some(vec![1u128]), Some(padded), true, true);
    let mut app = app_with(true, false, cap);
    let status = app.poll();
    assert_eq!(status, NetworkStatus::Connected);
    let calls = &app.manager.cap.calls;
    assert_eq!(count(calls, CallKind::OpenSession), 1);
    assert_eq!(count(calls, CallKind::CloseSession), 1);
    assert_eq!(count(calls, CallKind::EnumInterfaces), 1);
    assert_eq!(count(calls, CallKind::FreeList), 1);
    assert_eq!(count(calls, CallKind::QueryProfile), 1);
    assert_eq!(count(calls, CallKind::FreeBuffer), 1);
    assert_eq!(count(calls, CallKind::Disconnect), 1);
    assert_eq!(count(calls, CallKind::Connect), 1);
}

#[test]
fn failed_reconnect_reports_network_only_and_closes_session_once() {
    let mut padded = utf16("HomeWifi");
    padded.resize(256, 0);
    let cap = ScriptedWlan::new(true, Some(vec![1u128]), Some(padded), true, false);
    let mut app = app_with(true, false, cap);
    let status = app.poll();
    assert_eq!(status, NetworkStatus::NetworkOnly);
    assert_eq!(count(&app.manager.cap.calls, CallKind::CloseSession), 1);
}

#[test]
fn status_labels_match_names() {
    assert_eq!(NetworkStatus::Connected.label(), "Connected");
    assert_eq!(NetworkStatus::NetworkOnly.label(), "NetworkOnly");
    assert_eq!(NetworkStatus::Disconnected.label(), "Disconnected");
}
