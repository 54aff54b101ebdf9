use internet_reloader::network_manager::CallKind;
use internet_reloader::network_manager::CapabilityManager;
use internet_reloader::network_manager::DisconnectPolicy;
use internet_reloader::network_manager::NetworkManager;
use internet_reloader::network_manager::ScriptedWlan;
use internet_reloader::network_manager::attempt_reconnect;
use internet_reloader::network_manager::trim_trailing_padding;

fn count(calls: &[CallKind], kind: CallKind) -> usize {
    calls.iter().filter(|c| **c == kind).count()
}

fn utf16(s: &str) -> Vec<u16> {
    s.encode_utf16().collect()
}

#[test]
fn test_reconnect_success() {
    let cap = ScriptedWlan::new(
        true,
        Some(vec![0u128]),
        Some(utf16("TestProfile")),
        true,
        true,
    );
    let mut manager = CapabilityManager::new(cap);
    let result = manager.reconnect();
    assert!(result);
}

#[test]
fn open_failure_issues_no_other_call() {
    let mut cap = ScriptedWlan::new(false, Some(vec![7u128]), Some(utf16("Net")), true, true);
    let outcome = attempt_reconnect(&mut cap, DisconnectPolicy::Tolerate);
    assert!(!outcome);
    assert_eq!(cap.calls, vec![CallKind::OpenSession]);
}

#[test]
fn enumeration_failure_closes_session() {
    let mut cap = ScriptedWlan::new(true, None, Some(utf16("Net")), true, true);
    let outcome = attempt_reconnect(&mut cap, DisconnectPolicy::Tolerate);
    assert!(!outcome);
    assert_eq!(
        cap.calls,
        vec![
            CallKind::OpenSession,
            CallKind::EnumInterfaces,
            CallKind::CloseSession,
        ]
    );
}

#[test]
fn empty_interface_list_closes_session_once() {
    let mut cap = ScriptedWlan::new(true, Some(vec![]), Some(utf16("Net")), true, true);
    let outcome = attempt_reconnect(&mut cap, DisconnectPolicy::Tolerate);
    assert!(!outcome);
    assert_eq!(count(&cap.calls, CallKind::CloseSession), 1);
    assert_eq!(count(&cap.calls, CallKind::FreeList), 1);
    assert_eq!(count(&cap.calls, CallKind::Disconnect), 0);
    assert_eq!(count(&cap.calls, CallKind::Connect), 0);
}

#[test]
fn query_failure_releases_no_buffer() {
    let mut cap = ScriptedWlan::new(true, Some(vec![3u128]), None, true, true);
    let outcome = attempt_reconnect(&mut cap, DisconnectPolicy::Tolerate);
    assert!(!outcome);
    assert_eq!(count(&cap.calls, CallKind::QueryProfile), 1);
    assert_eq!(count(&cap.calls, CallKind::FreeBuffer), 0);
    assert_eq!(count(&cap.calls, CallKind::Connect), 0);
    assert_eq!(count(&cap.calls, CallKind::CloseSession), 1);
}

#[test]
fn empty_profile_name_releases_buffer_once() {
    let mut cap = ScriptedWlan::new(true, Some(vec![3u128]), Some(vec![0, 0, 0, 0]), true, true);
    let outcome = attempt_reconnect(&mut cap, DisconnectPolicy::Tolerate);
    assert!(!outcome);
    assert_eq!(count(&cap.calls, CallKind::QueryProfile), 1);
    assert_eq!(count(&cap.calls, CallKind::FreeBuffer), 1);
    assert_eq!(count(&cap.calls, CallKind::Connect), 0);
    assert_eq!(count(&cap.calls, CallKind::CloseSession), 1);
}

#[test]
fn disconnect_failure_is_tolerated() {
    let mut cap = ScriptedWlan::new(
        true,
        Some(vec![9u128]),
        Some(utf16("HomeWifi")),
        false,
        true,
    );
    let outcome = attempt_reconnect(&mut cap, DisconnectPolicy::Tolerate);
    assert!(outcome);
    assert_eq!(count(&cap.calls, CallKind::Disconnect), 1);
    assert_eq!(count(&cap.calls, CallKind::Connect), 1);
}

#[test]
fn connect_failure_still_closes_session_once() {
    let mut cap = ScriptedWlan::new(
        true,
        Some(vec![9u128]),
        Some(utf16("HomeWifi")),
        true,
        false,
    );
    let outcome = attempt_reconnect(&mut cap, DisconnectPolicy::Tolerate);
    assert!(!outcome);
    assert_eq!(count(&cap.calls, CallKind::CloseSession), 1);
    assert_eq!(count(&cap.calls, CallKind::Connect), 1);
}

#[test]
fn full_run_issues_calls_in_pipeline_order() {
    let mut padded = utf16("HomeWifi");
    padded.resize(256, 0);
    let mut cap = ScriptedWlan::new(
        true,
        Some(vec![0x1234_5678_9abc_def0u128]),
        Some(padded),
        true,
        true,
    );
    let outcome = attempt_reconnect(&mut cap, DisconnectPolicy::Tolerate);
    assert!(outcome);
    assert_eq!(
        cap.calls,
        vec![
            CallKind::OpenSession,
            CallKind::EnumInterfaces,
            CallKind::FreeList,
            CallKind::QueryProfile,
            CallKind::FreeBuffer,
            CallKind::Disconnect,
            CallKind::Connect,
            CallKind::CloseSession,
        ]
    );
}

#[test]
fn releases_match_acquisitions_across_outcomes() {
    let scripts: Vec<ScriptedWlan> = vec![
        ScriptedWlan::new(false, None, None, false, false),
        ScriptedWlan::new(true, None, None, true, true),
        ScriptedWlan::new(true, Some(vec![]), Some(utf16("Net")), true, true),
        ScriptedWlan::new(true, Some(vec![1u128]), None, true, true),
        ScriptedWlan::new(true, Some(vec![1u128]), Some(vec![0, 0]), true, true),
        ScriptedWlan::new(true, Some(vec![1u128]), Some(utf16("Net")), false, false),
        ScriptedWlan::new(true, Some(vec![1u128]), Some(utf16("Net")), true, false),
        ScriptedWlan::new(true, Some(vec![1u128, 2u128]), Some(utf16("Net")), true, true),
    ];
    for mut cap in scripts {
        let _ = attempt_reconnect(&mut cap, DisconnectPolicy::Tolerate);
        let opens_ok = if cap.open_ok { 1 } else { 0 };
        assert_eq!(count(&cap.calls, CallKind::CloseSession), opens_ok);
        let enums_ok = count(&cap.calls, CallKind::EnumInterfaces)
            * if cap.enum_outcome.is_some() { 1 } else { 0 };
        assert_eq!(count(&cap.calls, CallKind::FreeList), enums_ok);
        let queries_ok = count(&cap.calls, CallKind::QueryProfile)
            * if cap.query_outcome.is_some() { 1 } else { 0 };
        assert_eq!(count(&cap.calls, CallKind::FreeBuffer), queries_ok);
    }
}

#[test]
fn trim_removes_only_trailing_padding() {
    let mut padded = utf16("HomeWifi");
    padded.resize(32, 0);
    assert_eq!(trim_trailing_padding(&padded), utf16("HomeWifi"));
    assert_eq!(trim_trailing_padding(&vec![]), vec![]);
    assert_eq!(trim_trailing_padding(&vec![0, 0, 0]), vec![]);
    assert_eq!(trim_trailing_padding(&utf16("Net")), utf16("Net"));
    let embedded = vec![65u16, 0, 66, 0, 0];
    assert_eq!(trim_trailing_padding(&embedded), vec![65u16, 0, 66]);
}

#[test]
fn abort_policy_stops_before_connect_when_disconnect_fails() {
    let mut cap = ScriptedWlan::new(
        true,
        Some(vec![9u128]),
        Some(utf16("HomeWifi")),
        false,
        true,
    );
    let outcome = attempt_reconnect(&mut cap, DisconnectPolicy::Abort);
    assert!(!outcome);
    assert_eq!(count(&cap.calls, CallKind::Disconnect), 1);
    assert_eq!(count(&cap.calls, CallKind::Connect), 0);
    assert_eq!(count(&cap.calls, CallKind::CloseSession), 1);
}

#[test]
fn abort_policy_still_connects_when_disconnect_succeeds() {
    let mut cap = ScriptedWlan::new(
        true,
        Some(vec![9u128]),
        Some(utf16("HomeWifi")),
        true,
        true,
    );
    let outcome = attempt_reconnect(&mut cap, DisconnectPolicy::Abort);
    assert!(outcome);
    assert_eq!(count(&cap.calls, CallKind::Connect), 1);
    assert_eq!(count(&cap.calls, CallKind::CloseSession), 1);
}
