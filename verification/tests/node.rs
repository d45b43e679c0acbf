use daqiao::canon_verifier::CanonVerifier;
use daqiao::light::{light_settings, OnDemandDefaults, RunCmd, FETCH_LIGHT_NUM_DNS_THREADS};
use daqiao::shutdown::{DropWait, WaitAction, NANOS_PER_SEC};

fn defaults() -> OnDemandDefaults {
    OnDemandDefaults {
        response_time_to_live_nanos: 10 * NANOS_PER_SEC,
        request_min_backoff_nanos: 10 * NANOS_PER_SEC,
        request_max_backoff_nanos: 100 * NANOS_PER_SEC,
        max_request_backoff_rounds: 10,
        num_consecutive_failed_requests: 1,
    }
}

fn cmd(custom_bootnodes: bool) -> RunCmd {
    RunCmd {
        queue_size_mb: 2,
        check_seal: true,
        no_hardcoded_sync: false,
        custom_bootnodes,
        boot_nodes: vec!["enode://mine".to_string()],
        network_id: None,
        on_demand_response_time_window: Some(3),
        on_demand_request_backoff_start: None,
        on_demand_request_backoff_max: Some(60),
        on_demand_request_backoff_rounds_max: None,
        on_demand_request_consecutive_failures: Some(4),
    }
}

#[test]
fn light_settings_take_defaults_and_chain_values() {
    let s = light_settings(cmd(false), vec!["enode://chain".to_string()], 42, defaults());
    assert_eq!(s.queue_max_mem_use, 2 * 1024 * 1024);
    assert!(s.verify_full);
    assert!(s.check_seal);
    assert!(!s.no_hardcoded_sync);
    assert_eq!(s.cache_expiration_secs, 21600);
    assert_eq!(s.response_time_window_nanos, 3_000_000_000);
    assert_eq!(s.request_backoff_start_nanos, 10 * NANOS_PER_SEC);
    assert_eq!(s.request_backoff_max_nanos, 60_000_000_000);
    assert_eq!(s.request_backoff_rounds_max, 10);
    assert_eq!(s.consecutive_failures, 4);
    assert_eq!(s.boot_nodes, vec!["enode://chain".to_string()]);
    assert_eq!(s.network_id, 42);
    assert_eq!(s.fetch_dns_threads, FETCH_LIGHT_NUM_DNS_THREADS);
}

#[test]
fn light_settings_keep_configured_values() {
    let mut c = cmd(true);
    c.network_id = Some(7);
    let s = light_settings(c, vec!["enode://chain".to_string()], 42, defaults());
    assert_eq!(s.boot_nodes, vec!["enode://mine".to_string()]);
    assert_eq!(s.network_id, 7);
}

#[test]
fn drop_wait_warns_once_after_warn_timeout() {
    let mut w = DropWait::new();
    assert!(w.keep_waiting(0));
    assert!(!w.should_warn(60 * NANOS_PER_SEC));
    assert!(w.should_warn(60 * NANOS_PER_SEC + 1));
    assert!(!w.should_warn(200 * NANOS_PER_SEC));
}

#[test]
fn drop_wait_stops_at_max_timeout() {
    let w = DropWait::new();
    assert!(w.keep_waiting(300 * NANOS_PER_SEC - 1));
    assert!(!w.keep_waiting(300 * NANOS_PER_SEC));
}

#[test]
fn canon_verifier_is_a_unit_value() {
    assert_eq!(CanonVerifier, CanonVerifier);
}

#[test]
fn drop_wait_after_check_stops_sleeps_and_warns_once() {
    let mut w = DropWait::new();
    assert_eq!(w.after_check(false, 10 * NANOS_PER_SEC), WaitAction::Sleep);
    assert_eq!(w.after_check(false, 61 * NANOS_PER_SEC), WaitAction::WarnThenSleep);
    assert_eq!(w.after_check(false, 62 * NANOS_PER_SEC), WaitAction::Sleep);
    assert_eq!(w.after_check(true, 63 * NANOS_PER_SEC), WaitAction::Stop);
    let mut fresh = DropWait::new();
    assert_eq!(fresh.after_check(true, 100 * NANOS_PER_SEC), WaitAction::Stop);
    assert_eq!(fresh.after_check(false, 100 * NANOS_PER_SEC), WaitAction::WarnThenSleep);
}
