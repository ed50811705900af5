use devloop::http::{bad_gateway_message, build_target_uri, should_inject};
use devloop::poll::{poll_may_continue, poll_sleep_ms, POLL_PERIOD_MS, PORT_WAIT_TIMEOUT_MS};
use devloop::registry::ConnectionRegistry;

#[test]
fn registry_drains_all_connections_at_once() {
    // Accept N connections, then one refresh trigger: everything that was
    // registered comes out exactly once and nothing remains.
    let mut reg: ConnectionRegistry<u32> = ConnectionRegistry::new();
    for id in 0..5u32 {
        reg.insert(id);
    }
    assert_eq!(reg.len(), 5);
    let out = reg.drain_all();
    assert_eq!(out, vec![0, 1, 2, 3, 4]);
    assert_eq!(reg.len(), 0);
}

#[test]
fn registry_drain_is_idempotent() {
    let mut reg: ConnectionRegistry<u8> = ConnectionRegistry::new();
    assert_eq!(reg.drain_all(), Vec::new());
    reg.insert(9);
    assert_eq!(reg.drain_all(), vec![9]);
    assert_eq!(reg.drain_all(), Vec::new());
}

#[test]
fn registry_accepts_after_drain() {
    let mut reg: ConnectionRegistry<u8> = ConnectionRegistry::new();
    reg.insert(1);
    let _ = reg.drain_all();
    reg.insert(2);
    assert_eq!(reg.len(), 1);
    assert_eq!(reg.drain_all(), vec![2]);
}

#[test]
fn poll_stops_at_the_budget() {
    assert!(poll_may_continue(0));
    assert!(poll_may_continue(PORT_WAIT_TIMEOUT_MS - 1));
    assert!(!poll_may_continue(PORT_WAIT_TIMEOUT_MS));
    assert!(!poll_may_continue(PORT_WAIT_TIMEOUT_MS + 500));
}

#[test]
fn poll_sleeps_the_remainder_of_a_slot() {
    assert_eq!(poll_sleep_ms(0), POLL_PERIOD_MS);
    assert_eq!(poll_sleep_ms(5), 15);
    assert_eq!(poll_sleep_ms(POLL_PERIOD_MS), 0);
    assert_eq!(poll_sleep_ms(100), 0);
}

#[test]
fn html_responses_are_rewritten() {
    assert!(should_inject(true, Some(b"text/html")));
    assert!(should_inject(true, Some(b"text/html; charset=utf-8")));
    assert!(!should_inject(true, Some(b"text/plain")));
    assert!(!should_inject(true, Some(b"text/htm")));
    assert!(!should_inject(true, None));
    assert!(!should_inject(false, Some(b"text/html")));
}

#[test]
fn target_uri_keeps_path_and_query() {
    assert_eq!(
        build_target_uri("127.0.0.1:8000", "/app?x=1"),
        "http://127.0.0.1:8000/app?x=1"
    );
    assert_eq!(build_target_uri("localhost:3000", ""), "http://localhost:3000");
}

#[test]
fn bad_gateway_body_names_the_target() {
    assert_eq!(
        bad_gateway_message("http://127.0.0.1:8000/", "connection refused"),
        "failed to reach http://127.0.0.1:8000/\nError:\n\nconnection refused"
    );
}
