use tcp_server::client::client_should_stop;

#[test]
fn client_stops_only_after_its_time() {
    assert!(!client_should_stop(0, 5));
    assert!(!client_should_stop(5_000_000_000, 5));
    assert!(client_should_stop(5_000_000_001, 5));
    assert!(client_should_stop(1, 0));
    assert!(!client_should_stop(0, 0));
    assert!(!client_should_stop(u64::MAX as u128 * 1_000_000_000, u64::MAX));
}
