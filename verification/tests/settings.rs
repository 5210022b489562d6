use xvpn::config::{
    benchmark_supported, choose_server, entered_server, needs_driver_extract, saved_server,
    ServerChoice, DEFAULT_PORT, DEFAULT_SERVER, DEFAULT_TUN_IP, DEFAULT_TUN_NETMASK,
};
use xvpn::netcfg::cleanup_routes_commands;
use xvpn::session::VpnSession;

#[test]
fn defaults() {
    assert_eq!(DEFAULT_SERVER, "your-server-ip-or-domain.com");
    assert_eq!(DEFAULT_PORT, 51820);
    assert_eq!(DEFAULT_TUN_IP, "10.8.0.2");
    assert_eq!(DEFAULT_TUN_NETMASK, "255.255.255.0");
}

#[test]
fn command_line_server_wins() {
    assert_eq!(
        choose_server("198.51.100.4", Some("10.0.0.1")),
        ServerChoice::Given("198.51.100.4".to_string())
    );
    assert_eq!(choose_server(" x ", None), ServerChoice::Given(" x ".to_string()));
}

#[test]
fn saved_server_used_for_placeholder() {
    assert_eq!(
        choose_server(DEFAULT_SERVER, Some("  10.0.0.1\r\n")),
        ServerChoice::Saved("10.0.0.1".to_string())
    );
}

#[test]
fn blank_or_missing_saved_server_asks() {
    assert_eq!(choose_server(DEFAULT_SERVER, Some(" \n")), ServerChoice::Ask);
    assert_eq!(choose_server(DEFAULT_SERVER, None), ServerChoice::Ask);
}

#[test]
fn typed_server_is_trimmed_and_must_not_be_blank() {
    assert_eq!(entered_server("vpn.example.org\r\n"), Some("vpn.example.org".to_string()));
    assert_eq!(entered_server("   \n"), None);
}

#[test]
fn window_client_shows_saved_server() {
    assert_eq!(saved_server(Some(" 1.2.3.4\n")), "1.2.3.4");
    assert_eq!(saved_server(Some("")), "");
    assert_eq!(saved_server(None), "");
}

#[test]
fn driver_extracted_unless_same_length() {
    assert!(needs_driver_extract(None, 10));
    assert!(needs_driver_extract(Some(9), 10));
    assert!(!needs_driver_extract(Some(10), 10));
}

#[test]
fn only_udp_benchmark() {
    assert!(benchmark_supported("udp"));
    assert!(!benchmark_supported("tcp"));
    assert!(!benchmark_supported("UDP"));
}

#[test]
fn session_disconnect_cleans_up_once() {
    let mut s = VpnSession::new();
    assert!(!s.is_connected());
    assert_eq!(s.disconnect(), None);
    s.connected("203.0.113.7".to_string(), "192.168.1.1".to_string());
    assert!(s.is_connected());
    assert_eq!(s.window_closed(), Some(cleanup_routes_commands("203.0.113.7")));
    assert!(s.is_connected());
    assert_eq!(s.disconnect(), Some(cleanup_routes_commands("203.0.113.7")));
    assert!(!s.is_connected());
    assert_eq!(s.disconnect(), None);
    assert_eq!(s.window_closed(), None);
}

#[test]
fn typed_server_is_used_on_next_run() {
    let saved = entered_server("\t vpn.example.org \r\n").unwrap();
    assert_eq!(choose_server(DEFAULT_SERVER, Some(&saved)), ServerChoice::Saved(saved.clone()));
}
