use xvpn::text::{default_gateway, is_whitespace, trim};

const ROUTE_PRINT: &str = "===========================================================================\r\n\
Interface List\r\n\
 12...00 15 5d 01 02 03 ......Hyper-V Virtual Ethernet Adapter\r\n\
===========================================================================\r\n\
\r\n\
IPv4 Route Table\r\n\
===========================================================================\r\n\
Active Routes:\r\n\
Network Destination        Netmask          Gateway       Interface  Metric\r\n\
          0.0.0.0          0.0.0.0      192.168.1.1    192.168.1.23     25\r\n\
          0.0.0.0          0.0.0.0         10.0.0.1       10.0.0.5      50\r\n\
===========================================================================\r\n";

#[test]
fn gateway_from_route_table() {
    assert_eq!(default_gateway(ROUTE_PRINT), "192.168.1.1");
}

#[test]
fn gateway_missing_gives_empty() {
    assert_eq!(default_gateway(""), "");
    assert_eq!(default_gateway("Active Routes:\nNone\n"), "");
    assert_eq!(default_gateway("0.0.0.0 0.0.0.0\n"), "");
    assert_eq!(default_gateway("0.0.0.0 255.0.0.0 10.0.0.1\n"), "");
}

#[test]
fn gateway_on_last_line_without_newline() {
    assert_eq!(default_gateway("x\n  0.0.0.0\t0.0.0.0   172.16.0.1"), "172.16.0.1");
}

#[test]
fn gateway_words_split_on_unicode_space() {
    assert_eq!(default_gateway("0.0.0.0\u{3000}0.0.0.0\u{a0}fe80::1 extra"), "fe80::1");
}

#[test]
fn trim_removes_outer_whitespace_only() {
    assert_eq!(trim("  1.2.3.4 \r\n"), "1.2.3.4");
    assert_eq!(trim("a b"), "a b");
    assert_eq!(trim(" \t\n"), "");
    assert_eq!(trim(""), "");
    assert_eq!(trim("\u{2003}vpn.example.org\u{85}"), "vpn.example.org");
}

#[test]
fn whitespace_matches_std_for_every_char() {
    for v in 0u32..=0x10FFFF {
        if let Some(c) = char::from_u32(v) {
            assert_eq!(is_whitespace(c), c.is_whitespace(), "{:?}", c);
        }
    }
}

#[test]
fn trimming_twice_is_trimming_once() {
    for s in ["", "  a ", "\u{2028}x y\u{3000}", "\n\n", "plain"] {
        let once = trim(s);
        assert_eq!(trim(&once), once);
    }
}
