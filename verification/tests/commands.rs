use xvpn::netcfg::{
    cleanup_routes_commands, console_elevation_command, elevation_probe_command, join_args,
    route_print_command, set_address_command, set_dns_command, setup_routes_commands,
    window_elevation_command, Command,
};

fn cmd(program: &str, args: &[&str]) -> Command {
    Command { program: program.to_string(), args: args.iter().map(|a| a.to_string()).collect() }
}

#[test]
fn address_command() {
    assert_eq!(
        set_address_command("10.8.0.2", "255.255.255.0"),
        cmd("netsh", &["interface", "ipv4", "set", "address", "name=Xvpn", "source=static",
                       "10.8.0.2", "255.255.255.0", "none"])
    );
}

#[test]
fn dns_and_route_print_and_probe_commands() {
    assert_eq!(
        set_dns_command(),
        cmd("netsh", &["interface", "ipv4", "set", "dnsservers", "name=Xvpn", "source=static",
                       "address=8.8.8.8", "register=primary"])
    );
    assert_eq!(route_print_command(), cmd("route", &["print", "-4", "0.0.0.0"]));
    assert_eq!(elevation_probe_command(), cmd("net", &["session"]));
}

#[test]
fn setup_routes_with_known_gateway() {
    assert_eq!(
        setup_routes_commands("203.0.113.7", "192.168.1.1"),
        vec![
            cmd("route", &["add", "203.0.113.7", "mask", "255.255.255.255", "192.168.1.1"]),
            cmd("netsh", &["interface", "ipv4", "add", "route", "0.0.0.0/1", "interface=Xvpn",
                           "nexthop=10.8.0.1", "metric=5"]),
            cmd("netsh", &["interface", "ipv4", "add", "route", "128.0.0.0/1", "interface=Xvpn",
                           "nexthop=10.8.0.1", "metric=5"]),
        ]
    );
}

#[test]
fn setup_routes_without_gateway_skips_host_route() {
    let cmds = setup_routes_commands("203.0.113.7", "");
    assert_eq!(cmds.len(), 2);
    assert_eq!(cmds[0].program, "netsh");
}

#[test]
fn cleanup_routes_with_and_without_server() {
    let with = cleanup_routes_commands("203.0.113.7");
    assert_eq!(
        with,
        vec![
            cmd("netsh", &["interface", "ipv4", "delete", "route", "0.0.0.0/1", "interface=Xvpn"]),
            cmd("netsh", &["interface", "ipv4", "delete", "route", "128.0.0.0/1", "interface=Xvpn"]),
            cmd("route", &["delete", "203.0.113.7"]),
            cmd("route", &["delete", "0.0.0.0", "mask", "128.0.0.0"]),
            cmd("route", &["delete", "128.0.0.0", "mask", "128.0.0.0"]),
        ]
    );
    let without = cleanup_routes_commands("");
    assert_eq!(without.len(), 4);
    assert!(without.iter().all(|c| c.args != vec!["delete".to_string(), String::new()]));
}

#[test]
fn join_args_uses_single_spaces() {
    assert_eq!(join_args(&[]), "");
    assert_eq!(join_args(&["connect".to_string()]), "connect");
    assert_eq!(
        join_args(&["connect".to_string(), "--port".to_string(), "9".to_string()]),
        "connect --port 9"
    );
}

#[test]
fn console_elevation_passes_arguments_only_when_given_and_waits() {
    assert_eq!(
        console_elevation_command("C:\\x\\Xvpn.exe", &[]),
        cmd("powershell", &["-NoProfile", "-Command",
            "Start-Process -FilePath 'C:\\x\\Xvpn.exe' -Verb RunAs -Wait"])
    );
    assert_eq!(
        console_elevation_command("a.exe", &[String::new()]).args[2],
        "Start-Process -FilePath 'a.exe' -Verb RunAs -Wait"
    );
    let c = console_elevation_command("a.exe", &["connect".to_string(), "--port".to_string(), "1".to_string()]);
    assert_eq!(c.args[2], "Start-Process -FilePath 'a.exe' -ArgumentList 'connect --port 1' -Verb RunAs -Wait");
}

#[test]
fn window_elevation_passes_arguments_only_when_given() {
    assert_eq!(
        window_elevation_command("gui.exe", &[]),
        cmd("powershell", &["-NoProfile", "-WindowStyle", "Hidden", "-Command",
            "Start-Process -FilePath 'gui.exe' -Verb RunAs"])
    );
    let c = window_elevation_command("gui.exe", &["x".to_string()]);
    assert_eq!(c.args[4], "Start-Process -FilePath 'gui.exe' -ArgumentList 'x' -Verb RunAs");
}

#[test]
fn cleanup_undoes_every_setup_route() {
    for gateway in ["192.168.1.1", ""] {
        let setup = setup_routes_commands("203.0.113.7", gateway);
        let cleanup = cleanup_routes_commands("203.0.113.7");
        for c in &setup {
            let undo = if c.program == "netsh" {
                cmd("netsh", &["interface", "ipv4", "delete", "route", &c.args[4], "interface=Xvpn"])
            } else {
                cmd("route", &["delete", &c.args[1]])
            };
            assert!(cleanup.contains(&undo), "{:?}", undo);
        }
    }
}

/// Runs routing commands against a table of (destination, via) routes, as
/// `netsh` and `route` treat the commands that the client issues.
fn apply(table: &mut Vec<(String, String)>, c: &Command) {
    let a: Vec<&str> = c.args.iter().map(|s| s.as_str()).collect();
    match (c.program.as_str(), a.as_slice()) {
        ("netsh", [_, _, "add", "route", p, "interface=Xvpn", _, _]) => {
            table.push((p.to_string(), "Xvpn".to_string()))
        }
        ("netsh", [_, _, "delete", "route", p, "interface=Xvpn"]) => {
            table.retain(|e| *e != (p.to_string(), "Xvpn".to_string()))
        }
        ("route", ["add", ip, "mask", "255.255.255.255", gw]) => {
            table.push((format!("{}/32", ip), gw.to_string()))
        }
        ("route", ["delete", ip]) => table.retain(|e| e.0 != format!("{}/32", ip)),
        ("route", ["delete", d, "mask", "128.0.0.0"]) => table.retain(|e| e.0 != format!("{}/1", d)),
        _ => {}
    }
}

#[test]
fn routing_table_restored_after_cleanup() {
    let before = vec![
        ("0.0.0.0/0".to_string(), "192.168.1.1".to_string()),
        ("192.168.1.0/24".to_string(), "Ethernet".to_string()),
    ];
    for gateway in ["192.168.1.1", ""] {
        let mut table = before.clone();
        for c in setup_routes_commands("203.0.113.7", gateway) {
            apply(&mut table, &c);
        }
        assert_eq!(table.len(), before.len() + if gateway.is_empty() { 2 } else { 3 });
        for c in cleanup_routes_commands("203.0.113.7") {
            apply(&mut table, &c);
        }
        assert_eq!(table, before);
    }
}
