//! The Windows commands that the client runs to configure the tunnel adapter
//! and the routing table, to undo that configuration, and to ask for
//! administrator rights. The library says which commands; the program runs
//! them.
use vstd::prelude::*;

verus! {

/// A program and its arguments.
#[derive(Debug, PartialEq, Eq)]
pub struct Command {
    pub program: String,
    pub args: Vec<String>,
}

/// What a `Command` holds, as character sequences.
pub struct CommandModel {
    pub program: Seq<char>,
    pub args: Seq<Seq<char>>,
}

impl View for Command {
    type V = CommandModel;

    open spec fn view(&self) -> CommandModel {
        CommandModel { program: self.program@, args: strings_view(self.args@) }
    }
}

pub open spec fn strings_view(v: Seq<String>) -> Seq<Seq<char>> {
    v.map_values(|s: String| s@)
}

pub open spec fn commands_view(v: Seq<Command>) -> Seq<CommandModel> {
    v.map_values(|c: Command| c@)
}

pub open spec fn netsh(args: Seq<Seq<char>>) -> CommandModel {
    CommandModel { program: "netsh"@, args }
}

pub open spec fn route(args: Seq<Seq<char>>) -> CommandModel {
    CommandModel { program: "route"@, args }
}

/// `netsh interface ipv4 set address name=Xvpn source=static <ip> <netmask> none`
pub open spec fn set_address_spec(ip: Seq<char>, netmask: Seq<char>) -> CommandModel {
    netsh(
        seq![
            "interface"@,
            "ipv4"@,
            "set"@,
            "address"@,
            "name=Xvpn"@,
            "source=static"@,
            ip,
            netmask,
            "none"@,
        ],
    )
}

/// `netsh interface ipv4 set dnsservers name=Xvpn source=static address=8.8.8.8 register=primary`
pub open spec fn set_dns_spec() -> CommandModel {
    netsh(
        seq![
            "interface"@,
            "ipv4"@,
            "set"@,
            "dnsservers"@,
            "name=Xvpn"@,
            "source=static"@,
            "address=8.8.8.8"@,
            "register=primary"@,
        ],
    )
}

/// `route print -4 0.0.0.0`, whose output names the current default gateway.
pub open spec fn route_print_spec() -> CommandModel {
    route(seq!["print"@, "-4"@, "0.0.0.0"@])
}

/// `netsh interface ipv4 add route <prefix> interface=Xvpn nexthop=10.8.0.1 metric=5`
pub open spec fn add_tunnel_route_spec(prefix: Seq<char>) -> CommandModel {
    netsh(
        seq![
            "interface"@,
            "ipv4"@,
            "add"@,
            "route"@,
            prefix,
            "interface=Xvpn"@,
            "nexthop=10.8.0.1"@,
            "metric=5"@,
        ],
    )
}

/// `netsh interface ipv4 delete route <prefix> interface=Xvpn`
pub open spec fn delete_tunnel_route_spec(prefix: Seq<char>) -> CommandModel {
    netsh(seq!["interface"@, "ipv4"@, "delete"@, "route"@, prefix, "interface=Xvpn"@])
}

/// The commands that send all traffic through the tunnel: first, when the
/// old default gateway is known, a host route that keeps the server itself
/// reachable through it (else the tunnel's own datagrams would loop into the
/// tunnel); then the two halves of the address space through the tunnel.
pub open spec fn setup_routes_spec(server_ip: Seq<char>, gateway: Seq<char>) -> Seq<CommandModel> {
    (if gateway.len() > 0 {
        seq![route(seq!["add"@, server_ip, "mask"@, "255.255.255.255"@, gateway])]
    } else {
        Seq::empty()
    }) + seq![add_tunnel_route_spec("0.0.0.0/1"@), add_tunnel_route_spec("128.0.0.0/1"@)]
}

/// The commands that undo the routing: the two tunnel routes, the server's
/// host route when the server's address is known, and the two halves of the
/// address space in case they were left as persistent routes.
pub open spec fn cleanup_routes_spec(server_ip: Seq<char>) -> Seq<CommandModel> {
    seq![delete_tunnel_route_spec("0.0.0.0/1"@), delete_tunnel_route_spec("128.0.0.0/1"@)] + (
    if server_ip.len() > 0 {
        seq![route(seq!["delete"@, server_ip])]
    } else {
        Seq::empty()
    }) + seq![
        route(seq!["delete"@, "0.0.0.0"@, "mask"@, "128.0.0.0"@]),
        route(seq!["delete"@, "128.0.0.0"@, "mask"@, "128.0.0.0"@]),
    ]
}

/// The command that removes the route that `c` adds: a tunnel route is
/// deleted by its prefix, a host route by its destination.
pub open spec fn undo_route(c: CommandModel) -> CommandModel {
    if c.program == "netsh"@ {
        delete_tunnel_route_spec(c.args[4])
    } else {
        route(seq!["delete"@, c.args[1]])
    }
}

/// Taking the tunnel down removes every route that bringing it up added:
/// whatever the old gateway, for a known server address, the cleanup
/// commands include the undoing of each setup command.
pub proof fn law_cleanup_undoes_setup(server_ip: Seq<char>, gateway: Seq<char>)
    requires
        server_ip.len() > 0,
    ensures
        forall|i: int|
            0 <= i < setup_routes_spec(server_ip, gateway).len() ==> cleanup_routes_spec(
                server_ip,
            ).contains(#[trigger] undo_route(setup_routes_spec(server_ip, gateway)[i])),
{
    let setup = setup_routes_spec(server_ip, gateway);
    let cleanup = cleanup_routes_spec(server_ip);
    reveal_strlit("netsh");
    reveal_strlit("route");
    assert("route"@ != "netsh"@) by {
        assert("route"@[0] != "netsh"@[0]);
    }
    assert forall|i: int| 0 <= i < setup.len() implies cleanup.contains(
        #[trigger] undo_route(setup[i]),
    ) by {
        if gateway.len() > 0 && i == 0 {
            assert(undo_route(setup[i]) == cleanup[2]);
        } else if (gateway.len() > 0 && i == 1) || (gateway.len() == 0 && i == 0) {
            assert(undo_route(setup[i]) == cleanup[0]);
        } else {
            assert(undo_route(setup[i]) == cleanup[1]);
        }
    }
}

/// A route: its destination prefix (`address/length`) and its next hop or
/// interface.
pub struct RouteEntry {
    pub dest: Seq<char>,
    pub via: Seq<char>,
}

/// What a routing command does to the routing table, a set of routes:
/// `netsh interface ipv4 add route P interface=Xvpn ...` adds the route to
/// `P` on the tunnel adapter and `... delete route P interface=Xvpn` removes
/// it; `route add A mask 255.255.255.255 G` adds the host route to `A` via
/// `G`; `route delete A` removes every route to the host `A`, and
/// `route delete A mask 128.0.0.0` every route to `A/1`. Other commands leave
/// the table as it is.
pub open spec fn apply_route_command(c: CommandModel, table: Set<RouteEntry>) -> Set<RouteEntry> {
    let a = c.args;
    if c.program == "netsh"@ && a.len() == 8 && a[2] == "add"@ && a[3] == "route"@ && a[5]
        == "interface=Xvpn"@ {
        table.insert(RouteEntry { dest: a[4], via: "Xvpn"@ })
    } else if c.program == "netsh"@ && a.len() == 6 && a[2] == "delete"@ && a[3] == "route"@
        && a[5] == "interface=Xvpn"@ {
        table.remove(RouteEntry { dest: a[4], via: "Xvpn"@ })
    } else if c.program == "route"@ && a.len() == 5 && a[0] == "add"@ && a[2] == "mask"@ && a[3]
        == "255.255.255.255"@ {
        table.insert(RouteEntry { dest: a[1] + "/32"@, via: a[4] })
    } else if c.program == "route"@ && a.len() == 2 && a[0] == "delete"@ {
        table.filter(|e: RouteEntry| e.dest != a[1] + "/32"@)
    } else if c.program == "route"@ && a.len() == 4 && a[0] == "delete"@ && a[2] == "mask"@ && a[3]
        == "128.0.0.0"@ {
        table.filter(|e: RouteEntry| e.dest != a[1] + "/1"@)
    } else {
        table
    }
}

/// The routing table after running `commands` in order.
pub open spec fn apply_route_commands(commands: Seq<CommandModel>, table: Set<RouteEntry>) -> Set<
    RouteEntry,
>
    decreases commands.len(),
{
    if commands.len() == 0 {
        table
    } else {
        apply_route_commands(commands.drop_first(), apply_route_command(commands[0], table))
    }
}

/// Bringing the tunnel's routes up and taking them down again leaves the
/// routing table as it was, when it had no route of its own to the two
/// halves of the address space or to the server.
pub proof fn law_cleanup_restores_routes(
    server_ip: Seq<char>,
    gateway: Seq<char>,
    table: Set<RouteEntry>,
)
    requires
        server_ip.len() > 0,
        forall|e: RouteEntry|
            #![trigger table.contains(e)]
            table.contains(e) ==> e.dest != "0.0.0.0/1"@ && e.dest != "128.0.0.0/1"@ && e.dest
                != server_ip + "/32"@,
    ensures
        apply_route_commands(
            cleanup_routes_spec(server_ip),
            apply_route_commands(setup_routes_spec(server_ip, gateway), table),
        ) == table,
{
    reveal_strlit("netsh");
    reveal_strlit("route");
    reveal_strlit("add");
    reveal_strlit("delete");
    reveal_strlit("0.0.0.0");
    reveal_strlit("128.0.0.0");
    reveal_strlit("/1");
    reveal_strlit("0.0.0.0/1");
    reveal_strlit("128.0.0.0/1");
    assert("route"@ != "netsh"@) by {
        assert("route"@[0] != "netsh"@[0]);
    }
    assert("delete"@ != "add"@) by {
        assert("delete"@.len() != "add"@.len());
    }
    assert("0.0.0.0"@ + "/1"@ =~= "0.0.0.0/1"@);
    assert("128.0.0.0"@ + "/1"@ =~= "128.0.0.0/1"@);
    reveal_with_fuel(apply_route_commands, 6);
    let low = RouteEntry { dest: "0.0.0.0/1"@, via: "Xvpn"@ };
    let high = RouteEntry { dest: "128.0.0.0/1"@, via: "Xvpn"@ };
    let host = RouteEntry { dest: server_ip + "/32"@, via: gateway };
    let up = if gateway.len() > 0 {
        table.insert(host).insert(low).insert(high)
    } else {
        table.insert(low).insert(high)
    };
    let setup = setup_routes_spec(server_ip, gateway);
    assert(apply_route_commands(setup, table) == up) by {
        if gateway.len() > 0 {
            assert(setup.drop_first().drop_first().drop_first() =~= Seq::<CommandModel>::empty());
        } else {
            assert(setup.drop_first().drop_first() =~= Seq::<CommandModel>::empty());
        }
    }
    let cleanup = cleanup_routes_spec(server_ip);
    assert(cleanup.drop_first().drop_first().drop_first().drop_first().drop_first()
        =~= Seq::<CommandModel>::empty());
    let down = up.remove(low).remove(high).filter(|e: RouteEntry| e.dest != server_ip + "/32"@).filter(
        |e: RouteEntry| e.dest != "0.0.0.0"@ + "/1"@,
    ).filter(|e: RouteEntry| e.dest != "128.0.0.0"@ + "/1"@);
    assert(apply_route_commands(cleanup, up) == down);
    assert(down =~= table);
}

/// `net session`, which succeeds only with administrator rights.
pub open spec fn elevation_probe_spec() -> CommandModel {
    CommandModel { program: "net"@, args: seq!["session"@] }
}

/// The words of `parts` with `sep` between each two (what `join` gives).
pub open spec fn joined(parts: Seq<Seq<char>>, sep: Seq<char>) -> Seq<char>
    decreases parts.len(),
{
    if parts.len() == 0 {
        Seq::empty()
    } else if parts.len() == 1 {
        parts[0]
    } else {
        joined(parts.drop_last(), sep) + sep + parts.last()
    }
}

/// One word is joined to itself.
pub proof fn law_joined_single(w: Seq<char>, sep: Seq<char>)
    ensures
        joined(seq![w], sep) == w,
{
}

/// Joining two non-empty lists of words one after the other gives the two
/// joins with one separator between them: every word is kept, in order, with
/// exactly one separator between neighbours.
pub proof fn law_joined_concat(a: Seq<Seq<char>>, b: Seq<Seq<char>>, sep: Seq<char>)
    requires
        a.len() > 0,
        b.len() > 0,
    ensures
        joined(a + b, sep) == joined(a, sep) + sep + joined(b, sep),
    decreases b.len(),
{
    assert((a + b).drop_last() =~= a + b.drop_last());
    if b.len() == 1 {
        assert(a + b.drop_last() =~= a);
    } else {
        law_joined_concat(a, b.drop_last(), sep);
        assert(joined(a + b, sep) =~= joined(a, sep) + sep + joined(b, sep));
    }
}

/// The length of the join: the words' lengths and one separator between
/// each two neighbours.
pub proof fn law_joined_len(parts: Seq<Seq<char>>, sep: Seq<char>)
    requires
        parts.len() > 0,
    ensures
        joined(parts, sep).len() == total_len(parts) + (parts.len() - 1) * sep.len(),
    decreases parts.len(),
{
    let n = parts.len() as int;
    let k = sep.len() as int;
    if n > 1 {
        law_joined_len(parts.drop_last(), sep);
        assert(total_len(parts) == total_len(parts.drop_last()) + parts.last().len());
        assert((n - 1) * k == (n - 2) * k + k) by (nonlinear_arith);
        assert(joined(parts, sep) == joined(parts.drop_last(), sep) + sep + parts.last());
        assert(joined(parts, sep).len() == joined(parts.drop_last(), sep).len() + k + parts.last().len());
    } else {
        assert(parts.drop_last().len() == 0);
        assert(total_len(parts.drop_last()) == 0);
        assert(joined(parts, sep) == parts[0]);
        assert((n - 1) * k == 0) by (nonlinear_arith)
            requires
                n == 1,
        ;
    }
}

/// The sum of the lengths of `parts`.
pub open spec fn total_len(parts: Seq<Seq<char>>) -> int
    decreases parts.len(),
{
    if parts.len() == 0 {
        0
    } else {
        total_len(parts.drop_last()) + parts.last().len()
    }
}

/// The PowerShell script with which the console client restarts itself as
/// administrator and waits for that run; it passes its arguments on only when
/// there are some (`Start-Process` refuses an empty `-ArgumentList`, and a
/// client started by a double click has no arguments).
pub open spec fn console_elevation_script(exe: Seq<char>, args: Seq<Seq<char>>) -> Seq<char> {
    if joined(args, " "@).len() == 0 {
        "Start-Process -FilePath '"@ + exe + "' -Verb RunAs -Wait"@
    } else {
        "Start-Process -FilePath '"@ + exe + "' -ArgumentList '"@ + joined(args, " "@)
            + "' -Verb RunAs -Wait"@
    }
}

/// The PowerShell script with which the windowed client restarts itself as
/// administrator; it passes the arguments on only when there are some.
pub open spec fn window_elevation_script(exe: Seq<char>, args: Seq<Seq<char>>) -> Seq<char> {
    if joined(args, " "@).len() == 0 {
        "Start-Process -FilePath '"@ + exe + "' -Verb RunAs"@
    } else {
        "Start-Process -FilePath '"@ + exe + "' -ArgumentList '"@ + joined(args, " "@)
            + "' -Verb RunAs"@
    }
}

/// The console client restarts itself with all its arguments: when they are
/// not all empty, the script passes every argument, in order, joined with
/// single spaces, to `-ArgumentList`, and waits; otherwise it passes no
/// argument list.
pub proof fn law_console_elevation_passes_all_arguments(exe: Seq<char>, args: Seq<Seq<char>>)
    ensures
        joined(args, " "@).len() > 0 ==> console_elevation_spec(exe, args).args[2] == "Start-Process -FilePath '"@
            + exe + "' -ArgumentList '"@ + joined(args, " "@) + "' -Verb RunAs -Wait"@,
        joined(args, " "@).len() == 0 ==> console_elevation_spec(exe, args).args[2] == "Start-Process -FilePath '"@
            + exe + "' -Verb RunAs -Wait"@,
        console_elevation_spec(exe, args).program == "powershell"@,
        console_elevation_spec(exe, args).args.len() == 3,
{
}

/// The windowed client restarts itself with all its arguments in the same
/// way, hidden and without waiting.
pub proof fn law_window_elevation_passes_all_arguments(exe: Seq<char>, args: Seq<Seq<char>>)
    ensures
        joined(args, " "@).len() > 0 ==> window_elevation_spec(exe, args).args[4] == "Start-Process -FilePath '"@
            + exe + "' -ArgumentList '"@ + joined(args, " "@) + "' -Verb RunAs"@,
        joined(args, " "@).len() == 0 ==> window_elevation_spec(exe, args).args[4] == "Start-Process -FilePath '"@
            + exe + "' -Verb RunAs"@,
        window_elevation_spec(exe, args).program == "powershell"@,
        window_elevation_spec(exe, args).args.len() == 5,
{
}

/// `powershell -NoProfile -Command <script>`
pub open spec fn console_elevation_spec(exe: Seq<char>, args: Seq<Seq<char>>) -> CommandModel {
    CommandModel {
        program: "powershell"@,
        args: seq!["-NoProfile"@, "-Command"@, console_elevation_script(exe, args)],
    }
}

/// `powershell -NoProfile -WindowStyle Hidden -Command <script>`
pub open spec fn window_elevation_spec(exe: Seq<char>, args: Seq<Seq<char>>) -> CommandModel {
    CommandModel {
        program: "powershell"@,
        args: seq![
            "-NoProfile"@,
            "-WindowStyle"@,
            "Hidden"@,
            "-Command"@,
            window_elevation_script(exe, args),
        ],
    }
}

/// The owned strings of `words`.
fn strings(words: &[&str]) -> (r: Vec<String>)
    ensures
        strings_view(r@) == words@.map_values(|w: &str| w@),
{
    let mut r: Vec<String> = Vec::new();
    let mut i: usize = 0;
    while i < words.len()
        invariant
            i <= words@.len(),
            strings_view(r@) == words@.take(i as int).map_values(|w: &str| w@),
        decreases words@.len() - i,
    {
        let w: &str = words[i];
        let owned: String = w.to_owned();
        let ghost before = r@;
        r.push(owned);
        assert(strings_view(r@) =~= strings_view(before).push(words@[i as int]@));
        i = i + 1;
    }
    r
}

fn command(program: &str, args: Vec<String>) -> (r: Command)
    ensures
        r@.program == program@,
        r@.args == strings_view(args@),
{
    Command { program: program.to_owned(), args }
}

/// The command that gives the tunnel adapter its address and netmask.
pub fn set_address_command(ip: &str, netmask: &str) -> (r: Command)
    ensures
        r@ == set_address_spec(ip@, netmask@),
{
    let args = strings(
        &["interface", "ipv4", "set", "address", "name=Xvpn", "source=static", ip, netmask, "none"],
    );
    let r = command("netsh", args);
    assert(r@.args =~= set_address_spec(ip@, netmask@).args);
    r
}

/// The command that points the tunnel adapter at the tunnel's DNS server.
pub fn set_dns_command() -> (r: Command)
    ensures
        r@ == set_dns_spec(),
{
    let args = strings(
        &[
            "interface",
            "ipv4",
            "set",
            "dnsservers",
            "name=Xvpn",
            "source=static",
            "address=8.8.8.8",
            "register=primary",
        ],
    );
    let r = command("netsh", args);
    assert(r@.args =~= set_dns_spec().args);
    r
}

/// The command whose output names the current default gateway.
pub fn route_print_command() -> (r: Command)
    ensures
        r@ == route_print_spec(),
{
    let args = strings(&["print", "-4", "0.0.0.0"]);
    let r = command("route", args);
    assert(r@.args =~= route_print_spec().args);
    r
}

/// The command that tells whether the program runs as administrator.
pub fn elevation_probe_command() -> (r: Command)
    ensures
        r@ == elevation_probe_spec(),
{
    let args = strings(&["session"]);
    let r = command("net", args);
    assert(r@.args =~= elevation_probe_spec().args);
    r
}

fn add_tunnel_route(prefix: &str) -> (r: Command)
    ensures
        r@ == add_tunnel_route_spec(prefix@),
{
    let args = strings(
        &["interface", "ipv4", "add", "route", prefix, "interface=Xvpn", "nexthop=10.8.0.1", "metric=5"],
    );
    let r = command("netsh", args);
    assert(r@.args =~= add_tunnel_route_spec(prefix@).args);
    r
}

fn delete_tunnel_route(prefix: &str) -> (r: Command)
    ensures
        r@ == delete_tunnel_route_spec(prefix@),
{
    let args = strings(&["interface", "ipv4", "delete", "route", prefix, "interface=Xvpn"]);
    let r = command("netsh", args);
    assert(r@.args =~= delete_tunnel_route_spec(prefix@).args);
    r
}

fn route_command(args: &[&str]) -> (r: Command)
    ensures
        r@ == route(args@.map_values(|w: &str| w@)),
{
    let a = strings(args);
    command("route", a)
}

/// The commands that send all traffic through the tunnel, keeping the server
/// reachable through `gateway`, the default gateway before the tunnel (empty
/// when it is not known).
pub fn setup_routes_commands(server_ip: &str, gateway: &str) -> (r: Vec<Command>)
    ensures
        commands_view(r@) == setup_routes_spec(server_ip@, gateway@),
{
    let mut r: Vec<Command> = Vec::new();
    if !gateway.is_empty() {
        let c = route_command(&["add", server_ip, "mask", "255.255.255.255", gateway]);
        assert(c@.args =~= seq!["add"@, server_ip@, "mask"@, "255.255.255.255"@, gateway@]);
        r.push(c);
    }
    r.push(add_tunnel_route("0.0.0.0/1"));
    r.push(add_tunnel_route("128.0.0.0/1"));
    r
}

/// The commands that undo the routing of `setup_routes_commands`; `server_ip`
/// is the server's address, empty when it is not known.
pub fn cleanup_routes_commands(server_ip: &str) -> (r: Vec<Command>)
    ensures
        commands_view(r@) == cleanup_routes_spec(server_ip@),
{
    let mut r: Vec<Command> = Vec::new();
    r.push(delete_tunnel_route("0.0.0.0/1"));
    r.push(delete_tunnel_route("128.0.0.0/1"));
    if !server_ip.is_empty() {
        let c = route_command(&["delete", server_ip]);
        assert(c@.args =~= seq!["delete"@, server_ip@]);
        r.push(c);
    }
    let c1 = route_command(&["delete", "0.0.0.0", "mask", "128.0.0.0"]);
    assert(c1@.args =~= seq!["delete"@, "0.0.0.0"@, "mask"@, "128.0.0.0"@]);
    r.push(c1);
    let c2 = route_command(&["delete", "128.0.0.0", "mask", "128.0.0.0"]);
    assert(c2@.args =~= seq!["delete"@, "128.0.0.0"@, "mask"@, "128.0.0.0"@]);
    r.push(c2);
    r
}

/// `args` joined with single spaces.
pub fn join_args(args: &[String]) -> (r: String)
    ensures
        r@ == joined(strings_view(args@), " "@),
{
    let mut r = String::new();
    let mut i: usize = 0;
    while i < args.len()
        invariant
            i <= args@.len(),
            r@ == joined(strings_view(args@.take(i as int)), " "@),
        decreases args@.len() - i,
    {
        if i > 0 {
            r.append(" ");
        }
        r.append(args[i].as_str());
        assert(strings_view(args@.take(i + 1)).drop_last() =~= strings_view(args@.take(i as int)));
        i = i + 1;
    }
    assert(args@.take(args@.len() as int) =~= args@);
    r
}

/// The command with which the console client restarts itself as
/// administrator: `exe` is the path of its executable, `args` the arguments it
/// was given.
pub fn console_elevation_command(exe: &str, args: &[String]) -> (r: Command)
    ensures
        r@ == console_elevation_spec(exe@, strings_view(args@)),
{
    let joined_args = join_args(args);
    let mut script = String::from_str("Start-Process -FilePath '");
    script.append(exe);
    if joined_args.as_str().is_empty() {
        script.append("' -Verb RunAs -Wait");
    } else {
        script.append("' -ArgumentList '");
        script.append(joined_args.as_str());
        script.append("' -Verb RunAs -Wait");
    }
    let mut a: Vec<String> = Vec::new();
    a.push("-NoProfile".to_owned());
    a.push("-Command".to_owned());
    a.push(script);
    let r = command("powershell", a);
    assert(r@.args =~= console_elevation_spec(exe@, strings_view(args@)).args);
    r
}

/// The command with which the windowed client restarts itself as
/// administrator, hidden: `exe` is the path of its executable, `args` the
/// arguments it was given.
pub fn window_elevation_command(exe: &str, args: &[String]) -> (r: Command)
    ensures
        r@ == window_elevation_spec(exe@, strings_view(args@)),
{
    let joined_args = join_args(args);
    let mut script = String::from_str("Start-Process -FilePath '");
    script.append(exe);
    if joined_args.as_str().is_empty() {
        script.append("' -Verb RunAs");
    } else {
        script.append("' -ArgumentList '");
        script.append(joined_args.as_str());
        script.append("' -Verb RunAs");
    }
    let mut a: Vec<String> = Vec::new();
    a.push("-NoProfile".to_owned());
    a.push("-WindowStyle".to_owned());
    a.push("Hidden".to_owned());
    a.push("-Command".to_owned());
    a.push(script);
    let r = command("powershell", a);
    assert(r@.args =~= window_elevation_spec(exe@, strings_view(args@)).args);
    r
}

/// Whether the elevation command failed, given its exit code (`None` when it
/// was ended without one): PowerShell exits with a non-zero code when the
/// user refuses the administrator prompt, and with 0 once the elevated run
/// has finished.
pub fn elevation_refused(exit_code: Option<i32>) -> (r: bool)
    ensures
        r == (exit_code matches Some(c) && c != 0),
{
    match exit_code {
        Some(c) => c != 0,
        None => false,
    }
}

} // verus!
