# xvpn

The verified core of Xvpn, a small UDP VPN with a Linux server and a Windows
client. `src/` is a Verus library: the wire protocol (bincode-encoded
`Message`s), the server's relay, the clients' handshake, tunnelling and
benchmark probes, the console client's connection steps, the parsing of
`route print` output, and the Windows commands that set up and tear down the
tunnel's routes, each with a contract that Verus proves, plus the properties
that tie client and server together (`src/protocol.rs`).

`app/` is the program around it, one executable: the console client
(`connect`, the default, and `benchmark`) and the server, which runs as the
`serve` subcommand with the server's own options. It does the socket,
TUN/Wintun, file and process I/O, and the benchmark's floating-point
statistics. The client keeps `server.txt` beside its executable.

The windowed (Tauri) client is not part of `app/`: its decisions are in the
library (`session::VpnSession`, `config::saved_server`,
`client::handshake_reply_readable`, `netcfg::window_elevation_command`), to be
driven by a Tauri front end. The Wintun crate builds only on Windows, so the
client's tunnel code (`app/tunnel.rs`) is compiled there only.
