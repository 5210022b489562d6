//! Xvpn, a small point-to-point VPN: the tunnel's wire protocol, the server's
//! relay, and the decisions and commands of its clients.
//!
//! - `wire`: the byte layout of frames and the bincode calls that write and read them.
//! - `message`: the protocol's messages, their encoding and decoding.
//! - `server`: the server's relay between the UDP socket and its TUN device.
//! - `client`: the clients' handshake, packet wrapping and benchmark probes.
//! - `protocol`: properties of the client and server together.
//! - `text`: whitespace, trimming, and reading the default gateway from `route print`.
//! - `netcfg`: the Windows commands that set up and undo the tunnel's routing, and
//!   what they do to the routing table.
//! - `connect`: the console client's connection steps and what follows each.
//! - `config`: the clients' settings and the choice of server.
//! - `session`: the windowed client's connection state.
pub mod client;
pub mod config;
pub mod connect;
pub mod message;
pub mod netcfg;
pub mod protocol;
pub mod server;
pub mod session;
pub mod text;
pub mod wire;

pub use message::Message;
