//! The windowed client's connection state: whether a tunnel is up, and what
//! must be undone when it is taken down or the window closes.
use vstd::prelude::*;
use crate::netcfg::{cleanup_routes_commands, cleanup_routes_spec, commands_view, Command};

verus! {

/// A tunnel that is up: the server's address and the default gateway that
/// was in place before (empty when it was not found).
pub struct Connection {
    server_ip: String,
    gateway: String,
}

/// The windowed client's state.
pub struct VpnSession {
    active: Option<Connection>,
}

impl VpnSession {
    /// The server address and old gateway of the tunnel that is up, if one is.
    pub closed spec fn state(&self) -> Option<(Seq<char>, Seq<char>)> {
        match self.active {
            Some(c) => Some((c.server_ip@, c.gateway@)),
            None => None,
        }
    }

    /// No tunnel is up.
    pub fn new() -> (r: Self)
        ensures
            r.state() is None,
    {
        VpnSession { active: None }
    }

    /// Whether a tunnel is up.
    pub fn is_connected(&self) -> (r: bool)
        ensures
            r == self.state() is Some,
    {
        self.active.is_some()
    }

    /// Records that a tunnel is up to `server_ip`, with `gateway` as the
    /// default gateway from before.
    pub fn connected(&mut self, server_ip: String, gateway: String)
        ensures
            final(self).state() == Some((server_ip@, gateway@)),
    {
        self.active = Some(Connection { server_ip, gateway });
    }

    /// Takes the tunnel down: when one is up, the packet loops must stop and
    /// the returned commands undo its routes; the session is then idle. When
    /// none is up there is nothing to do (`None`).
    pub fn disconnect(&mut self) -> (r: Option<Vec<Command>>)
        ensures
            final(self).state() is None,
            match old(self).state() {
                Some((server_ip, _)) => r matches Some(cmds) && commands_view(cmds@)
                    == cleanup_routes_spec(server_ip),
                None => r is None,
            },
    {
        let r = match &self.active {
            Some(c) => Some(cleanup_routes_commands(c.server_ip.as_str())),
            None => None,
        };
        self.active = None;
        r
    }

    /// The window is closing: when a tunnel is up, the packet loops must stop
    /// and the returned commands undo its routes. The session itself is left
    /// as it is.
    pub fn window_closed(&self) -> (r: Option<Vec<Command>>)
        ensures
            match self.state() {
                Some((server_ip, _)) => r matches Some(cmds) && commands_view(cmds@)
                    == cleanup_routes_spec(server_ip),
                None => r is None,
            },
    {
        match &self.active {
            Some(c) => Some(cleanup_routes_commands(c.server_ip.as_str())),
            None => None,
        }
    }
}

} // verus!
