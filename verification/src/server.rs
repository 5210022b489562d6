//! The server's relay: it answers probes, hands the IP packets that a client
//! sends to its TUN device, and sends the packets that the TUN device yields
//! to the client that it heard from last.
//!
//! The relay decides; the caller does the socket and device I/O. `A` is the
//! type of a peer's address (a `SocketAddr` in the server program).
use vstd::prelude::*;
use crate::message::{decode, encode, encoding, decoding, Message, MessageModel};

verus! {

/// What the server does with one datagram.
#[derive(Debug)]
pub enum RelayAction<A> {
    /// Send `datagram` back to `to`.
    Reply { to: A, datagram: Vec<u8> },
    /// Write `packet` to the TUN device.
    WriteTun { packet: Vec<u8> },
    /// Nothing.
    Ignore,
}

/// The server's state: the address of the client that it heard from last.
pub struct Relay<A> {
    client: Option<A>,
}

/// The action that the server takes on a datagram from `src` that holds `bytes`.
pub open spec fn relay_response<A>(src: A, bytes: Seq<u8>, action: RelayAction<A>) -> bool {
    match decoding(bytes) {
        Some(MessageModel::Ping { seq, payload }) => action matches RelayAction::Reply {
            to,
            datagram,
        } && to == src && datagram@ == encoding(MessageModel::Pong { seq, payload }),
        Some(MessageModel::IpPacket { payload }) => action matches RelayAction::WriteTun {
            packet,
        } && packet@ == payload,
        _ => action is Ignore,
    }
}

impl<A: Copy> Relay<A> {
    /// The client that the server heard from last, if any.
    pub closed spec fn peer(&self) -> Option<A> {
        self.client
    }

    /// A relay that has heard from no client yet.
    pub fn new() -> (r: Self)
        ensures
            r.peer() is None,
    {
        Relay { client: None }
    }

    /// The client that the server heard from last, if any.
    pub fn client(&self) -> (r: Option<A>)
        ensures
            r == self.peer(),
    {
        self.client
    }

    /// Handles a datagram that `src` sent: remembers `src` as the client
    /// (whatever the datagram holds), answers a `Ping` with a `Pong` of the
    /// same sequence number and payload, passes the payload of an `IpPacket`
    /// to the TUN device, and ignores anything else.
    pub fn on_datagram(&mut self, src: A, datagram: &[u8]) -> (action: RelayAction<A>)
        requires
            datagram@.len() <= isize::MAX,
        ensures
            final(self).peer() == Some(src),
            relay_response(src, datagram@, action),
    {
        self.client = Some(src);
        match decode(datagram) {
            Ok(Message::Ping { seq, payload }) => {
                let pong = Message::Pong { seq, payload };
                let bytes = encode(&pong);
                RelayAction::Reply { to: src, datagram: bytes }
            },
            Ok(Message::IpPacket { payload }) => RelayAction::WriteTun { packet: payload },
            _ => RelayAction::Ignore,
        }
    }

    /// Handles a packet that the TUN device yielded: wraps a non-empty packet
    /// in an `IpPacket` addressed to the client that the server heard from
    /// last; drops it when there is no such client.
    pub fn on_tun_packet(&self, packet: &[u8]) -> (r: Option<(A, Vec<u8>)>)
        requires
            packet@.len() <= isize::MAX - 12,
        ensures
            packet@.len() == 0 ==> r is None,
            packet@.len() > 0 ==> match self.peer() {
                None => r is None,
                Some(client) => r matches Some((to, bytes)) && to == client && bytes@ == encoding(
                    MessageModel::IpPacket { payload: packet@ },
                ),
            },
    {
        if packet.len() == 0 {
            return None;
        }
        match self.client {
            None => None,
            Some(client) => {
                let msg = Message::IpPacket { payload: vstd::slice::slice_to_vec(packet) };
                let bytes = encode(&msg);
                Some((client, bytes))
            },
        }
    }
}

} // verus!
