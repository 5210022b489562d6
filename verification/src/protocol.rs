//! Properties of the protocol as a whole: what the server answers to what the
//! clients send, and what the clients make of what the server sends.
use vstd::prelude::*;
use crate::client::{answers_probe, handshake_ping, is_pong, tunnelled_packet};
use crate::message::{decoding, encoding, lemma_decode_encoding, MessageModel};
use crate::server::{relay_response, RelayAction};

verus! {

/// The server answers every `Ping` with a `Pong` of the same sequence number
/// and payload, sent back to the address the `Ping` came from.
pub proof fn law_ping_is_echoed<A>(src: A, seq: u64, payload: Seq<u8>, action: RelayAction<A>)
    requires
        payload.len() <= isize::MAX - 20,
        relay_response(src, encoding(MessageModel::Ping { seq, payload }), action),
    ensures
        action matches RelayAction::Reply { to, datagram } && to == src && decoding(datagram@)
            == Some(MessageModel::Pong { seq, payload }),
{
    lemma_decode_encoding(MessageModel::Ping { seq, payload });
    lemma_decode_encoding(MessageModel::Pong { seq, payload });
}

/// The server's answer to the handshake probe is one that the client accepts.
pub proof fn law_handshake_completes<A>(src: A, action: RelayAction<A>)
    requires
        relay_response(src, encoding(handshake_ping()), action),
    ensures
        action matches RelayAction::Reply { to, datagram } && to == src && is_pong(datagram@),
{
    law_ping_is_echoed(src, 0, Seq::empty(), action);
}

/// The server's answer to the benchmark probe `seq` counts as answering that
/// probe and no other.
pub proof fn law_probe_answer_matches<A>(
    src: A,
    seq: u64,
    payload: Seq<u8>,
    action: RelayAction<A>,
    other: u64,
)
    requires
        payload.len() <= isize::MAX - 20,
        relay_response(src, encoding(MessageModel::Ping { seq, payload }), action),
    ensures
        action matches RelayAction::Reply { datagram, .. } && answers_probe(seq, datagram@) && (
        other != seq ==> !answers_probe(other, datagram@)),
{
    law_ping_is_echoed(src, seq, payload, action);
}

/// An IP packet that a client sends through the tunnel reaches the server's
/// TUN device unchanged.
pub proof fn law_uplink_packet_delivered<A>(src: A, packet: Seq<u8>, action: RelayAction<A>)
    requires
        packet.len() <= isize::MAX - 12,
        relay_response(src, encoding(MessageModel::IpPacket { payload: packet }), action),
    ensures
        action matches RelayAction::WriteTun { packet: p } && p@ == packet,
{
    lemma_decode_encoding(MessageModel::IpPacket { payload: packet });
}

/// An IP packet that the server sends through the tunnel reaches the client's
/// adapter unchanged.
pub proof fn law_downlink_packet_delivered(packet: Seq<u8>)
    requires
        packet.len() <= isize::MAX - 12,
    ensures
        tunnelled_packet(encoding(MessageModel::IpPacket { payload: packet })) == Some(packet),
{
    lemma_decode_encoding(MessageModel::IpPacket { payload: packet });
}

/// The server sends a datagram back only for a `Ping`.
pub proof fn law_only_pings_answered<A>(src: A, bytes: Seq<u8>, action: RelayAction<A>)
    requires
        relay_response(src, bytes, action),
        action is Reply,
    ensures
        decoding(bytes) matches Some(MessageModel::Ping { .. }),
{
}

/// The server writes to its TUN device only the payload of an `IpPacket`.
pub proof fn law_only_ip_packets_reach_tun<A>(src: A, bytes: Seq<u8>, action: RelayAction<A>)
    requires
        relay_response(src, bytes, action),
        action is WriteTun,
    ensures
        decoding(bytes) matches Some(MessageModel::IpPacket { payload }) && action->packet@
            == payload,
{
}

/// A `Pong`, or a datagram that holds no message, makes the server do
/// nothing.
pub proof fn law_pongs_and_garbage_ignored<A>(src: A, bytes: Seq<u8>, action: RelayAction<A>)
    requires
        relay_response(src, bytes, action),
        decoding(bytes) is None || decoding(bytes) matches Some(MessageModel::Pong { .. }),
    ensures
        action is Ignore,
{
}

} // verus!
