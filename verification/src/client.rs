//! The client's side of the protocol: the handshake probe, the wrapping and
//! unwrapping of tunnelled IP packets, and the probes of the UDP benchmark.
use vstd::prelude::*;
use crate::message::{
    decode, decoding, encodable, encode, encoding, lemma_decode_encode, Message, MessageModel,
};

verus! {

/// The probe that opens a connection: a `Ping` with sequence number 0 and no payload.
pub open spec fn handshake_ping() -> MessageModel {
    MessageModel::Ping { seq: 0, payload: Seq::empty() }
}

/// Whether a datagram holds a `Pong` (of any sequence number).
pub open spec fn is_pong(bytes: Seq<u8>) -> bool {
    decoding(bytes) matches Some(MessageModel::Pong { .. })
}

/// Whether a datagram holds a `Pong` with sequence number `seq`.
pub open spec fn answers_probe(seq: u64, bytes: Seq<u8>) -> bool {
    decoding(bytes) matches Some(MessageModel::Pong { seq: s, .. }) && s == seq
}

/// The IP packet that a datagram from the server carries, if it carries one.
pub open spec fn tunnelled_packet(bytes: Seq<u8>) -> Option<Seq<u8>> {
    match decoding(bytes) {
        Some(MessageModel::IpPacket { payload }) => Some(payload),
        _ => None,
    }
}

/// `n` zero bytes.
pub open spec fn zeros(n: nat) -> Seq<u8> {
    Seq::new(n, |i: int| 0u8)
}

/// The datagram that opens a connection.
pub fn handshake_request() -> (bytes: Vec<u8>)
    ensures
        bytes@ == encoding(handshake_ping()),
{
    let msg = Message::Ping { seq: 0, payload: Vec::new() };
    encode(&msg)
}

/// Whether the server's answer to the handshake is a `Pong`; the console
/// client connects only then.
pub fn handshake_accepted(reply: &[u8]) -> (ok: bool)
    ensures
        ok == is_pong(reply@),
        ok ==> (decoding(reply@) matches Some(MessageModel::Pong { .. })),
{
    match decode(reply) {
        Ok(Message::Pong { .. }) => true,
        _ => false,
    }
}

/// Whether the server's answer to the handshake is any message at all; the
/// windowed client connects then.
pub fn handshake_reply_readable(reply: &[u8]) -> (ok: bool)
    ensures
        ok == decoding(reply@) is Some,
{
    decode(reply).is_ok()
}

/// The datagram that carries an IP packet read from the local tunnel adapter
/// to the server.
pub fn outbound_packet(packet: &[u8]) -> (bytes: Vec<u8>)
    requires
        packet@.len() <= isize::MAX - 12,
    ensures
        bytes@ == encoding(MessageModel::IpPacket { payload: packet@ }),
{
    let msg = Message::IpPacket { payload: vstd::slice::slice_to_vec(packet) };
    encode(&msg)
}

/// The IP packet to write to the local tunnel adapter for a datagram from the
/// server: the payload of an `IpPacket`; any other datagram (a stray `Pong`,
/// a malformed one) yields nothing.
pub fn inbound_packet(datagram: &[u8]) -> (packet: Option<Vec<u8>>)
    ensures
        match tunnelled_packet(datagram@) {
            Some(p) => packet matches Some(v) && v@ == p,
            None => packet is None,
        },
{
    match decode(datagram) {
        Ok(Message::IpPacket { payload }) => Some(payload),
        _ => None,
    }
}

/// The probe with sequence number `seq` and `payload_len` zero bytes of
/// payload that the benchmark sends.
pub fn probe(seq: u64, payload_len: usize) -> (bytes: Vec<u8>)
    requires
        payload_len <= isize::MAX - 20,
    ensures
        bytes@ == encoding(MessageModel::Ping { seq, payload: zeros(payload_len as nat) }),
{
    let mut payload: Vec<u8> = Vec::new();
    let mut i: usize = 0;
    while i < payload_len
        invariant
            i <= payload_len,
            payload@ == zeros(i as nat),
        decreases payload_len - i,
    {
        payload.push(0u8);
        i = i + 1;
    }
    let msg = Message::Ping { seq, payload };
    encode(&msg)
}

/// Whether a reply answers the probe with sequence number `seq`: a `Pong` with
/// that number counts; any other reply counts the probe as lost.
pub fn probe_answered(seq: u64, reply: &[u8]) -> (ok: bool)
    ensures
        ok == answers_probe(seq, reply@),
        ok ==> (decoding(reply@) matches Some(MessageModel::Pong { seq: s, .. }) && s == seq),
{
    match decode(reply) {
        Ok(Message::Pong { seq: s, .. }) => s == seq,
        _ => false,
    }
}

/// The handshake is accepted exactly when the reply is a `Pong`: whatever
/// message the server's datagram carries (and whatever follows it), a `Ping`
/// or an `IpPacket` is refused.
pub proof fn law_handshake_accepts_only_pongs(m: MessageModel, rest: Seq<u8>)
    requires
        encodable(m),
    ensures
        is_pong(encoding(m) + rest) <==> (m matches MessageModel::Pong { .. }),
{
    lemma_decode_encode(m, rest);
}

/// A benchmark probe is answered exactly by a `Pong` with the probe's own
/// sequence number: a `Pong` for another probe, a `Ping` or an `IpPacket`
/// counts the probe as lost.
pub proof fn law_probe_answered_only_by_its_pong(seq: u64, m: MessageModel, rest: Seq<u8>)
    requires
        encodable(m),
    ensures
        answers_probe(seq, encoding(m) + rest) <==> (m matches MessageModel::Pong { seq: s, .. }
            && s == seq),
{
    lemma_decode_encode(m, rest);
}

/// The client writes to its adapter exactly the payloads of `IpPacket`s, and
/// nothing for any other message.
pub proof fn law_only_ip_packets_reach_the_adapter(m: MessageModel, rest: Seq<u8>)
    requires
        encodable(m),
    ensures
        tunnelled_packet(encoding(m) + rest) == match m {
            MessageModel::IpPacket { payload } => Some(payload),
            _ => None,
        },
{
    lemma_decode_encode(m, rest);
}

/// A datagram that holds no message completes no handshake, answers no
/// probe and carries no packet.
pub proof fn law_unreadable_reply_is_rejected(bytes: Seq<u8>, seq: u64)
    requires
        decoding(bytes) is None,
    ensures
        !is_pong(bytes),
        !answers_probe(seq, bytes),
        tunnelled_packet(bytes) is None,
{
}

} // verus!
