//! The messages that the client and the server exchange over UDP, and their
//! encoding: each datagram holds one message, written by bincode as a 4-byte
//! variant index followed by the variant's fields.
use vstd::prelude::*;
use crate::wire::{
    bare_frame, bare_frame_payload, bincode_deserialize_bare_frame, bincode_deserialize_seq_frame,
    bincode_serialize_bare_frame, bincode_serialize_seq_frame, frame_tag, holds_bare_frame,
    holds_seq_frame, lemma_bare_frame_fields, lemma_le_bytes_of_value, lemma_le_value_bound,
    lemma_pow256_facts, lemma_seq_frame_fields, le_value, seq_frame, seq_frame_payload,
    seq_frame_seq,
};

verus! {

/// One datagram of the tunnel protocol.
#[derive(Debug, Clone, PartialEq, Eq)]
pub enum Message {
    /// A probe; the server answers it with a `Pong` that carries the same
    /// sequence number and payload.
    Ping { seq: u64, payload: Vec<u8> },
    /// The answer to a `Ping`.
    Pong { seq: u64, payload: Vec<u8> },
    /// One IP packet travelling through the tunnel.
    IpPacket { payload: Vec<u8> },
}

/// What a `Message` holds, with its payload as a sequence of bytes.
pub enum MessageModel {
    Ping { seq: u64, payload: Seq<u8> },
    Pong { seq: u64, payload: Seq<u8> },
    IpPacket { payload: Seq<u8> },
}

impl View for Message {
    type V = MessageModel;

    open spec fn view(&self) -> MessageModel {
        match self {
            Message::Ping { seq, payload } => MessageModel::Ping { seq: *seq, payload: payload@ },
            Message::Pong { seq, payload } => MessageModel::Pong { seq: *seq, payload: payload@ },
            Message::IpPacket { payload } => MessageModel::IpPacket { payload: payload@ },
        }
    }
}

/// Why a datagram could not be read as a message.
#[derive(Debug, Clone, Copy, PartialEq, Eq)]
pub enum DecodeError {
    /// The datagram is shorter than the message that it announces, or its
    /// variant index names no message.
    Malformed,
}

pub const TAG_PING: u32 = 0;

pub const TAG_PONG: u32 = 1;

pub const TAG_IP_PACKET: u32 = 2;

/// Whether the encoding of `m` fits in memory: a buffer holds at most
/// `isize::MAX` bytes.
pub open spec fn encodable(m: MessageModel) -> bool {
    match m {
        MessageModel::Ping { payload, .. } => payload.len() <= isize::MAX - 20,
        MessageModel::Pong { payload, .. } => payload.len() <= isize::MAX - 20,
        MessageModel::IpPacket { payload } => payload.len() <= isize::MAX - 12,
    }
}

/// The bytes of the datagram that carries `m`.
pub open spec fn encoding(m: MessageModel) -> Seq<u8> {
    match m {
        MessageModel::Ping { seq, payload } => seq_frame(TAG_PING, seq, payload),
        MessageModel::Pong { seq, payload } => seq_frame(TAG_PONG, seq, payload),
        MessageModel::IpPacket { payload } => bare_frame(TAG_IP_PACKET, payload),
    }
}

/// The message that a datagram carries, if it carries one: the variant index
/// in the first 4 bytes chooses the layout of the rest; bytes after the
/// message are ignored.
pub open spec fn decoding(bytes: Seq<u8>) -> Option<MessageModel> {
    if bytes.len() < 4 {
        None
    } else if frame_tag(bytes) == TAG_PING as nat || frame_tag(bytes) == TAG_PONG as nat {
        if holds_seq_frame(bytes) {
            let seq = seq_frame_seq(bytes) as u64;
            let payload = seq_frame_payload(bytes);
            if frame_tag(bytes) == TAG_PING as nat {
                Some(MessageModel::Ping { seq, payload })
            } else {
                Some(MessageModel::Pong { seq, payload })
            }
        } else {
            None
        }
    } else if frame_tag(bytes) == TAG_IP_PACKET as nat {
        if holds_bare_frame(bytes) {
            Some(MessageModel::IpPacket { payload: bare_frame_payload(bytes) })
        } else {
            None
        }
    } else {
        None
    }
}

/// Encodes a message into the bytes of one datagram.
pub fn encode(m: &Message) -> (bytes: Vec<u8>)
    requires
        encodable(m@),
    ensures
        bytes@ == encoding(m@),
{
    let r = match m {
        Message::Ping { seq, payload } => bincode_serialize_seq_frame(TAG_PING, *seq, payload.as_slice()),
        Message::Pong { seq, payload } => bincode_serialize_seq_frame(TAG_PONG, *seq, payload.as_slice()),
        Message::IpPacket { payload } => bincode_serialize_bare_frame(TAG_IP_PACKET, payload.as_slice()),
    };
    match r {
        Ok(bytes) => bytes,
        Err(_) => {
            // `bincode::serialize` does not fail on these values.
            proof {
                assert(false);
            }
            Vec::new()
        },
    }
}

/// Reads the message that a datagram carries; bytes after it are ignored.
pub fn decode(bytes: &[u8]) -> (r: Result<Message, DecodeError>)
    ensures
        r matches Ok(m) ==> decoding(bytes@) == Some(m@),
        r is Err <==> decoding(bytes@) is None,
        bytes@.len() <= isize::MAX ==> (r matches Ok(m) ==> encodable(m@)),
{
    match bincode_deserialize_seq_frame(bytes) {
        Ok((tag, seq, payload)) => {
            if tag == TAG_PING {
                return Ok(Message::Ping { seq, payload });
            } else if tag == TAG_PONG {
                return Ok(Message::Pong { seq, payload });
            }
        },
        Err(_) => {},
    }
    match bincode_deserialize_bare_frame(bytes) {
        Ok((tag, payload)) => {
            if tag == TAG_IP_PACKET {
                Ok(Message::IpPacket { payload })
            } else {
                Err(DecodeError::Malformed)
            }
        },
        Err(_) => Err(DecodeError::Malformed),
    }
}

/// Reading a datagram gives back the message that was encoded into it, also
/// when bytes follow the message.
pub proof fn lemma_decode_encode(m: MessageModel, rest: Seq<u8>)
    requires
        encodable(m),
    ensures
        decoding(encoding(m) + rest) == Some(m),
{
    match m {
        MessageModel::Ping { seq, payload } => {
            lemma_seq_frame_fields(TAG_PING, seq, payload, rest);
        },
        MessageModel::Pong { seq, payload } => {
            lemma_seq_frame_fields(TAG_PONG, seq, payload, rest);
        },
        MessageModel::IpPacket { payload } => {
            lemma_bare_frame_fields(TAG_IP_PACKET, payload, rest);
        },
    }
}

/// A datagram reads back as the message it was encoded from.
pub proof fn lemma_decode_encoding(m: MessageModel)
    requires
        encodable(m),
    ensures
        decoding(encoding(m)) == Some(m),
{
    lemma_decode_encode(m, Seq::empty());
}

/// Two messages with the same encoding are the same message.
pub proof fn lemma_encoding_injective(m1: MessageModel, m2: MessageModel)
    requires
        encodable(m1),
        encodable(m2),
        encoding(m1) == encoding(m2),
    ensures
        m1 == m2,
{
    lemma_decode_encoding(m1);
    lemma_decode_encoding(m2);
}

/// A datagram reads as a message only when it begins with that message's
/// encoding: whatever `decode` accepts is an encoded message followed by
/// bytes that it ignores.
pub proof fn law_decoding_sound(bytes: Seq<u8>, m: MessageModel)
    requires
        decoding(bytes) == Some(m),
    ensures
        encoding(m).len() <= bytes.len(),
        bytes == encoding(m) + bytes.subrange(encoding(m).len() as int, bytes.len() as int),
{
    lemma_pow256_facts();
    let tag_bytes = bytes.subrange(0, 4);
    lemma_le_bytes_of_value(tag_bytes);
    lemma_le_value_bound(tag_bytes);
    if frame_tag(bytes) == TAG_IP_PACKET as nat {
        let len_bytes = bytes.subrange(4, 12);
        lemma_le_bytes_of_value(len_bytes);
        let n = le_value(len_bytes);
        assert(bare_frame_payload(bytes).len() == n);
        assert(encoding(m) =~= bytes.subrange(0, 12 + n as int));
        assert(bytes =~= encoding(m) + bytes.subrange(encoding(m).len() as int, bytes.len() as int));
    } else {
        let seq_bytes = bytes.subrange(4, 12);
        let len_bytes = bytes.subrange(12, 20);
        lemma_le_bytes_of_value(seq_bytes);
        lemma_le_value_bound(seq_bytes);
        lemma_le_bytes_of_value(len_bytes);
        let n = le_value(len_bytes);
        assert(seq_frame_payload(bytes).len() == n);
        assert(encoding(m) =~= bytes.subrange(0, 20 + n as int));
        assert(bytes =~= encoding(m) + bytes.subrange(encoding(m).len() as int, bytes.len() as int));
    }
}

} // verus!
