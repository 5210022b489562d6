use xvpn::client::{
    handshake_accepted, handshake_reply_readable, handshake_request, inbound_packet,
    outbound_packet, probe, probe_answered,
};
use xvpn::message::{decode, encode, DecodeError, Message};
use xvpn::server::{Relay, RelayAction};

fn ping(seq: u64, payload: &[u8]) -> Message {
    Message::Ping { seq, payload: payload.to_vec() }
}

fn pong(seq: u64, payload: &[u8]) -> Message {
    Message::Pong { seq, payload: payload.to_vec() }
}

fn ip(payload: &[u8]) -> Message {
    Message::IpPacket { payload: payload.to_vec() }
}

#[test]
fn ping_encoding_is_bincode_layout() {
    let bytes = encode(&ping(0x0102, &[9, 8]));
    assert_eq!(
        bytes,
        vec![0, 0, 0, 0, 0x02, 0x01, 0, 0, 0, 0, 0, 0, 2, 0, 0, 0, 0, 0, 0, 0, 9, 8]
    );
}

#[test]
fn pong_encoding_has_variant_index_one() {
    let bytes = encode(&pong(7, &[]));
    assert_eq!(bytes, vec![1, 0, 0, 0, 7, 0, 0, 0, 0, 0, 0, 0, 0, 0, 0, 0, 0, 0, 0, 0]);
}

#[test]
fn ip_packet_encoding_has_no_sequence_number() {
    let bytes = encode(&ip(&[0x45, 0, 0x14]));
    assert_eq!(bytes, vec![2, 0, 0, 0, 3, 0, 0, 0, 0, 0, 0, 0, 0x45, 0, 0x14]);
}

#[test]
fn encoding_matches_bincode_of_the_same_fields() {
    let payload = vec![1u8, 2, 3, 4, 5];
    let direct = bincode::serialize(&(0u32, 42u64, payload.clone())).unwrap();
    assert_eq!(encode(&ping(42, &payload)), direct);
    let direct_ip = bincode::serialize(&(2u32, payload.clone())).unwrap();
    assert_eq!(encode(&ip(&payload)), direct_ip);
}

#[test]
fn decode_reads_back_every_variant() {
    for m in [ping(u64::MAX, &[1, 2, 3]), pong(0, &[]), ip(&[0xff; 300])] {
        assert_eq!(decode(&encode(&m)), Ok(m.clone()));
    }
}

#[test]
fn decode_ignores_trailing_bytes() {
    let mut bytes = encode(&pong(5, &[7]));
    bytes.extend_from_slice(&[1, 2, 3]);
    assert_eq!(decode(&bytes), Ok(pong(5, &[7])));
}

#[test]
fn decode_rejects_short_datagrams() {
    assert_eq!(decode(&[]), Err(DecodeError::Malformed));
    assert_eq!(decode(&[0, 0, 0]), Err(DecodeError::Malformed));
    assert_eq!(decode(&[0, 0, 0, 0, 1, 0, 0]), Err(DecodeError::Malformed));
    let full = encode(&ping(3, &[1, 2, 3]));
    assert_eq!(decode(&full[..full.len() - 1]), Err(DecodeError::Malformed));
}

#[test]
fn decode_rejects_unknown_variant() {
    let mut bytes = encode(&ip(&[1]));
    bytes[0] = 3;
    assert_eq!(decode(&bytes), Err(DecodeError::Malformed));
}

#[test]
fn decode_rejects_oversized_length_field() {
    let bytes = vec![2, 0, 0, 0, 0xff, 0xff, 0xff, 0xff, 0xff, 0xff, 0xff, 0xff, 1];
    assert_eq!(decode(&bytes), Err(DecodeError::Malformed));
}

#[test]
fn server_echoes_ping_to_sender() {
    let mut relay: Relay<u32> = Relay::new();
    let action = relay.on_datagram(17, &encode(&ping(9, &[4, 5])));
    match action {
        RelayAction::Reply { to, datagram } => {
            assert_eq!(to, 17);
            assert_eq!(decode(&datagram), Ok(pong(9, &[4, 5])));
        }
        other => panic!("unexpected {:?}", other),
    }
    assert_eq!(relay.client(), Some(17));
}

#[test]
fn server_writes_ip_packets_to_tun() {
    let mut relay: Relay<u32> = Relay::new();
    match relay.on_datagram(3, &outbound_packet(&[0x45, 1, 2])) {
        RelayAction::WriteTun { packet } => assert_eq!(packet, vec![0x45, 1, 2]),
        other => panic!("unexpected {:?}", other),
    }
}

#[test]
fn server_ignores_pongs_and_garbage_but_remembers_sender() {
    let mut relay: Relay<u32> = Relay::new();
    assert!(matches!(relay.on_datagram(1, &encode(&pong(1, &[]))), RelayAction::Ignore));
    assert_eq!(relay.client(), Some(1));
    assert!(matches!(relay.on_datagram(2, &[1, 2, 3]), RelayAction::Ignore));
    assert_eq!(relay.client(), Some(2));
}

#[test]
fn server_forwards_tun_packets_to_last_client() {
    let mut relay: Relay<u32> = Relay::new();
    assert_eq!(relay.on_tun_packet(&[1, 2]), None);
    relay.on_datagram(5, &handshake_request());
    relay.on_datagram(6, &handshake_request());
    let (to, bytes) = relay.on_tun_packet(&[1, 2]).unwrap();
    assert_eq!(to, 6);
    assert_eq!(inbound_packet(&bytes), Some(vec![1, 2]));
    assert_eq!(relay.on_tun_packet(&[]), None);
}

#[test]
fn handshake_completes_against_relay() {
    let mut relay: Relay<u32> = Relay::new();
    let reply = match relay.on_datagram(1, &handshake_request()) {
        RelayAction::Reply { datagram, .. } => datagram,
        other => panic!("unexpected {:?}", other),
    };
    assert!(handshake_accepted(&reply));
    assert!(handshake_reply_readable(&reply));
}

#[test]
fn handshake_request_is_empty_ping_zero() {
    assert_eq!(decode(&handshake_request()), Ok(ping(0, &[])));
}

#[test]
fn handshake_rejects_non_pong() {
    assert!(!handshake_accepted(&encode(&ping(0, &[]))));
    assert!(!handshake_accepted(&[0xde, 0xad]));
    assert!(handshake_reply_readable(&encode(&ip(&[]))));
    assert!(!handshake_reply_readable(&[0xde, 0xad]));
}

#[test]
fn inbound_keeps_only_ip_packets() {
    assert_eq!(inbound_packet(&encode(&ip(&[9, 9]))), Some(vec![9, 9]));
    assert_eq!(inbound_packet(&encode(&pong(1, &[9]))), None);
    assert_eq!(inbound_packet(&[2, 0, 0]), None);
}

#[test]
fn probe_has_zero_payload() {
    assert_eq!(decode(&probe(12, 4)), Ok(ping(12, &[0, 0, 0, 0])));
    assert_eq!(probe(12, 64).len(), 20 + 64);
}

#[test]
fn probe_answer_matches_only_its_sequence_number() {
    let mut relay: Relay<u32> = Relay::new();
    let reply = match relay.on_datagram(1, &probe(77, 8)) {
        RelayAction::Reply { datagram, .. } => datagram,
        other => panic!("unexpected {:?}", other),
    };
    assert!(probe_answered(77, &reply));
    assert!(!probe_answered(78, &reply));
    assert!(!probe_answered(77, &probe(77, 8)));
}

#[test]
fn different_messages_encode_differently() {
    let msgs = [ping(1, &[]), pong(1, &[]), ping(2, &[]), ping(1, &[0]), ip(&[]), ip(&[0])];
    for (i, a) in msgs.iter().enumerate() {
        for (j, b) in msgs.iter().enumerate() {
            assert_eq!(encode(a) == encode(b), i == j);
        }
    }
}
