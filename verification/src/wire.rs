//! The byte-level layer of the tunnel protocol: fixed-width little-endian
//! integers and length-prefixed byte strings, as bincode 1.x writes them with
//! its default (fixed-int, little-endian) options, and the calls into bincode
//! that produce and read those frames.
use vstd::prelude::*;

verus! {

/// `256^n`.
pub open spec fn pow256(n: nat) -> nat
    decreases n,
{
    if n == 0 {
        1
    } else {
        256 * pow256((n - 1) as nat)
    }
}

/// The `n` low-order bytes of `v`, least significant first.
pub open spec fn le_bytes(v: nat, n: nat) -> Seq<u8>
    decreases n,
{
    if n == 0 {
        Seq::empty()
    } else {
        seq![(v % 256) as u8] + le_bytes(v / 256, (n - 1) as nat)
    }
}

/// The number that the bytes `s` denote, read least significant first.
pub open spec fn le_value(s: Seq<u8>) -> nat
    decreases s.len(),
{
    if s.len() == 0 {
        0
    } else {
        s[0] as nat + 256 * le_value(s.drop_first())
    }
}

/// A frame that carries a variant tag, a sequence number and a byte string:
/// the tag in 4 bytes, the number in 8, the string's length in 8, the string.
pub open spec fn seq_frame(tag: u32, seq: u64, payload: Seq<u8>) -> Seq<u8> {
    le_bytes(tag as nat, 4) + le_bytes(seq as nat, 8) + le_bytes(payload.len(), 8) + payload
}

/// A frame that carries a variant tag and a byte string: the tag in 4 bytes,
/// the string's length in 8, the string.
pub open spec fn bare_frame(tag: u32, payload: Seq<u8>) -> Seq<u8> {
    le_bytes(tag as nat, 4) + le_bytes(payload.len(), 8) + payload
}

/// Whether `bytes` begins with a whole `seq_frame`: 20 header bytes and as
/// many payload bytes as the length field (bytes 12..20) announces.
pub open spec fn holds_seq_frame(bytes: Seq<u8>) -> bool {
    &&& bytes.len() >= 20
    &&& le_value(bytes.subrange(12, 20)) <= bytes.len() - 20
}

/// Whether `bytes` begins with a whole `bare_frame`: 12 header bytes and as
/// many payload bytes as the length field (bytes 4..12) announces.
pub open spec fn holds_bare_frame(bytes: Seq<u8>) -> bool {
    &&& bytes.len() >= 12
    &&& le_value(bytes.subrange(4, 12)) <= bytes.len() - 12
}

pub open spec fn frame_tag(bytes: Seq<u8>) -> nat {
    le_value(bytes.subrange(0, 4))
}

pub open spec fn seq_frame_seq(bytes: Seq<u8>) -> nat {
    le_value(bytes.subrange(4, 12))
}

pub open spec fn seq_frame_payload(bytes: Seq<u8>) -> Seq<u8> {
    bytes.subrange(20, 20 + le_value(bytes.subrange(12, 20)) as int)
}

pub open spec fn bare_frame_payload(bytes: Seq<u8>) -> Seq<u8> {
    bytes.subrange(12, 12 + le_value(bytes.subrange(4, 12)) as int)
}

pub proof fn lemma_le_bytes_len(v: nat, n: nat)
    ensures
        le_bytes(v, n).len() == n,
    decreases n,
{
    if n > 0 {
        lemma_le_bytes_len(v / 256, (n - 1) as nat);
    }
}

/// Reading back `n` bytes written from a number below `256^n` gives that number.
pub proof fn lemma_le_roundtrip(v: nat, n: nat)
    requires
        v < pow256(n),
    ensures
        le_value(le_bytes(v, n)) == v,
    decreases n,
{
    if n > 0 {
        let p = pow256((n - 1) as nat);
        assert(v / 256 < p) by (nonlinear_arith)
            requires
                v < 256 * p,
        ;
        lemma_le_roundtrip(v / 256, (n - 1) as nat);
        let s = le_bytes(v, n);
        assert(s.drop_first() =~= le_bytes(v / 256, (n - 1) as nat));
        assert(v == (v % 256) + 256 * (v / 256)) by (nonlinear_arith);
    }
}

/// The bytes `s` denote a number below `256^|s|`.
pub proof fn lemma_le_value_bound(s: Seq<u8>)
    ensures
        le_value(s) < pow256(s.len()),
    decreases s.len(),
{
    if s.len() > 0 {
        lemma_le_value_bound(s.drop_first());
        let r = le_value(s.drop_first());
        let p = pow256((s.len() - 1) as nat);
        let b = s[0] as nat;
        assert(b + 256 * r < 256 * p) by (nonlinear_arith)
            requires
                b < 256,
                r < p,
        ;
    }
}

/// Writing back the number that `s` denotes, in as many bytes, gives `s`.
pub proof fn lemma_le_bytes_of_value(s: Seq<u8>)
    ensures
        le_bytes(le_value(s), s.len()) == s,
    decreases s.len(),
{
    if s.len() > 0 {
        let r = le_value(s.drop_first());
        let b = s[0] as nat;
        let v = le_value(s);
        assert(v % 256 == b && v / 256 == r) by (nonlinear_arith)
            requires
                v == b + 256 * r,
                b < 256,
        ;
        lemma_le_bytes_of_value(s.drop_first());
        assert(le_bytes(v, s.len()) =~= s);
    }
}

pub proof fn lemma_pow256_facts()
    ensures
        pow256(4) == 0x1_0000_0000,
        pow256(8) == 0x1_0000_0000_0000_0000,
{
    reveal_with_fuel(pow256, 9);
}

/// The tag, number and payload of a `seq_frame` read back as they were written,
/// whatever follows the frame.
pub proof fn lemma_seq_frame_fields(tag: u32, seq: u64, payload: Seq<u8>, rest: Seq<u8>)
    requires
        payload.len() < 0x1_0000_0000_0000_0000,
    ensures
        ({
            let b = seq_frame(tag, seq, payload) + rest;
            &&& holds_seq_frame(b)
            &&& frame_tag(b) == tag
            &&& seq_frame_seq(b) == seq
            &&& seq_frame_payload(b) == payload
        }),
{
    lemma_pow256_facts();
    lemma_le_bytes_len(tag as nat, 4);
    lemma_le_bytes_len(seq as nat, 8);
    lemma_le_bytes_len(payload.len(), 8);
    lemma_le_roundtrip(tag as nat, 4);
    lemma_le_roundtrip(seq as nat, 8);
    lemma_le_roundtrip(payload.len(), 8);
    let b = seq_frame(tag, seq, payload) + rest;
    assert(b.subrange(0, 4) =~= le_bytes(tag as nat, 4));
    assert(b.subrange(4, 12) =~= le_bytes(seq as nat, 8));
    assert(b.subrange(12, 20) =~= le_bytes(payload.len(), 8));
}

/// The tag and payload of a `bare_frame` read back as they were written,
/// whatever follows the frame.
pub proof fn lemma_bare_frame_fields(tag: u32, payload: Seq<u8>, rest: Seq<u8>)
    requires
        payload.len() < 0x1_0000_0000_0000_0000,
    ensures
        ({
            let b = bare_frame(tag, payload) + rest;
            &&& holds_bare_frame(b)
            &&& frame_tag(b) == tag
            &&& bare_frame_payload(b) == payload
        }),
{
    lemma_pow256_facts();
    lemma_le_bytes_len(tag as nat, 4);
    lemma_le_bytes_len(payload.len(), 8);
    lemma_le_roundtrip(tag as nat, 4);
    lemma_le_roundtrip(payload.len(), 8);
    let b = bare_frame(tag, payload) + rest;
    assert(b.subrange(0, 4) =~= le_bytes(tag as nat, 4));
    assert(b.subrange(4, 12) =~= le_bytes(payload.len(), 8));
}

/// bincode's error type, carried through opaquely.
#[verifier::external_type_specification]
#[verifier::external_body]
pub struct ExBincodeErrorKind(bincode::ErrorKind);

/// Calls `bincode::serialize` on the tuple `(tag, seq, payload)`.
///
/// Claimed of bincode 1.3.3: `serialize` uses fixed-width little-endian
/// integers and no size limit, writes a tuple as its fields one after the
/// other, a `u32` in 4 bytes, a `u64` in 8, and a byte slice as its length (a
/// `u64`) followed by its bytes; it does not fail on such a value. It
/// reserves the whole output first, which panics past `isize::MAX` bytes,
/// hence the bound on the payload.
#[verifier::external_body]
pub(crate) fn bincode_serialize_seq_frame(tag: u32, seq: u64, payload: &[u8]) -> (r: Result<
    Vec<u8>,
    Box<bincode::ErrorKind>,
>)
    requires
        payload@.len() <= isize::MAX - 20,
    ensures
        r is Ok,
        r matches Ok(bytes) ==> bytes@ == seq_frame(tag, seq, payload@),
{
    bincode::serialize(&(tag, seq, payload))
}

/// Calls `bincode::serialize` on the tuple `(tag, payload)`.
///
/// Claimed of bincode 1.3.3, as for `bincode_serialize_seq_frame`: the tag in
/// 4 little-endian bytes, then the slice's length in 8, then its bytes; no
/// failure; the output is reserved first, hence the bound on the payload.
#[verifier::external_body]
pub(crate) fn bincode_serialize_bare_frame(tag: u32, payload: &[u8]) -> (r: Result<
    Vec<u8>,
    Box<bincode::ErrorKind>,
>)
    requires
        payload@.len() <= isize::MAX - 12,
    ensures
        r is Ok,
        r matches Ok(bytes) ==> bytes@ == bare_frame(tag, payload@),
{
    bincode::serialize(&(tag, payload))
}

/// Calls `bincode::deserialize::<(u32, u64, Vec<u8>)>`.
///
/// Claimed of bincode 1.3.3: `deserialize` reads fixed-width little-endian
/// integers from the front of the slice, a `Vec<u8>` as a `u64` length and then
/// that many bytes, allows bytes to remain after the value, and fails exactly
/// when the slice ends before the value does.
#[verifier::external_body]
pub(crate) fn bincode_deserialize_seq_frame(bytes: &[u8]) -> (r: Result<
    (u32, u64, Vec<u8>),
    Box<bincode::ErrorKind>,
>)
    ensures
        r is Ok <==> holds_seq_frame(bytes@),
        r matches Ok((tag, seq, payload)) ==> {
            &&& tag as nat == frame_tag(bytes@)
            &&& seq as nat == seq_frame_seq(bytes@)
            &&& payload@ == seq_frame_payload(bytes@)
        },
{
    bincode::deserialize::<(u32, u64, Vec<u8>)>(bytes)
}

/// Calls `bincode::deserialize::<(u32, Vec<u8>)>`.
///
/// Claimed of bincode 1.3.3, as for `bincode_deserialize_seq_frame`: a 4-byte
/// tag, an 8-byte length, that many bytes, trailing bytes allowed; failure
/// exactly when the slice is too short.
#[verifier::external_body]
pub(crate) fn bincode_deserialize_bare_frame(bytes: &[u8]) -> (r: Result<
    (u32, Vec<u8>),
    Box<bincode::ErrorKind>,
>)
    ensures
        r is Ok <==> holds_bare_frame(bytes@),
        r matches Ok((tag, payload)) ==> {
            &&& tag as nat == frame_tag(bytes@)
            &&& payload@ == bare_frame_payload(bytes@)
        },
{
    bincode::deserialize::<(u32, Vec<u8>)>(bytes)
}

} // verus!
