//! The native frame wire format carried in SOME/IP payloads: a fixed header, the frame's metadata
//! as length-prefixed and optional fields, and the payload bytes.
use vstd::prelude::*;
use vstd::utf8::*;
use crate::status::{UCode, UStatus, code_value, code_of_value};
use crate::uuid::{UUID, is_uprotocol_uuid_bits};
use crate::uri::{valid_uri_text, parse_uri};

verus! {

broadcast use {encode_utf8_valid_utf8, encode_utf8_decode_utf8, decode_utf8_encode_utf8};

/// The version byte that follows the magic bytes.
pub const FRAME_PAYLOAD_VERSION: u8 = 1;

/// The four magic bytes that open every frame payload: "USIP".
pub open spec fn frame_magic() -> Seq<u8> {
    seq![0x55u8, 0x53u8, 0x49u8, 0x50u8]
}

/// The uProtocol message types.
#[derive(Clone, Copy, Debug, PartialEq, Eq, Structural)]
pub enum UMessageType {
    Publish,
    Notification,
    Request,
    Response,
}

/// The uProtocol priority classes.
#[derive(Clone, Copy, Debug, PartialEq, Eq, Structural)]
pub enum UPriority {
    CS0,
    CS1,
    CS2,
    CS3,
    CS4,
    CS5,
    CS6,
}

/// The byte that stands for a message type on the wire.
pub open spec fn message_type_byte(message_type: UMessageType) -> u8 {
    match message_type {
        UMessageType::Publish => 1,
        UMessageType::Notification => 2,
        UMessageType::Request => 3,
        UMessageType::Response => 4,
    }
}

/// The message type that a byte stands for, if any.
pub open spec fn message_type_of_byte(value: u8) -> Option<UMessageType> {
    if value == 1 {
        Some(UMessageType::Publish)
    } else if value == 2 {
        Some(UMessageType::Notification)
    } else if value == 3 {
        Some(UMessageType::Request)
    } else if value == 4 {
        Some(UMessageType::Response)
    } else {
        None
    }
}

/// The byte that stands for a priority on the wire.
pub open spec fn priority_byte(priority: UPriority) -> u8 {
    match priority {
        UPriority::CS0 => 0,
        UPriority::CS1 => 1,
        UPriority::CS2 => 2,
        UPriority::CS3 => 3,
        UPriority::CS4 => 4,
        UPriority::CS5 => 5,
        UPriority::CS6 => 6,
    }
}

/// The priority that a byte stands for, if any.
pub open spec fn priority_of_byte(value: u8) -> Option<UPriority> {
    if value == 0 {
        Some(UPriority::CS0)
    } else if value == 1 {
        Some(UPriority::CS1)
    } else if value == 2 {
        Some(UPriority::CS2)
    } else if value == 3 {
        Some(UPriority::CS3)
    } else if value == 4 {
        Some(UPriority::CS4)
    } else if value == 5 {
        Some(UPriority::CS5)
    } else if value == 6 {
        Some(UPriority::CS6)
    } else {
        None
    }
}

fn message_type_to_byte(message_type: UMessageType) -> (r: u8)
    ensures
        r == message_type_byte(message_type),
{
    match message_type {
        UMessageType::Publish => 1,
        UMessageType::Notification => 2,
        UMessageType::Request => 3,
        UMessageType::Response => 4,
    }
}

fn byte_to_message_type(value: u8) -> (r: Result<UMessageType, UStatus>)
    ensures
        match r {
            Ok(t) => message_type_of_byte(value) == Some(t),
            Err(e) => message_type_of_byte(value) is None && e.code == UCode::INVALID_ARGUMENT,
        },
{
    match value {
        1 => Ok(UMessageType::Publish),
        2 => Ok(UMessageType::Notification),
        3 => Ok(UMessageType::Request),
        4 => Ok(UMessageType::Response),
        _ => Err(UStatus::fail_with_code(UCode::INVALID_ARGUMENT, "invalid message type")),
    }
}

fn priority_to_byte(priority: UPriority) -> (r: u8)
    ensures
        r == priority_byte(priority),
{
    match priority {
        UPriority::CS0 => 0,
        UPriority::CS1 => 1,
        UPriority::CS2 => 2,
        UPriority::CS3 => 3,
        UPriority::CS4 => 4,
        UPriority::CS5 => 5,
        UPriority::CS6 => 6,
    }
}

fn byte_to_priority(value: u8) -> (r: Result<UPriority, UStatus>)
    ensures
        match r {
            Ok(p) => priority_of_byte(value) == Some(p),
            Err(e) => priority_of_byte(value) is None && e.code == UCode::INVALID_ARGUMENT,
        },
{
    match value {
        0 => Ok(UPriority::CS0),
        1 => Ok(UPriority::CS1),
        2 => Ok(UPriority::CS2),
        3 => Ok(UPriority::CS3),
        4 => Ok(UPriority::CS4),
        5 => Ok(UPriority::CS5),
        6 => Ok(UPriority::CS6),
        _ => Err(UStatus::fail_with_code(UCode::INVALID_ARGUMENT, "invalid priority")),
    }
}

/// The four little-endian bytes of a `u32`.
pub open spec fn u32_le(v: u32) -> Seq<u8> {
    seq![(v & 0xff) as u8, ((v >> 8u32) & 0xff) as u8, ((v >> 16u32) & 0xff) as u8, ((v >> 24u32) & 0xff) as u8]
}

/// The eight little-endian bytes of a `u64`.
pub open spec fn u64_le(v: u64) -> Seq<u8> {
    seq![(v & 0xff) as u8, ((v >> 8u64) & 0xff) as u8, ((v >> 16u64) & 0xff) as u8, ((v >> 24u64) & 0xff) as u8,
        ((v >> 32u64) & 0xff) as u8, ((v >> 40u64) & 0xff) as u8, ((v >> 48u64) & 0xff) as u8, ((v >> 56u64) & 0xff) as u8]
}

/// The `u32` whose little-endian bytes are the given four.
pub open spec fn u32_from_le(b0: u8, b1: u8, b2: u8, b3: u8) -> u32 {
    (b0 as u32) | ((b1 as u32) << 8u32) | ((b2 as u32) << 16u32) | ((b3 as u32) << 24u32)
}

/// The `u64` whose little-endian bytes are the given eight.
pub open spec fn u64_from_le(b0: u8, b1: u8, b2: u8, b3: u8, b4: u8, b5: u8, b6: u8, b7: u8) -> u64 {
    (b0 as u64) | ((b1 as u64) << 8u64) | ((b2 as u64) << 16u64) | ((b3 as u64) << 24u64)
        | ((b4 as u64) << 32u64) | ((b5 as u64) << 40u64) | ((b6 as u64) << 48u64) | ((b7 as u64) << 56u64)
}

proof fn lemma_u32_le_round_trip(v: u32)
    ensures
        u32_from_le(u32_le(v)[0], u32_le(v)[1], u32_le(v)[2], u32_le(v)[3]) == v,
{
    let b0 = (v & 0xff) as u8;
    let b1 = ((v >> 8u32) & 0xff) as u8;
    let b2 = ((v >> 16u32) & 0xff) as u8;
    let b3 = ((v >> 24u32) & 0xff) as u8;
    assert(b0 == (v & 0xff) as u8 && b1 == ((v >> 8u32) & 0xff) as u8 && b2 == ((v >> 16u32) & 0xff) as u8
        && b3 == ((v >> 24u32) & 0xff) as u8 ==>
        ((b0 as u32) | ((b1 as u32) << 8u32) | ((b2 as u32) << 16u32) | ((b3 as u32) << 24u32)) == v) by (bit_vector);
}

proof fn lemma_u32_from_le_round_trip(b0: u8, b1: u8, b2: u8, b3: u8)
    ensures
        u32_le(u32_from_le(b0, b1, b2, b3)) == seq![b0, b1, b2, b3],
{
    let v = u32_from_le(b0, b1, b2, b3);
    assert(v == ((b0 as u32) | ((b1 as u32) << 8u32) | ((b2 as u32) << 16u32) | ((b3 as u32) << 24u32)) ==>
        (v & 0xff) as u8 == b0 && ((v >> 8u32) & 0xff) as u8 == b1 && ((v >> 16u32) & 0xff) as u8 == b2
        && ((v >> 24u32) & 0xff) as u8 == b3) by (bit_vector);
    assert(u32_le(v) =~= seq![b0, b1, b2, b3]);
}

proof fn lemma_u64_le_round_trip(v: u64)
    ensures
        u64_from_le(u64_le(v)[0], u64_le(v)[1], u64_le(v)[2], u64_le(v)[3], u64_le(v)[4], u64_le(v)[5],
            u64_le(v)[6], u64_le(v)[7]) == v,
{
    let b0 = (v & 0xff) as u8;
    let b1 = ((v >> 8u64) & 0xff) as u8;
    let b2 = ((v >> 16u64) & 0xff) as u8;
    let b3 = ((v >> 24u64) & 0xff) as u8;
    let b4 = ((v >> 32u64) & 0xff) as u8;
    let b5 = ((v >> 40u64) & 0xff) as u8;
    let b6 = ((v >> 48u64) & 0xff) as u8;
    let b7 = ((v >> 56u64) & 0xff) as u8;
    assert(b0 == (v & 0xff) as u8 && b1 == ((v >> 8u64) & 0xff) as u8 && b2 == ((v >> 16u64) & 0xff) as u8
        && b3 == ((v >> 24u64) & 0xff) as u8 && b4 == ((v >> 32u64) & 0xff) as u8 && b5 == ((v >> 40u64)
        & 0xff) as u8 && b6 == ((v >> 48u64) & 0xff) as u8 && b7 == ((v >> 56u64) & 0xff) as u8 ==>
        ((b0 as u64) | ((b1 as u64) << 8u64) | ((b2 as u64) << 16u64) | ((b3 as u64) << 24u64)
        | ((b4 as u64) << 32u64) | ((b5 as u64) << 40u64) | ((b6 as u64) << 48u64) | ((b7 as u64) << 56u64))
        == v) by (bit_vector);
}

proof fn lemma_u64_from_le_round_trip(b0: u8, b1: u8, b2: u8, b3: u8, b4: u8, b5: u8, b6: u8, b7: u8)
    ensures
        u64_le(u64_from_le(b0, b1, b2, b3, b4, b5, b6, b7)) == seq![b0, b1, b2, b3, b4, b5, b6, b7],
{
    let v = u64_from_le(b0, b1, b2, b3, b4, b5, b6, b7);
    assert(v == ((b0 as u64) | ((b1 as u64) << 8u64) | ((b2 as u64) << 16u64) | ((b3 as u64) << 24u64)
        | ((b4 as u64) << 32u64) | ((b5 as u64) << 40u64) | ((b6 as u64) << 48u64) | ((b7 as u64) << 56u64)) ==>
        (v & 0xff) as u8 == b0 && ((v >> 8u64) & 0xff) as u8 == b1 && ((v >> 16u64) & 0xff) as u8 == b2
        && ((v >> 24u64) & 0xff) as u8 == b3 && ((v >> 32u64) & 0xff) as u8 == b4 && ((v >> 40u64) & 0xff) as u8
        == b5 && ((v >> 48u64) & 0xff) as u8 == b6 && ((v >> 56u64) & 0xff) as u8 == b7) by (bit_vector);
    assert(u64_le(v) =~= seq![b0, b1, b2, b3, b4, b5, b6, b7]);
}

// Readers on the unread rest of a buffer: each gives the value read and what is left after it.

spec fn read_u8(s: Seq<u8>) -> Option<(u8, Seq<u8>)> {
    if s.len() >= 1 {
        Some((s[0], s.skip(1)))
    } else {
        None
    }
}

spec fn read_u32(s: Seq<u8>) -> Option<(u32, Seq<u8>)> {
    if s.len() >= 4 {
        Some((u32_from_le(s[0], s[1], s[2], s[3]), s.skip(4)))
    } else {
        None
    }
}

spec fn read_u64(s: Seq<u8>) -> Option<(u64, Seq<u8>)> {
    if s.len() >= 8 {
        Some((u64_from_le(s[0], s[1], s[2], s[3], s[4], s[5], s[6], s[7]), s.skip(8)))
    } else {
        None
    }
}

proof fn lemma_read_u8(v: u8, rest: Seq<u8>)
    ensures
        read_u8(seq![v] + rest) == Some((v, rest)),
{
    assert((seq![v] + rest).skip(1) =~= rest);
}

proof fn lemma_read_u8_sound(s: Seq<u8>)
    requires
        read_u8(s) is Some,
    ensures
        s == seq![read_u8(s).unwrap().0] + read_u8(s).unwrap().1,
{
    assert(s =~= seq![s[0]] + s.skip(1));
}

proof fn lemma_read_u32(v: u32, rest: Seq<u8>)
    ensures
        read_u32(u32_le(v) + rest) == Some((v, rest)),
{
    let s = u32_le(v) + rest;
    lemma_u32_le_round_trip(v);
    assert(s[0] == u32_le(v)[0] && s[1] == u32_le(v)[1] && s[2] == u32_le(v)[2] && s[3] == u32_le(v)[3]);
    assert(s.skip(4) =~= rest);
}

proof fn lemma_read_u32_sound(s: Seq<u8>)
    requires
        read_u32(s) is Some,
    ensures
        s == u32_le(read_u32(s).unwrap().0) + read_u32(s).unwrap().1,
{
    lemma_u32_from_le_round_trip(s[0], s[1], s[2], s[3]);
    assert(s =~= seq![s[0], s[1], s[2], s[3]] + s.skip(4));
}

proof fn lemma_read_u64(v: u64, rest: Seq<u8>)
    ensures
        read_u64(u64_le(v) + rest) == Some((v, rest)),
{
    let s = u64_le(v) + rest;
    lemma_u64_le_round_trip(v);
    assert(s[0] == u64_le(v)[0] && s[1] == u64_le(v)[1] && s[2] == u64_le(v)[2] && s[3] == u64_le(v)[3]);
    assert(s[4] == u64_le(v)[4] && s[5] == u64_le(v)[5] && s[6] == u64_le(v)[6] && s[7] == u64_le(v)[7]);
    assert(s.skip(8) =~= rest);
}

proof fn lemma_read_u64_sound(s: Seq<u8>)
    requires
        read_u64(s) is Some,
    ensures
        s == u64_le(read_u64(s).unwrap().0) + read_u64(s).unwrap().1,
{
    lemma_u64_from_le_round_trip(s[0], s[1], s[2], s[3], s[4], s[5], s[6], s[7]);
    assert(s =~= seq![s[0], s[1], s[2], s[3], s[4], s[5], s[6], s[7]] + s.skip(8));
}

/// Appends the little-endian bytes of a `u64`.
pub fn write_u64(dst: &mut Vec<u8>, value: u64)
    ensures
        final(dst)@ == old(dst)@ + u64_le(value),
{
    dst.push((value & 0xff) as u8);
    dst.push(((value >> 8u64) & 0xff) as u8);
    dst.push(((value >> 16u64) & 0xff) as u8);
    dst.push(((value >> 24u64) & 0xff) as u8);
    dst.push(((value >> 32u64) & 0xff) as u8);
    dst.push(((value >> 40u64) & 0xff) as u8);
    dst.push(((value >> 48u64) & 0xff) as u8);
    dst.push(((value >> 56u64) & 0xff) as u8);
    assert(dst@ =~= old(dst)@ + u64_le(value));
}

/// Appends the little-endian bytes of a `u32`.
pub fn write_u32(dst: &mut Vec<u8>, value: u32)
    ensures
        final(dst)@ == old(dst)@ + u32_le(value),
{
    dst.push((value & 0xff) as u8);
    dst.push(((value >> 8u32) & 0xff) as u8);
    dst.push(((value >> 16u32) & 0xff) as u8);
    dst.push(((value >> 24u32) & 0xff) as u8);
    assert(dst@ =~= old(dst)@ + u32_le(value));
}

/// Reads one byte at `pos`.
fn take_u8(src: &Vec<u8>, pos: usize) -> (r: Result<(u8, usize), UStatus>)
    requires
        pos <= src@.len(),
    ensures
        match (r, read_u8(src@.skip(pos as int))) {
            (Ok((v, p)), Some((w, rest))) => v == w && pos <= p <= src@.len() && rest == src@.skip(p as int),
            (Err(e), None) => e.code == UCode::INVALID_ARGUMENT,
            _ => false,
        },
{
    if pos < src.len() {
        assert(src@.skip(pos as int).skip(1) =~= src@.skip(pos + 1));
        Ok((src[pos], pos + 1))
    } else {
        Err(UStatus::fail_with_code(UCode::INVALID_ARGUMENT, "invalid frame payload"))
    }
}

/// Reads a little-endian `u32` at `pos`.
fn take_u32(src: &Vec<u8>, pos: usize) -> (r: Result<(u32, usize), UStatus>)
    requires
        pos <= src@.len(),
    ensures
        match (r, read_u32(src@.skip(pos as int))) {
            (Ok((v, p)), Some((w, rest))) => v == w && pos <= p <= src@.len() && rest == src@.skip(p as int),
            (Err(e), None) => e.code == UCode::INVALID_ARGUMENT,
            _ => false,
        },
{
    if src.len() - pos >= 4 {
        let b0 = src[pos];
        let b1 = src[pos + 1];
        let b2 = src[pos + 2];
        let b3 = src[pos + 3];
        let v = (b0 as u32) | ((b1 as u32) << 8u32) | ((b2 as u32) << 16u32) | ((b3 as u32) << 24u32);
        assert(src@.skip(pos as int).skip(4) =~= src@.skip(pos + 4));
        Ok((v, pos + 4))
    } else {
        Err(UStatus::fail_with_code(UCode::INVALID_ARGUMENT, "invalid frame payload"))
    }
}

/// Reads a little-endian `u64` at `pos`.
fn take_u64(src: &Vec<u8>, pos: usize) -> (r: Result<(u64, usize), UStatus>)
    requires
        pos <= src@.len(),
    ensures
        match (r, read_u64(src@.skip(pos as int))) {
            (Ok((v, p)), Some((w, rest))) => v == w && pos <= p <= src@.len() && rest == src@.skip(p as int),
            (Err(e), None) => e.code == UCode::INVALID_ARGUMENT,
            _ => false,
        },
{
    if src.len() - pos >= 8 {
        let b0 = src[pos];
        let b1 = src[pos + 1];
        let b2 = src[pos + 2];
        let b3 = src[pos + 3];
        let b4 = src[pos + 4];
        let b5 = src[pos + 5];
        let b6 = src[pos + 6];
        let b7 = src[pos + 7];
        let v = (b0 as u64) | ((b1 as u64) << 8u64) | ((b2 as u64) << 16u64) | ((b3 as u64) << 24u64)
            | ((b4 as u64) << 32u64) | ((b5 as u64) << 40u64) | ((b6 as u64) << 48u64) | ((b7 as u64) << 56u64);
        assert(src@.skip(pos as int).skip(8) =~= src@.skip(pos + 8));
        Ok((v, pos + 8))
    } else {
        Err(UStatus::fail_with_code(UCode::INVALID_ARGUMENT, "invalid frame payload"))
    }
}


/// A string on the wire: its UTF-8 length as a little-endian `u32`, then its UTF-8 bytes.
pub open spec fn string_field(text: Seq<char>) -> Seq<u8> {
    u32_le(encode_utf8(text).len() as u32) + encode_utf8(text)
}

/// Whether the UTF-8 length of a string fits the `u32` length prefix.
pub open spec fn fits_field(text: Seq<char>) -> bool {
    encode_utf8(text).len() <= u32::MAX
}

spec fn read_string(s: Seq<u8>) -> Option<(Seq<char>, Seq<u8>)> {
    match read_u32(s) {
        Some((n, r)) => if n <= r.len() && valid_utf8(r.take(n as int)) {
            Some((decode_utf8(r.take(n as int)), r.skip(n as int)))
        } else {
            None
        },
        None => None,
    }
}

proof fn lemma_read_string(text: Seq<char>, rest: Seq<u8>)
    requires
        fits_field(text),
    ensures
        read_string(string_field(text) + rest) == Some((text, rest)),
{
    let bytes = encode_utf8(text);
    let n = bytes.len() as u32;
    assert(string_field(text) + rest =~= u32_le(n) + (bytes + rest));
    lemma_read_u32(n, bytes + rest);
    assert((bytes + rest).take(n as int) =~= bytes);
    assert((bytes + rest).skip(n as int) =~= rest);
}

proof fn lemma_read_string_sound(s: Seq<u8>)
    requires
        read_string(s) is Some,
    ensures
        fits_field(read_string(s).unwrap().0),
        s == string_field(read_string(s).unwrap().0) + read_string(s).unwrap().1,
{
    lemma_read_u32_sound(s);
    let (n, r) = read_u32(s).unwrap();
    let bytes = r.take(n as int);
    assert(encode_utf8(decode_utf8(bytes)) == bytes);
    assert(r =~= bytes + r.skip(n as int));
    assert(s =~= string_field(decode_utf8(bytes)) + r.skip(n as int));
}

/// Calls `String::from_utf8`, which by its documentation succeeds exactly when the bytes are valid
/// UTF-8 and then holds those bytes as its contents.
#[verifier::external_body]
fn string_from_utf8(bytes: Vec<u8>) -> (r: Option<String>)
    ensures
        match r {
            Some(text) => valid_utf8(bytes@) && text@ == decode_utf8(bytes@),
            None => !valid_utf8(bytes@),
        },
{
    String::from_utf8(bytes).ok()
}

/// Appends the bytes of a slice.
fn append_bytes(dst: &mut Vec<u8>, src: &[u8])
    ensures
        final(dst)@ == old(dst)@ + src@,
{
    let mut i: usize = 0;
    while i < src.len()
        invariant
            i <= src@.len(),
            dst@ == old(dst)@ + src@.take(i as int),
        decreases src@.len() - i,
    {
        dst.push(src[i]);
        assert(src@.take(i + 1) =~= src@.take(i as int).push(src@[i as int]));
        i = i + 1;
    }
    assert(src@.take(i as int) =~= src@);
}

/// Copies the bytes from `start` to `end`.
fn copy_range(src: &Vec<u8>, start: usize, end: usize) -> (r: Vec<u8>)
    requires
        start <= end <= src@.len(),
    ensures
        r@ == src@.subrange(start as int, end as int),
{
    let mut out: Vec<u8> = Vec::new();
    let mut i: usize = start;
    while i < end
        invariant
            start <= i <= end <= src@.len(),
            out@ == src@.subrange(start as int, i as int),
        decreases end - i,
    {
        out.push(src[i]);
        assert(src@.subrange(start as int, i + 1) =~= src@.subrange(start as int, i as int).push(src@[i as int]));
        i = i + 1;
    }
    out
}

/// Appends a string as its UTF-8 length and bytes; fails when the length does not fit a `u32`.
fn append_string(dst: &mut Vec<u8>, value: &str) -> (r: Result<(), UStatus>)
    ensures
        match r {
            Ok(()) => fits_field(value@) && final(dst)@ == old(dst)@ + string_field(value@),
            Err(e) => !fits_field(value@) && final(dst)@ == old(dst)@ && e.code == UCode::INVALID_ARGUMENT,
        },
{
    let bytes = value.as_bytes();
    let len = bytes.len();
    if len > 0xFFFF_FFFFusize {
        return Err(UStatus::fail_with_code(UCode::INVALID_ARGUMENT, "frame metadata field is too large"));
    }
    write_u32(dst, len as u32);
    append_bytes(dst, bytes);
    assert(dst@ =~= old(dst)@ + string_field(value@));
    Ok(())
}

/// Reads a length-prefixed UTF-8 string at `pos`.
fn take_string(src: &Vec<u8>, pos: usize) -> (r: Result<(String, usize), UStatus>)
    requires
        pos <= src@.len(),
    ensures
        match (r, read_string(src@.skip(pos as int))) {
            (Ok((v, p)), Some((w, rest))) => v@ == w && pos <= p <= src@.len() && rest == src@.skip(p as int),
            (Err(e), None) => e.code == UCode::INVALID_ARGUMENT,
            _ => false,
        },
{
    let (len, p) = take_u32(src, pos)?;
    let len = len as usize;
    if len > src.len() - p {
        return Err(UStatus::fail_with_code(UCode::INVALID_ARGUMENT, "invalid frame payload"));
    }
    let bytes = copy_range(src, p, p + len);
    assert(src@.skip(p as int).take(len as int) =~= bytes@);
    assert(src@.skip(p as int).skip(len as int) =~= src@.skip(p + len));
    match string_from_utf8(bytes) {
        Some(text) => Ok((text, p + len)),
        None => Err(UStatus::fail_with_code(UCode::INVALID_ARGUMENT, "frame metadata field is not valid UTF-8")),
    }
}

/// An optional `u32`: a zero byte for none, or a one byte followed by the value.
pub open spec fn optional_u32_field(value: Option<u32>) -> Seq<u8> {
    match value {
        Some(v) => seq![1u8] + u32_le(v),
        None => seq![0u8],
    }
}

spec fn read_optional_u32(s: Seq<u8>) -> Option<(Option<u32>, Seq<u8>)> {
    match read_u8(s) {
        Some((m, r)) => if m == 0 {
            Some((None, r))
        } else if m == 1 {
            match read_u32(r) {
                Some((v, r2)) => Some((Some(v), r2)),
                None => None,
            }
        } else {
            None
        },
        None => None,
    }
}

proof fn lemma_read_optional_u32(value: Option<u32>, rest: Seq<u8>)
    ensures
        read_optional_u32(optional_u32_field(value) + rest) == Some((value, rest)),
{
    match value {
        Some(v) => {
            assert(optional_u32_field(value) + rest =~= seq![1u8] + (u32_le(v) + rest));
            lemma_read_u8(1u8, u32_le(v) + rest);
            lemma_read_u32(v, rest);
        },
        None => {
            lemma_read_u8(0u8, rest);
        },
    }
}

proof fn lemma_read_optional_u32_sound(s: Seq<u8>)
    requires
        read_optional_u32(s) is Some,
    ensures
        s == optional_u32_field(read_optional_u32(s).unwrap().0) + read_optional_u32(s).unwrap().1,
{
    lemma_read_u8_sound(s);
    let (m, r) = read_u8(s).unwrap();
    if m == 1 {
        lemma_read_u32_sound(r);
        assert(s =~= optional_u32_field(read_optional_u32(s).unwrap().0) + read_optional_u32(s).unwrap().1);
    }
}

/// Appends an optional `u32`.
pub fn write_optional_u32(dst: &mut Vec<u8>, value: Option<u32>)
    ensures
        final(dst)@ == old(dst)@ + optional_u32_field(value),
{
    match value {
        Some(v) => {
            dst.push(1);
            write_u32(dst, v);
            assert(dst@ =~= old(dst)@ + optional_u32_field(value));
        },
        None => {
            dst.push(0);
            assert(dst@ =~= old(dst)@ + optional_u32_field(value));
        },
    }
}

fn take_optional_u32(src: &Vec<u8>, pos: usize) -> (r: Result<(Option<u32>, usize), UStatus>)
    requires
        pos <= src@.len(),
    ensures
        match (r, read_optional_u32(src@.skip(pos as int))) {
            (Ok((v, p)), Some((w, rest))) => v == w && pos <= p <= src@.len() && rest == src@.skip(p as int),
            (Err(e), None) => e.code == UCode::INVALID_ARGUMENT,
            _ => false,
        },
{
    let (marker, p) = take_u8(src, pos)?;
    if marker == 0 {
        Ok((None, p))
    } else if marker == 1 {
        let (v, p2) = take_u32(src, p)?;
        Ok((Some(v), p2))
    } else {
        Err(UStatus::fail_with_code(UCode::INVALID_ARGUMENT, "invalid optional value"))
    }
}


/// A UUID on the wire: its upper then its lower half, each little-endian.
pub open spec fn uuid_field(id: UUID) -> Seq<u8> {
    u64_le(id.msb) + u64_le(id.lsb)
}

spec fn read_uuid(s: Seq<u8>) -> Option<(UUID, Seq<u8>)> {
    match read_u64(s) {
        Some((msb, r)) => match read_u64(r) {
            Some((lsb, r2)) => if is_uprotocol_uuid_bits(msb, lsb) {
                Some((UUID { msb, lsb }, r2))
            } else {
                None
            },
            None => None,
        },
        None => None,
    }
}

proof fn lemma_read_uuid(id: UUID, rest: Seq<u8>)
    requires
        is_uprotocol_uuid_bits(id.msb, id.lsb),
    ensures
        read_uuid(uuid_field(id) + rest) == Some((id, rest)),
{
    assert(uuid_field(id) + rest =~= u64_le(id.msb) + (u64_le(id.lsb) + rest));
    lemma_read_u64(id.msb, u64_le(id.lsb) + rest);
    lemma_read_u64(id.lsb, rest);
}

proof fn lemma_read_uuid_sound(s: Seq<u8>)
    requires
        read_uuid(s) is Some,
    ensures
        is_uprotocol_uuid_bits(read_uuid(s).unwrap().0.msb, read_uuid(s).unwrap().0.lsb),
        s == uuid_field(read_uuid(s).unwrap().0) + read_uuid(s).unwrap().1,
{
    lemma_read_u64_sound(s);
    let (msb, r) = read_u64(s).unwrap();
    lemma_read_u64_sound(r);
    assert(s =~= uuid_field(read_uuid(s).unwrap().0) + read_uuid(s).unwrap().1);
}

/// Appends a UUID.
fn write_uuid(dst: &mut Vec<u8>, id: &UUID)
    ensures
        final(dst)@ == old(dst)@ + uuid_field(*id),
{
    write_u64(dst, id.msb);
    write_u64(dst, id.lsb);
    assert(dst@ =~= old(dst)@ + uuid_field(*id));
}

/// Reads a UUID at `pos`; only uProtocol UUIDs are accepted.
fn take_uuid(src: &Vec<u8>, pos: usize) -> (r: Result<(UUID, usize), UStatus>)
    requires
        pos <= src@.len(),
    ensures
        match (r, read_uuid(src@.skip(pos as int))) {
            (Ok((v, p)), Some((w, rest))) => v == w && pos <= p <= src@.len() && rest == src@.skip(p as int),
            (Err(e), None) => e.code == UCode::INVALID_ARGUMENT,
            _ => false,
        },
{
    let (msb, p) = take_u64(src, pos)?;
    let (lsb, p2) = take_u64(src, p)?;
    let id = UUID { msb, lsb };
    if id.is_uprotocol_uuid() {
        Ok((id, p2))
    } else {
        Err(UStatus::fail_with_code(UCode::INVALID_ARGUMENT, "not a uProtocol UUID"))
    }
}

/// An optional UUID: a zero byte for none, or a one byte followed by the UUID.
pub open spec fn optional_uuid_field(value: Option<UUID>) -> Seq<u8> {
    match value {
        Some(v) => seq![1u8] + uuid_field(v),
        None => seq![0u8],
    }
}

spec fn read_optional_uuid(s: Seq<u8>) -> Option<(Option<UUID>, Seq<u8>)> {
    match read_u8(s) {
        Some((m, r)) => if m == 0 {
            Some((None, r))
        } else if m == 1 {
            match read_uuid(r) {
                Some((v, r2)) => Some((Some(v), r2)),
                None => None,
            }
        } else {
            None
        },
        None => None,
    }
}

proof fn lemma_read_optional_uuid(value: Option<UUID>, rest: Seq<u8>)
    requires
        value matches Some(v) ==> is_uprotocol_uuid_bits(v.msb, v.lsb),
    ensures
        read_optional_uuid(optional_uuid_field(value) + rest) == Some((value, rest)),
{
    match value {
        Some(v) => {
            assert(optional_uuid_field(value) + rest =~= seq![1u8] + (uuid_field(v) + rest));
            lemma_read_u8(1u8, uuid_field(v) + rest);
            lemma_read_uuid(v, rest);
        },
        None => {
            lemma_read_u8(0u8, rest);
        },
    }
}

proof fn lemma_read_optional_uuid_sound(s: Seq<u8>)
    requires
        read_optional_uuid(s) is Some,
    ensures
        read_optional_uuid(s).unwrap().0 matches Some(v) ==> is_uprotocol_uuid_bits(v.msb, v.lsb),
        s == optional_uuid_field(read_optional_uuid(s).unwrap().0) + read_optional_uuid(s).unwrap().1,
{
    lemma_read_u8_sound(s);
    let (m, r) = read_u8(s).unwrap();
    if m == 1 {
        lemma_read_uuid_sound(r);
        assert(s =~= optional_uuid_field(read_optional_uuid(s).unwrap().0) + read_optional_uuid(s).unwrap().1);
    }
}

/// Appends an optional UUID.
fn write_optional_uuid(dst: &mut Vec<u8>, value: &Option<UUID>)
    ensures
        final(dst)@ == old(dst)@ + optional_uuid_field(*value),
{
    match value {
        Some(v) => {
            dst.push(1);
            write_uuid(dst, v);
            assert(dst@ =~= old(dst)@ + optional_uuid_field(*value));
        },
        None => {
            dst.push(0);
            assert(dst@ =~= old(dst)@ + optional_uuid_field(*value));
        },
    }
}

fn take_optional_uuid(src: &Vec<u8>, pos: usize) -> (r: Result<(Option<UUID>, usize), UStatus>)
    requires
        pos <= src@.len(),
    ensures
        match (r, read_optional_uuid(src@.skip(pos as int))) {
            (Ok((v, p)), Some((w, rest))) => v == w && pos <= p <= src@.len() && rest == src@.skip(p as int),
            (Err(e), None) => e.code == UCode::INVALID_ARGUMENT,
            _ => false,
        },
{
    let (marker, p) = take_u8(src, pos)?;
    if marker == 0 {
        Ok((None, p))
    } else if marker == 1 {
        let (v, p2) = take_uuid(src, p)?;
        Ok((Some(v), p2))
    } else {
        Err(UStatus::fail_with_code(UCode::INVALID_ARGUMENT, "invalid optional value"))
    }
}

/// The characters of an optional `String`.
pub open spec fn optional_text(value: Option<String>) -> Option<Seq<char>> {
    match value {
        Some(t) => Some(t@),
        None => None,
    }
}

/// An optional string: a zero byte for none, or a one byte followed by the string.
pub open spec fn optional_string_field(value: Option<Seq<char>>) -> Seq<u8> {
    match value {
        Some(t) => seq![1u8] + string_field(t),
        None => seq![0u8],
    }
}

/// Whether an optional string fits the `u32` length prefix.
pub open spec fn fits_optional_field(value: Option<Seq<char>>) -> bool {
    value matches Some(t) ==> fits_field(t)
}

spec fn read_optional_string(s: Seq<u8>) -> Option<(Option<Seq<char>>, Seq<u8>)> {
    match read_u8(s) {
        Some((m, r)) => if m == 0 {
            Some((None, r))
        } else if m == 1 {
            match read_string(r) {
                Some((v, r2)) => Some((Some(v), r2)),
                None => None,
            }
        } else {
            None
        },
        None => None,
    }
}

proof fn lemma_read_optional_string(value: Option<Seq<char>>, rest: Seq<u8>)
    requires
        fits_optional_field(value),
    ensures
        read_optional_string(optional_string_field(value) + rest) == Some((value, rest)),
{
    match value {
        Some(v) => {
            assert(optional_string_field(value) + rest =~= seq![1u8] + (string_field(v) + rest));
            lemma_read_u8(1u8, string_field(v) + rest);
            lemma_read_string(v, rest);
        },
        None => {
            lemma_read_u8(0u8, rest);
        },
    }
}

proof fn lemma_read_optional_string_sound(s: Seq<u8>)
    requires
        read_optional_string(s) is Some,
    ensures
        fits_optional_field(read_optional_string(s).unwrap().0),
        s == optional_string_field(read_optional_string(s).unwrap().0) + read_optional_string(s).unwrap().1,
{
    lemma_read_u8_sound(s);
    let (m, r) = read_u8(s).unwrap();
    if m == 1 {
        lemma_read_string_sound(r);
        assert(s =~= optional_string_field(read_optional_string(s).unwrap().0) + read_optional_string(s).unwrap().1);
    }
}

/// Appends an optional string; fails when its length does not fit a `u32`.
pub fn write_optional_string(dst: &mut Vec<u8>, value: Option<&str>) -> (r: Result<(), UStatus>)
    ensures
        ({
            let text = match value {
                Some(t) => Some(t@),
                None => None::<Seq<char>>,
            };
            match r {
                Ok(()) => fits_optional_field(text) && final(dst)@ == old(dst)@ + optional_string_field(text),
                Err(e) => !fits_optional_field(text) && e.code == UCode::INVALID_ARGUMENT,
            }
        }),
{
    match value {
        Some(v) => {
            dst.push(1);
            append_string(dst, v)?;
            assert(dst@ =~= old(dst)@ + optional_string_field(Some(v@)));
        },
        None => {
            dst.push(0);
            assert(dst@ =~= old(dst)@ + optional_string_field(None));
        },
    }
    Ok(())
}

fn take_optional_string(src: &Vec<u8>, pos: usize) -> (r: Result<(Option<String>, usize), UStatus>)
    requires
        pos <= src@.len(),
    ensures
        match (r, read_optional_string(src@.skip(pos as int))) {
            (Ok((v, p)), Some((w, rest))) => optional_text(v) == w && pos <= p <= src@.len() && rest == src@.skip(p as int),
            (Err(e), None) => e.code == UCode::INVALID_ARGUMENT,
            _ => false,
        },
{
    let (marker, p) = take_u8(src, pos)?;
    if marker == 0 {
        Ok((None, p))
    } else if marker == 1 {
        let (v, p2) = take_string(src, p)?;
        Ok((Some(v), p2))
    } else {
        Err(UStatus::fail_with_code(UCode::INVALID_ARGUMENT, "invalid optional value"))
    }
}

/// An optional status code: a zero byte for none, or a one byte followed by the code's number.
pub open spec fn optional_code_field(value: Option<UCode>) -> Seq<u8> {
    match value {
        Some(c) => seq![1u8, code_value(c)],
        None => seq![0u8],
    }
}

spec fn read_optional_code(s: Seq<u8>) -> Option<(Option<UCode>, Seq<u8>)> {
    match read_u8(s) {
        Some((m, r)) => if m == 0 {
            Some((None, r))
        } else if m == 1 {
            match read_u8(r) {
                Some((v, r2)) => match code_of_value(v) {
                    Some(c) => Some((Some(c), r2)),
                    None => None,
                },
                None => None,
            }
        } else {
            None
        },
        None => None,
    }
}

proof fn lemma_read_optional_code(value: Option<UCode>, rest: Seq<u8>)
    ensures
        read_optional_code(optional_code_field(value) + rest) == Some((value, rest)),
{
    match value {
        Some(c) => {
            assert(optional_code_field(value) + rest =~= seq![1u8] + (seq![code_value(c)] + rest));
            lemma_read_u8(1u8, seq![code_value(c)] + rest);
            lemma_read_u8(code_value(c), rest);
        },
        None => {
            lemma_read_u8(0u8, rest);
        },
    }
}

proof fn lemma_read_optional_code_sound(s: Seq<u8>)
    requires
        read_optional_code(s) is Some,
    ensures
        s == optional_code_field(read_optional_code(s).unwrap().0) + read_optional_code(s).unwrap().1,
{
    lemma_read_u8_sound(s);
    let (m, r) = read_u8(s).unwrap();
    if m == 1 {
        lemma_read_u8_sound(r);
        let v = read_u8(r).unwrap().0;
        assert(code_value(code_of_value(v).unwrap()) == v);
        assert(s =~= optional_code_field(read_optional_code(s).unwrap().0) + read_optional_code(s).unwrap().1);
    }
}

/// Appends an optional status code.
fn write_optional_code(dst: &mut Vec<u8>, value: Option<UCode>)
    ensures
        final(dst)@ == old(dst)@ + optional_code_field(value),
{
    match value {
        Some(c) => {
            dst.push(1);
            dst.push(c.as_u8());
            assert(dst@ =~= old(dst)@ + optional_code_field(value));
        },
        None => {
            dst.push(0);
            assert(dst@ =~= old(dst)@ + optional_code_field(value));
        },
    }
}

fn take_optional_code(src: &Vec<u8>, pos: usize) -> (r: Result<(Option<UCode>, usize), UStatus>)
    requires
        pos <= src@.len(),
    ensures
        match (r, read_optional_code(src@.skip(pos as int))) {
            (Ok((v, p)), Some((w, rest))) => v == w && pos <= p <= src@.len() && rest == src@.skip(p as int),
            (Err(e), None) => e.code == UCode::INVALID_ARGUMENT,
            _ => false,
        },
{
    let (marker, p) = take_u8(src, pos)?;
    if marker == 0 {
        Ok((None, p))
    } else if marker == 1 {
        let (v, p2) = take_u8(src, p)?;
        match UCode::from_u8(v) {
            Some(c) => Ok((Some(c), p2)),
            None => Err(UStatus::fail_with_code(UCode::INVALID_ARGUMENT, "invalid status code")),
        }
    } else {
        Err(UStatus::fail_with_code(UCode::INVALID_ARGUMENT, "invalid optional value"))
    }
}


/// The attributes of a uProtocol message as a frame carries them; URIs are held as their text.
#[derive(Clone, Debug, PartialEq, Eq)]
pub struct UAttributes {
    pub id: UUID,
    pub message_type: UMessageType,
    pub priority: UPriority,
    pub ttl: Option<u32>,
    pub source: String,
    pub sink: Option<String>,
    pub request_id: Option<UUID>,
    pub traceparent: Option<String>,
    pub token: Option<String>,
    pub permission_level: Option<u32>,
    pub commstatus: Option<UCode>,
}

/// How a frame's payload is encoded.
#[derive(Clone, Debug, PartialEq, Eq)]
pub struct UEncoding {
    pub format_id: String,
    pub content_type: String,
    pub schema_ref: Option<String>,
}

/// A frame's attributes and payload encoding.
#[derive(Clone, Debug, PartialEq, Eq)]
pub struct UFrameMetadata {
    pub attributes: UAttributes,
    pub encoding: UEncoding,
}

/// A uProtocol frame: metadata and payload bytes.
#[derive(Clone, Debug, PartialEq, Eq)]
pub struct UOwnedFrame {
    pub metadata: UFrameMetadata,
    pub payload: Vec<u8>,
}

/// The mathematical value of a frame.
pub struct FrameView {
    pub id: UUID,
    pub message_type: UMessageType,
    pub priority: UPriority,
    pub ttl: Option<u32>,
    pub source: Seq<char>,
    pub sink: Option<Seq<char>>,
    pub request_id: Option<UUID>,
    pub traceparent: Option<Seq<char>>,
    pub token: Option<Seq<char>>,
    pub permission_level: Option<u32>,
    pub commstatus: Option<UCode>,
    pub format_id: Seq<char>,
    pub content_type: Seq<char>,
    pub schema_ref: Option<Seq<char>>,
    pub payload: Seq<u8>,
}

impl View for UOwnedFrame {
    type V = FrameView;

    open spec fn view(&self) -> FrameView {
        let a = self.metadata.attributes;
        let e = self.metadata.encoding;
        FrameView {
            id: a.id,
            message_type: a.message_type,
            priority: a.priority,
            ttl: a.ttl,
            source: a.source@,
            sink: optional_text(a.sink),
            request_id: a.request_id,
            traceparent: optional_text(a.traceparent),
            token: optional_text(a.token),
            permission_level: a.permission_level,
            commstatus: a.commstatus,
            format_id: e.format_id@,
            content_type: e.content_type@,
            schema_ref: optional_text(e.schema_ref),
            payload: self.payload@,
        }
    }
}

/// The characters of an optional string, or no characters.
pub open spec fn text_or_empty(value: Option<Seq<char>>) -> Seq<char> {
    match value {
        Some(t) => t,
        None => Seq::empty(),
    }
}

/// The fixed header: magic, version, message id, message type and priority.
pub open spec fn header_field(id: UUID, message_type: UMessageType, priority: UPriority) -> Seq<u8> {
    frame_magic() + seq![FRAME_PAYLOAD_VERSION] + uuid_field(id) + seq![message_type_byte(message_type), priority_byte(priority)]
}

/// The bytes of a frame payload: the header; the TTL; source and sink URIs (an absent sink as the
/// empty string); format id, content type and schema reference (absent as empty); the optional
/// request id, traceparent, token, permission level and status code; then the payload bytes.
pub open spec fn encode_frame(f: FrameView) -> Seq<u8> {
    header_field(f.id, f.message_type, f.priority) + (optional_u32_field(f.ttl) + (string_field(f.source)
        + (string_field(text_or_empty(f.sink)) + (string_field(f.format_id) + (string_field(f.content_type)
        + (string_field(text_or_empty(f.schema_ref)) + (optional_uuid_field(f.request_id)
        + (optional_string_field(f.traceparent) + (optional_string_field(f.token)
        + (optional_u32_field(f.permission_level) + (optional_code_field(f.commstatus) + f.payload)))))))))))
}

/// Whether every string of a frame fits the `u32` length prefix.
pub open spec fn frame_fits(f: FrameView) -> bool {
    &&& fits_field(f.source)
    &&& fits_field(text_or_empty(f.sink))
    &&& fits_field(f.format_id)
    &&& fits_field(f.content_type)
    &&& fits_field(text_or_empty(f.schema_ref))
    &&& fits_optional_field(f.traceparent)
    &&& fits_optional_field(f.token)
}

/// The frames that the wire format carries: their strings fit, their ids are uProtocol UUIDs, their
/// source is a URI, a sink that is present is a non-empty URI, and a schema reference that is
/// present is not empty.
pub open spec fn frame_well_formed(f: FrameView) -> bool {
    &&& frame_fits(f)
    &&& is_uprotocol_uuid_bits(f.id.msb, f.id.lsb)
    &&& (f.request_id matches Some(r) ==> is_uprotocol_uuid_bits(r.msb, r.lsb))
    &&& valid_uri_text(f.source)
    &&& (f.sink matches Some(t) ==> t.len() > 0 && valid_uri_text(t))
    &&& (f.schema_ref matches Some(t) ==> t.len() > 0)
}

spec fn read_header(s: Seq<u8>) -> Option<((UUID, UMessageType, UPriority), Seq<u8>)> {
    if s.len() >= 5 && s.take(4) == frame_magic() && s[4] == FRAME_PAYLOAD_VERSION {
        match read_uuid(s.skip(5)) {
            Some((id, r)) => match read_u8(r) {
                Some((mb, r2)) => match message_type_of_byte(mb) {
                    Some(mt) => match read_u8(r2) {
                        Some((pb, r3)) => match priority_of_byte(pb) {
                            Some(p) => Some(((id, mt, p), r3)),
                            None => None,
                        },
                        None => None,
                    },
                    None => None,
                },
                None => None,
            },
            None => None,
        }
    } else {
        None
    }
}

proof fn lemma_read_header(id: UUID, mt: UMessageType, p: UPriority, rest: Seq<u8>)
    requires
        is_uprotocol_uuid_bits(id.msb, id.lsb),
    ensures
        read_header(header_field(id, mt, p) + rest) == Some(((id, mt, p), rest)),
{
    let s = header_field(id, mt, p) + rest;
    let tail = seq![message_type_byte(mt)] + (seq![priority_byte(p)] + rest);
    assert(s.take(4) =~= frame_magic());
    assert(s[4] == FRAME_PAYLOAD_VERSION);
    assert(s.skip(5) =~= uuid_field(id) + tail);
    lemma_read_uuid(id, tail);
    lemma_read_u8(message_type_byte(mt), seq![priority_byte(p)] + rest);
    lemma_read_u8(priority_byte(p), rest);
}

proof fn lemma_read_header_sound(s: Seq<u8>)
    requires
        read_header(s) is Some,
    ensures
        is_uprotocol_uuid_bits(read_header(s).unwrap().0.0.msb, read_header(s).unwrap().0.0.lsb),
        s == header_field(read_header(s).unwrap().0.0, read_header(s).unwrap().0.1, read_header(s).unwrap().0.2)
            + read_header(s).unwrap().1,
{
    let s5 = s.skip(5);
    lemma_read_uuid_sound(s5);
    let (id, r) = read_uuid(s5).unwrap();
    lemma_read_u8_sound(r);
    let (mb, r2) = read_u8(r).unwrap();
    lemma_read_u8_sound(r2);
    let (pb, r3) = read_u8(r2).unwrap();
    let mt = message_type_of_byte(mb).unwrap();
    let p = priority_of_byte(pb).unwrap();
    assert(message_type_byte(mt) == mb);
    assert(priority_byte(p) == pb);
    assert(s =~= s.take(4) + seq![s[4]] + s5);
    assert(s =~= header_field(id, mt, p) + r3);
}

spec fn read_source(s: Seq<u8>) -> Option<(Seq<char>, Seq<u8>)> {
    match read_string(s) {
        Some((t, r)) => if valid_uri_text(t) {
            Some((t, r))
        } else {
            None
        },
        None => None,
    }
}

spec fn read_sink(s: Seq<u8>) -> Option<(Option<Seq<char>>, Seq<u8>)> {
    match read_string(s) {
        Some((t, r)) => if t.len() == 0 {
            Some((None, r))
        } else if valid_uri_text(t) {
            Some((Some(t), r))
        } else {
            None
        },
        None => None,
    }
}

spec fn read_schema(s: Seq<u8>) -> Option<(Option<Seq<char>>, Seq<u8>)> {
    match read_string(s) {
        Some((t, r)) => if t.len() == 0 {
            Some((None, r))
        } else {
            Some((Some(t), r))
        },
        None => None,
    }
}

spec fn parse_frame(b: Seq<u8>) -> Option<FrameView> {
    match read_header(b) {
        None => None,
        Some((h, r1)) => match read_optional_u32(r1) {
            None => None,
            Some((ttl, r2)) => match read_source(r2) {
                None => None,
                Some((source, r3)) => match read_sink(r3) {
                    None => None,
                    Some((sink, r4)) => match read_string(r4) {
                        None => None,
                        Some((format_id, r5)) => match read_string(r5) {
                            None => None,
                            Some((content_type, r6)) => match read_schema(r6) {
                                None => None,
                                Some((schema_ref, r7)) => match read_optional_uuid(r7) {
                                    None => None,
                                    Some((request_id, r8)) => match read_optional_string(r8) {
                                        None => None,
                                        Some((traceparent, r9)) => match read_optional_string(r9) {
                                            None => None,
                                            Some((token, r10)) => match read_optional_u32(r10) {
                                                None => None,
                                                Some((permission_level, r11)) => match read_optional_code(r11) {
                                                    None => None,
                                                    Some((commstatus, r12)) => Some(FrameView {
                                                        id: h.0,
                                                        message_type: h.1,
                                                        priority: h.2,
                                                        ttl,
                                                        source,
                                                        sink,
                                                        request_id,
                                                        traceparent,
                                                        token,
                                                        permission_level,
                                                        commstatus,
                                                        format_id,
                                                        content_type,
                                                        schema_ref,
                                                        payload: r12,
                                                    }),
                                                },
                                            },
                                        },
                                    },
                                },
                            },
                        },
                    },
                },
            },
        },
    }
}

proof fn lemma_parse_encoded_frame(f: FrameView)
    requires
        frame_well_formed(f),
    ensures
        parse_frame(encode_frame(f)) == Some(f),
{
    let r12 = f.payload;
    let r11 = optional_code_field(f.commstatus) + r12;
    let r10 = optional_u32_field(f.permission_level) + r11;
    let r9 = optional_string_field(f.token) + r10;
    let r8 = optional_string_field(f.traceparent) + r9;
    let r7 = optional_uuid_field(f.request_id) + r8;
    let r6 = string_field(text_or_empty(f.schema_ref)) + r7;
    let r5 = string_field(f.content_type) + r6;
    let r4 = string_field(f.format_id) + r5;
    let r3 = string_field(text_or_empty(f.sink)) + r4;
    let r2 = string_field(f.source) + r3;
    let r1 = optional_u32_field(f.ttl) + r2;
    lemma_read_header(f.id, f.message_type, f.priority, r1);
    lemma_read_optional_u32(f.ttl, r2);
    lemma_read_string(f.source, r3);
    lemma_read_string(text_or_empty(f.sink), r4);
    lemma_read_string(f.format_id, r5);
    lemma_read_string(f.content_type, r6);
    lemma_read_string(text_or_empty(f.schema_ref), r7);
    lemma_read_optional_uuid(f.request_id, r8);
    lemma_read_optional_string(f.traceparent, r9);
    lemma_read_optional_string(f.token, r10);
    lemma_read_optional_u32(f.permission_level, r11);
    lemma_read_optional_code(f.commstatus, r12);
    assert(read_sink(r3) == Some((f.sink, r4)));
    assert(read_schema(r6) == Some((f.schema_ref, r7)));
}

#[verifier::rlimit(60)]
proof fn lemma_parsed_frame_is_encoding(b: Seq<u8>)
    requires
        parse_frame(b) is Some,
    ensures
        frame_well_formed(parse_frame(b).unwrap()),
        encode_frame(parse_frame(b).unwrap()) == b,
{
    let f = parse_frame(b).unwrap();
    let (h, r1) = read_header(b).unwrap();
    let (ttl, r2) = read_optional_u32(r1).unwrap();
    let (source, r3) = read_source(r2).unwrap();
    let (sink, r4) = read_sink(r3).unwrap();
    let (format_id, r5) = read_string(r4).unwrap();
    let (content_type, r6) = read_string(r5).unwrap();
    let (schema_ref, r7) = read_schema(r6).unwrap();
    let (request_id, r8) = read_optional_uuid(r7).unwrap();
    let (traceparent, r9) = read_optional_string(r8).unwrap();
    let (token, r10) = read_optional_string(r9).unwrap();
    let (permission_level, r11) = read_optional_u32(r10).unwrap();
    let (commstatus, r12) = read_optional_code(r11).unwrap();
    assert(f.id == h.0 && f.message_type == h.1 && f.priority == h.2);
    assert(f.ttl == ttl && f.source == source && f.sink == sink && f.format_id == format_id);
    assert(f.content_type == content_type && f.schema_ref == schema_ref && f.request_id == request_id);
    assert(f.traceparent == traceparent && f.token == token && f.permission_level == permission_level);
    assert(f.commstatus == commstatus && f.payload == r12);
    lemma_read_header_sound(b);
    lemma_read_optional_u32_sound(r1);
    lemma_read_string_sound(r2);
    lemma_read_string_sound(r3);
    assert(text_or_empty(sink) == read_string(r3).unwrap().0);
    lemma_read_string_sound(r4);
    lemma_read_string_sound(r5);
    lemma_read_string_sound(r6);
    assert(text_or_empty(schema_ref) == read_string(r6).unwrap().0);
    lemma_read_optional_uuid_sound(r7);
    lemma_read_optional_string_sound(r8);
    lemma_read_optional_string_sound(r9);
    lemma_read_optional_u32_sound(r10);
    lemma_read_optional_code_sound(r11);
    assert(b == header_field(h.0, h.1, h.2) + r1);
    assert(r1 == optional_u32_field(ttl) + r2);
    assert(r2 == string_field(source) + r3);
    assert(r3 == string_field(text_or_empty(sink)) + r4);
    assert(r4 == string_field(format_id) + r5);
    assert(r5 == string_field(content_type) + r6);
    assert(r6 == string_field(text_or_empty(schema_ref)) + r7);
    assert(r7 == optional_uuid_field(request_id) + r8);
    assert(r8 == optional_string_field(traceparent) + r9);
    assert(r9 == optional_string_field(token) + r10);
    assert(r10 == optional_u32_field(permission_level) + r11);
    assert(r11 == optional_code_field(commstatus) + r12);
}

/// Decoding the bytes that a well-formed frame encodes to gives that frame back: no other
/// well-formed frame has the same encoding.
pub proof fn lemma_frame_encoding_is_injective(f: FrameView, g: FrameView)
    requires
        frame_well_formed(f),
        frame_well_formed(g),
        encode_frame(f) == encode_frame(g),
    ensures
        f == g,
{
    lemma_parse_encoded_frame(f);
    lemma_parse_encoded_frame(g);
}


proof fn lemma_empty_string_field()
    ensures
        string_field(Seq::<char>::empty()) == u32_le(0),
        fits_field(Seq::<char>::empty()),
{
    assert(encode_utf8(Seq::<char>::empty()) =~= Seq::<u8>::empty());
    assert(string_field(Seq::<char>::empty()) =~= u32_le(0));
}

/// Appends an optional string as a plain string, an absent one as the empty string.
fn append_text_or_empty(dst: &mut Vec<u8>, value: &Option<String>) -> (r: Result<(), UStatus>)
    ensures
        match r {
            Ok(()) => fits_field(text_or_empty(optional_text(*value))) && final(dst)@ == old(dst)@
                + string_field(text_or_empty(optional_text(*value))),
            Err(e) => !fits_field(text_or_empty(optional_text(*value))) && e.code == UCode::INVALID_ARGUMENT,
        },
{
    match value {
        Some(t) => append_string(dst, t.as_str()),
        None => {
            proof {
                lemma_empty_string_field();
            }
            write_u32(dst, 0);
            Ok(())
        },
    }
}

fn as_optional_str(value: &Option<String>) -> (r: Option<&str>)
    ensures
        match r {
            Some(t) => Some(t@),
            None => None::<Seq<char>>,
        } == optional_text(*value),
{
    match value {
        Some(t) => Some(t.as_str()),
        None => None,
    }
}

proof fn lemma_concat_right(
    p0: Seq<u8>,
    p1: Seq<u8>,
    p2: Seq<u8>,
    p3: Seq<u8>,
    p4: Seq<u8>,
    p5: Seq<u8>,
    p6: Seq<u8>,
    p7: Seq<u8>,
    p8: Seq<u8>,
    p9: Seq<u8>,
    p10: Seq<u8>,
    p11: Seq<u8>,
    p12: Seq<u8>,
)
    ensures
        p0 + p1 + p2 + p3 + p4 + p5 + p6 + p7 + p8 + p9 + p10 + p11 + p12 == p0 + (p1 + (p2 + (p3 + (p4 + (p5
            + (p6 + (p7 + (p8 + (p9 + (p10 + (p11 + p12))))))))))),
{
    lemma_seq_assoc(p0 + p1 + p2 + p3 + p4 + p5 + p6 + p7 + p8 + p9 + p10, p11, p12);
    lemma_seq_assoc(p0 + p1 + p2 + p3 + p4 + p5 + p6 + p7 + p8 + p9, p10, (p11 + p12));
    lemma_seq_assoc(p0 + p1 + p2 + p3 + p4 + p5 + p6 + p7 + p8, p9, (p10 + (p11 + p12)));
    lemma_seq_assoc(p0 + p1 + p2 + p3 + p4 + p5 + p6 + p7, p8, (p9 + (p10 + (p11 + p12))));
    lemma_seq_assoc(p0 + p1 + p2 + p3 + p4 + p5 + p6, p7, (p8 + (p9 + (p10 + (p11 + p12)))));
    lemma_seq_assoc(p0 + p1 + p2 + p3 + p4 + p5, p6, (p7 + (p8 + (p9 + (p10 + (p11 + p12))))));
    lemma_seq_assoc(p0 + p1 + p2 + p3 + p4, p5, (p6 + (p7 + (p8 + (p9 + (p10 + (p11 + p12)))))));
    lemma_seq_assoc(p0 + p1 + p2 + p3, p4, (p5 + (p6 + (p7 + (p8 + (p9 + (p10 + (p11 + p12))))))));
    lemma_seq_assoc(p0 + p1 + p2, p3, (p4 + (p5 + (p6 + (p7 + (p8 + (p9 + (p10 + (p11 + p12)))))))));
    lemma_seq_assoc(p0 + p1, p2, (p3 + (p4 + (p5 + (p6 + (p7 + (p8 + (p9 + (p10 + (p11 + p12))))))))));
    lemma_seq_assoc(p0, p1, (p2 + (p3 + (p4 + (p5 + (p6 + (p7 + (p8 + (p9 + (p10 + (p11 + p12)))))))))));
}

proof fn lemma_seq_assoc(a: Seq<u8>, b: Seq<u8>, c: Seq<u8>)
    ensures
        a + (b + c) == a + b + c,
{
    assert(a + (b + c) =~= a + b + c);
}

/// Encodes a frame into the bytes of a SOME/IP payload. Fails, with an invalid-argument status,
/// exactly when one of the frame's strings is longer than a `u32` can count.
#[verifier::rlimit(40)]
pub fn encode_frame_payload(frame: &UOwnedFrame) -> (r: Result<Vec<u8>, UStatus>)
    ensures
        match r {
            Ok(bytes) => frame_fits(frame@) && bytes@ == encode_frame(frame@),
            Err(e) => !frame_fits(frame@) && e.code == UCode::INVALID_ARGUMENT,
        },
{
    let attributes = &frame.metadata.attributes;
    let encoding = &frame.metadata.encoding;
    let mut bytes: Vec<u8> = Vec::new();
    bytes.push(0x55);
    bytes.push(0x53);
    bytes.push(0x49);
    bytes.push(0x50);
    bytes.push(FRAME_PAYLOAD_VERSION);
    write_uuid(&mut bytes, &attributes.id);
    bytes.push(message_type_to_byte(attributes.message_type));
    bytes.push(priority_to_byte(attributes.priority));
    let ghost b0 = bytes@;
    assert(b0 =~= header_field(attributes.id, attributes.message_type, attributes.priority));
    write_optional_u32(&mut bytes, attributes.ttl);
    let ghost b1 = bytes@;
    append_string(&mut bytes, attributes.source.as_str())?;
    let ghost b2 = bytes@;
    append_text_or_empty(&mut bytes, &attributes.sink)?;
    let ghost b3 = bytes@;
    append_string(&mut bytes, encoding.format_id.as_str())?;
    let ghost b4 = bytes@;
    append_string(&mut bytes, encoding.content_type.as_str())?;
    let ghost b5 = bytes@;
    append_text_or_empty(&mut bytes, &encoding.schema_ref)?;
    let ghost b6 = bytes@;
    write_optional_uuid(&mut bytes, &attributes.request_id);
    let ghost b7 = bytes@;
    write_optional_string(&mut bytes, as_optional_str(&attributes.traceparent))?;
    let ghost b8 = bytes@;
    write_optional_string(&mut bytes, as_optional_str(&attributes.token))?;
    let ghost b9 = bytes@;
    write_optional_u32(&mut bytes, attributes.permission_level);
    let ghost b10 = bytes@;
    write_optional_code(&mut bytes, attributes.commstatus);
    let ghost b11 = bytes@;
    append_bytes(&mut bytes, frame.payload.as_slice());
    proof {
        let f = frame@;
        lemma_concat_right(b0, optional_u32_field(f.ttl), string_field(f.source), string_field(text_or_empty(f.sink)),
            string_field(f.format_id), string_field(f.content_type), string_field(text_or_empty(f.schema_ref)),
            optional_uuid_field(f.request_id), optional_string_field(f.traceparent), optional_string_field(f.token),
            optional_u32_field(f.permission_level), optional_code_field(f.commstatus), f.payload);
    }
    Ok(bytes)
}

fn take_magic_and_version(src: &Vec<u8>) -> (r: Result<usize, UStatus>)
    ensures
        match r {
            Ok(p) => p == 5 && src@.len() >= 5 && src@.take(4) == frame_magic() && src@[4] == FRAME_PAYLOAD_VERSION,
            Err(e) => !(src@.len() >= 5 && src@.take(4) == frame_magic() && src@[4] == FRAME_PAYLOAD_VERSION)
                && e.code == UCode::INVALID_ARGUMENT,
        },
{
    if src.len() < 4 {
        return Err(UStatus::fail_with_code(UCode::INVALID_ARGUMENT, "invalid frame payload"));
    }
    if !(src[0] == 0x55 && src[1] == 0x53 && src[2] == 0x49 && src[3] == 0x50) {
        assert(src@.take(4)[0] == src@[0] && src@.take(4)[1] == src@[1]);
        assert(src@.take(4)[2] == src@[2] && src@.take(4)[3] == src@[3]);
        return Err(UStatus::fail_with_code(UCode::INVALID_ARGUMENT, "invalid SOME/IP native frame payload"));
    }
    assert(src@.take(4) =~= frame_magic());
    if src.len() < 5 {
        return Err(UStatus::fail_with_code(UCode::INVALID_ARGUMENT, "invalid frame payload"));
    }
    if src[4] != FRAME_PAYLOAD_VERSION {
        return Err(UStatus::fail_with_code_and_number(UCode::INVALID_ARGUMENT, "unsupported SOME/IP native frame payload version: ", src[4] as u64, ""));
    }
    Ok(5)
}

fn take_header(src: &Vec<u8>) -> (r: Result<((UUID, UMessageType, UPriority), usize), UStatus>)
    ensures
        match (r, read_header(src@)) {
            (Ok((v, p)), Some((w, rest))) => v == w && p <= src@.len() && rest == src@.skip(p as int),
            (Err(e), None) => e.code == UCode::INVALID_ARGUMENT,
            _ => false,
        },
{
    let p = take_magic_and_version(src)?;
    let (id, p) = take_uuid(src, p)?;
    let (type_byte, p) = take_u8(src, p)?;
    let message_type = byte_to_message_type(type_byte)?;
    let (priority_value, p) = take_u8(src, p)?;
    let priority = byte_to_priority(priority_value)?;
    Ok(((id, message_type, priority), p))
}

fn check_uri(text: &String, is_source: bool) -> (r: Result<(), UStatus>)
    ensures
        match r {
            Ok(()) => valid_uri_text(text@),
            Err(e) => !valid_uri_text(text@) && e.code == UCode::INVALID_ARGUMENT,
        },
{
    if parse_uri(text.as_str()).is_some() {
        Ok(())
    } else {
        if is_source {
            Err(UStatus::fail_with_code(UCode::INVALID_ARGUMENT, "invalid source URI"))
        } else {
            Err(UStatus::fail_with_code(UCode::INVALID_ARGUMENT, "invalid sink URI"))
        }
    }
}

fn none_if_empty(text: String) -> (r: Option<String>)
    ensures
        optional_text(r) == (if text@.len() == 0 {
            None
        } else {
            Some(text@)
        }),
{
    if text.as_str().is_empty() {
        None
    } else {
        Some(text)
    }
}

#[verifier::rlimit(40)]
fn parse_frame_payload(src: &Vec<u8>) -> (r: Result<UOwnedFrame, UStatus>)
    ensures
        match (r, parse_frame(src@)) {
            (Ok(f), Some(g)) => f@ == g,
            (Err(e), None) => e.code == UCode::INVALID_ARGUMENT,
            _ => false,
        },
{
    let ((id, message_type, priority), p) = take_header(src)?;
    let (ttl, p) = take_optional_u32(src, p)?;
    let (source, p) = take_string(src, p)?;
    check_uri(&source, true)?;
    let (sink, p) = take_string(src, p)?;
    let sink = none_if_empty(sink);
    match &sink {
        Some(t) => check_uri(t, false)?,
        None => {},
    }
    let (format_id, p) = take_string(src, p)?;
    let (content_type, p) = take_string(src, p)?;
    let (schema_ref, p) = take_string(src, p)?;
    let schema_ref = none_if_empty(schema_ref);
    let (request_id, p) = take_optional_uuid(src, p)?;
    let (traceparent, p) = take_optional_string(src, p)?;
    let (token, p) = take_optional_string(src, p)?;
    let (permission_level, p) = take_optional_u32(src, p)?;
    let (commstatus, p) = take_optional_code(src, p)?;
    let payload = copy_range(src, p, src.len());
    assert(payload@ =~= src@.skip(p as int));
    let attributes = UAttributes {
        id,
        message_type,
        priority,
        ttl,
        source,
        sink,
        request_id,
        traceparent,
        token,
        permission_level,
        commstatus,
    };
    let encoding = UEncoding { format_id, content_type, schema_ref };
    Ok(UOwnedFrame { metadata: UFrameMetadata { attributes, encoding }, payload })
}

/// Whether some well-formed frame encodes to the bytes.
pub open spec fn decodes(payload: Seq<u8>) -> bool {
    exists|f: FrameView| frame_well_formed(f) && encode_frame(f) == payload
}

/// The well-formed frame that the bytes encode.
pub open spec fn decoded(payload: Seq<u8>) -> FrameView {
    choose|f: FrameView| frame_well_formed(f) && encode_frame(f) == payload
}

/// The bytes that a well-formed frame encodes to decode to that frame and to no other.
pub proof fn lemma_frame_round_trip(f: FrameView)
    requires
        frame_well_formed(f),
    ensures
        decodes(encode_frame(f)),
        decoded(encode_frame(f)) == f,
{
    let g = decoded(encode_frame(f));
    assert(frame_well_formed(f) && encode_frame(f) == encode_frame(f));
    lemma_frame_encoding_is_injective(g, f);
}

/// Decodes the bytes of a SOME/IP payload into a frame. It succeeds exactly when the bytes are the
/// encoding of a well-formed frame, and then gives that frame; otherwise it fails with an
/// invalid-argument status.
pub fn decode_frame_payload(payload: Vec<u8>) -> (r: Result<UOwnedFrame, UStatus>)
    ensures
        match r {
            Ok(f) => frame_well_formed(f@) && encode_frame(f@) == payload@,
            Err(e) => e.code == UCode::INVALID_ARGUMENT && forall|f: FrameView|
                frame_well_formed(f) ==> encode_frame(f) != payload@,
        },
{
    let r = parse_frame_payload(&payload);
    proof {
        if r is Ok {
            lemma_parsed_frame_is_encoding(payload@);
        } else {
            {
                assert forall|f: FrameView| frame_well_formed(f) implies encode_frame(f) != payload@ by {
                    lemma_parse_encoded_frame(f);
                }
            }
        }
    }
    r
}

} // verus!
