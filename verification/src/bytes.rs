//! Borsh's wire format for the integers and byte strings that the codecs of
//! this crate write and read.
//!
//! Integers are little-endian; a byte string is its length as a
//! little-endian `u32`, then its bytes.
use vstd::prelude::*;
use vstd::bytes::{
    spec_u32_from_le_bytes, spec_u32_to_le_bytes, spec_u64_from_le_bytes, spec_u64_to_le_bytes,
};
use borsh::{BorshDeserialize, BorshSerialize};
use crate::error::CodecError;

verus! {

/// Borsh encoding of a byte string: its length as a little-endian `u32`,
/// then the bytes themselves.
pub open spec fn byte_vec_frame(payload: Seq<u8>) -> Seq<u8> {
    spec_u32_to_le_bytes(payload.len() as u32) + payload
}

/// The length that the first four bytes of `input` announce.
pub open spec fn announced_len(input: Seq<u8>) -> nat {
    spec_u32_from_le_bytes(input.take(4)) as nat
}

/// Whether `input` starts with a complete borsh byte string.
pub open spec fn holds_byte_vec(input: Seq<u8>) -> bool {
    input.len() >= 4 && input.len() - 4 >= announced_len(input)
}

/// The payload of the borsh byte string at the start of `input`.
pub open spec fn byte_vec_payload(input: Seq<u8>) -> Seq<u8> {
    input.subrange(4, 4 + announced_len(input) as int)
}

/// The bytes of `input` after the borsh byte string at its start.
pub open spec fn after_byte_vec(input: Seq<u8>) -> Seq<u8> {
    input.skip(4 + announced_len(input) as int)
}

/// Calls `<u64 as BorshSerialize>::serialize` on a `Vec<u8>`, which writes
/// `to_le_bytes()` with `write_all`; a `Vec<u8>` writer appends the eight
/// bytes and never fails.
#[verifier::external_body]
pub(crate) fn borsh_write_u64(value: u64, writer: &mut Vec<u8>) -> (r: Result<(), borsh::io::Error>)
    ensures
        r is Ok,
        final(writer)@ == old(writer)@ + spec_u64_to_le_bytes(value),
{
    value.serialize(writer)
}

/// Calls `<u32 as BorshSerialize>::serialize` on a `Vec<u8>`, which appends
/// the four little-endian bytes and never fails.
#[verifier::external_body]
pub(crate) fn borsh_write_u32(value: u32, writer: &mut Vec<u8>) -> (r: Result<(), borsh::io::Error>)
    ensures
        r is Ok,
        final(writer)@ == old(writer)@ + spec_u32_to_le_bytes(value),
{
    value.serialize(writer)
}

/// Calls `<[u8] as BorshSerialize>::serialize` on a `Vec<u8>`, which
/// converts the length to `u32` first and fails, writing nothing, where it
/// does not fit; otherwise it writes the length and then the bytes.
#[verifier::external_body]
pub(crate) fn borsh_write_byte_vec(bytes: &[u8], writer: &mut Vec<u8>) -> (r: Result<(), borsh::io::Error>)
    ensures
        r is Ok <==> bytes@.len() <= u32::MAX,
        r is Ok ==> final(writer)@ == old(writer)@ + byte_vec_frame(bytes@),
        r is Err ==> final(writer)@ == old(writer)@,
{
    bytes.serialize(writer)
}

/// Calls `<u64 as BorshDeserialize>::deserialize_reader` on a byte slice,
/// which reads eight bytes with `read_exact` and decodes them as
/// little-endian: it succeeds exactly when eight bytes remain, and then
/// consumes them. Where it fails, the slice left behind is not described.
#[verifier::external_body]
pub(crate) fn borsh_read_u64(reader: &mut &[u8]) -> (r: Result<u64, borsh::io::Error>)
    ensures
        r is Ok <==> old(reader)@.len() >= 8,
        r matches Ok(v) ==> v == spec_u64_from_le_bytes(old(reader)@.take(8)) && final(reader)@
            == old(reader)@.skip(8),
{
    u64::deserialize_reader(reader)
}

/// Calls `<u32 as BorshDeserialize>::deserialize_reader` on a byte slice,
/// which reads four bytes as `u64` reads eight.
#[verifier::external_body]
pub(crate) fn borsh_read_u32(reader: &mut &[u8]) -> (r: Result<u32, borsh::io::Error>)
    ensures
        r is Ok <==> old(reader)@.len() >= 4,
        r matches Ok(v) ==> v == spec_u32_from_le_bytes(old(reader)@.take(4)) && final(reader)@
            == old(reader)@.skip(4),
{
    u32::deserialize_reader(reader)
}

/// Calls `<Vec<u8> as BorshDeserialize>::deserialize_reader` on a byte
/// slice, which reads a `u32` length, then that many bytes, and fails when
/// the slice ends first: it succeeds exactly when the whole byte string is
/// there, returns its payload and consumes it.
#[verifier::external_body]
pub(crate) fn borsh_read_byte_vec(reader: &mut &[u8]) -> (r: Result<Vec<u8>, borsh::io::Error>)
    ensures
        r is Ok <==> holds_byte_vec(old(reader)@),
        r matches Ok(v) ==> v@ == byte_vec_payload(old(reader)@) && final(reader)@ == after_byte_vec(
            old(reader)@,
        ),
{
    Vec::<u8>::deserialize_reader(reader)
}

/// Writes `payload` as a borsh byte string: its length as a `u32`, then
/// the bytes. A payload too long for a `u32` length writes nothing.
pub fn write_byte_vec(payload: &[u8], writer: &mut Vec<u8>) -> (r: Result<(), CodecError>)
    ensures
        r is Ok <==> payload@.len() <= u32::MAX,
        r is Ok ==> final(writer)@ == old(writer)@ + byte_vec_frame(payload@),
        r matches Err(e) ==> e is Io && final(writer)@ == old(writer)@,
{
    match borsh_write_byte_vec(payload, writer) {
        Ok(()) => Ok(()),
        Err(e) => Err(CodecError::Io(e)),
    }
}

/// Reads a borsh byte string from the front of `reader`.
pub fn read_byte_vec(reader: &mut &[u8]) -> (r: Result<Vec<u8>, CodecError>)
    ensures
        r is Ok <==> holds_byte_vec(old(reader)@),
        r matches Err(e) ==> e is Io,
        r matches Ok(v) ==> v@ == byte_vec_payload(old(reader)@) && final(reader)@ == after_byte_vec(
            old(reader)@,
        ),
{
    match borsh_read_byte_vec(reader) {
        Ok(v) => Ok(v),
        Err(e) => Err(CodecError::Io(e)),
    }
}

/// A byte string reads back as itself from its own encoding, whatever
/// follows it.
pub proof fn lemma_byte_vec_roundtrip(payload: Seq<u8>, rest: Seq<u8>)
    requires
        payload.len() <= u32::MAX,
    ensures
        holds_byte_vec(byte_vec_frame(payload) + rest),
        byte_vec_payload(byte_vec_frame(payload) + rest) == payload,
        after_byte_vec(byte_vec_frame(payload) + rest) == rest,
{
    vstd::bytes::lemma_auto_spec_u32_to_from_le_bytes();
    let len = payload.len() as u32;
    let s = byte_vec_frame(payload) + rest;
    assert(s.take(4) =~= spec_u32_to_le_bytes(len));
    assert(announced_len(s) == payload.len());
    assert(byte_vec_payload(s) =~= payload);
    assert(after_byte_vec(s) =~= rest);
}

} // verus!
