//! Tendermint hashes and their borsh encoding: the digest bytes as a borsh
//! byte string, empty for the empty hash.
use vstd::prelude::*;
use crate::bytes::{
    after_byte_vec, byte_vec_frame, byte_vec_payload, holds_byte_vec, lemma_byte_vec_roundtrip,
    read_byte_vec, write_byte_vec,
};
use crate::error::{invalid_tendermint_data, CodecError};

verus! {

/// Bytes in a SHA-256 digest.
pub const SHA256_HASH_SIZE: usize = 32;

/// A Tendermint hash: a SHA-256 digest, or the empty hash.
#[derive(Clone, Copy, Debug, PartialEq, Eq)]
pub enum Hash {
    /// A SHA-256 digest.
    Sha256([u8; 32]),
    /// The empty hash.
    Empty,
}

/// The bytes of a hash: the digest, or nothing for the empty hash.
pub open spec fn hash_bytes(h: Hash) -> Seq<u8> {
    match h {
        Hash::Sha256(d) => d@,
        Hash::Empty => Seq::empty(),
    }
}

/// Whether Tendermint accepts `raw` as the bytes of a hash: no bytes for
/// the empty hash, or a SHA-256 digest.
pub open spec fn hash_size_ok(raw: Seq<u8>) -> bool {
    raw.len() == 0 || raw.len() == SHA256_HASH_SIZE
}

/// The borsh encoding of a hash.
pub open spec fn hash_encoding(h: Hash) -> Seq<u8> {
    byte_vec_frame(hash_bytes(h))
}

/// Calls `Vec::<u8>::from(tendermint::Hash)`, which copies the digest of a
/// SHA-256 hash and gives an empty vector for the empty hash.
#[verifier::external_body]
fn tm_hash_to_bytes(hash: &Hash) -> (r: Vec<u8>)
    ensures
        r@ == hash_bytes(*hash),
{
    let h = match hash {
        Hash::Sha256(d) => tendermint::Hash::Sha256(*d),
        Hash::Empty => tendermint::Hash::None,
    };
    Vec::from(h)
}

/// Calls `tendermint::Hash::try_from(Vec<u8>)`, which gives the empty hash
/// for no bytes, a SHA-256 hash holding the bytes for exactly 32 of them,
/// and an error otherwise.
#[verifier::external_body]
fn tm_hash_from_bytes(raw: Vec<u8>) -> (r: Result<Hash, tendermint::Error>)
    ensures
        r is Ok <==> hash_size_ok(raw@),
        r matches Ok(h) ==> hash_bytes(h) == raw@,
{
    match tendermint::Hash::try_from(raw) {
        Ok(tendermint::Hash::Sha256(d)) => Ok(Hash::Sha256(d)),
        Ok(tendermint::Hash::None) => Ok(Hash::Empty),
        Err(e) => Err(e),
    }
}

/// Writes `hash` in borsh: its bytes as a byte string.
pub fn serialize_hash(hash: &Hash, writer: &mut Vec<u8>) -> (r: Result<(), CodecError>)
    ensures
        r is Ok,
        final(writer)@ == old(writer)@ + hash_encoding(*hash),
{
    let raw = tm_hash_to_bytes(hash);
    write_byte_vec(raw.as_slice(), writer)
}

/// Reads a hash in borsh from the front of `reader`: a byte string that
/// Tendermint accepts as a hash when it is empty or 32 bytes long.
pub fn deserialize_hash(reader: &mut &[u8]) -> (r: Result<Hash, CodecError>)
    ensures
        !holds_byte_vec(old(reader)@) ==> (r matches Err(e) && e is Io),
        holds_byte_vec(old(reader)@) ==> (r is Ok <==> hash_size_ok(
            byte_vec_payload(old(reader)@),
        )),
        holds_byte_vec(old(reader)@) && r is Err ==> r->Err_0 is InvalidTendermintData,
        r matches Ok(h) ==> hash_bytes(h) == byte_vec_payload(old(reader)@) && final(reader)@
            == after_byte_vec(old(reader)@),
{
    let raw = read_byte_vec(reader)?;
    match tm_hash_from_bytes(raw) {
        Ok(h) => Ok(h),
        Err(e) => Err(invalid_tendermint_data(e)),
    }
}

/// Two hashes with the same bytes are the same hash.
pub proof fn lemma_hash_bytes_injective(a: Hash, b: Hash)
    requires
        hash_bytes(a) == hash_bytes(b),
    ensures
        a == b,
{
    match (a, b) {
        (Hash::Sha256(x), Hash::Sha256(y)) => {
            assert(x@ == y@);
            assert(x == y);
        },
        (Hash::Sha256(x), Hash::Empty) => {
            assert(x@.len() == 32);
        },
        (Hash::Empty, Hash::Sha256(y)) => {
            assert(y@.len() == 32);
        },
        (Hash::Empty, Hash::Empty) => {},
    }
}

/// A hash decodes back to itself from its own encoding, whatever bytes
/// follow, and the decoder consumes exactly the encoding: the payload read
/// is accepted, and the only hash with those bytes is the one written.
pub proof fn lemma_hash_roundtrip(h: Hash, rest: Seq<u8>)
    ensures
        ({
            let input = hash_encoding(h) + rest;
            &&& holds_byte_vec(input)
            &&& byte_vec_payload(input) == hash_bytes(h)
            &&& hash_size_ok(hash_bytes(h))
            &&& after_byte_vec(input) == rest
            &&& forall|g: Hash| hash_bytes(g) == byte_vec_payload(input) ==> g == h
        }),
{
    match h {
        Hash::Sha256(d) => {
            assert(d@.len() == 32);
        },
        Hash::Empty => {},
    }
    lemma_byte_vec_roundtrip(hash_bytes(h), rest);
    assert forall|g: Hash| hash_bytes(g) == hash_bytes(h) implies g == h by {
        lemma_hash_bytes_injective(g, h);
    }
}

} // verus!
