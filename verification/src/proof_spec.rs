//! ICS-23 proof specs in borsh: the protobuf encoding of the spec, framed
//! as a borsh byte string.
use vstd::prelude::*;
use prost::Message;
use crate::bytes::{
    after_byte_vec, byte_vec_frame, byte_vec_payload, holds_byte_vec, lemma_byte_vec_roundtrip,
    read_byte_vec, write_byte_vec,
};
use crate::error::CodecError;

verus! {

/// `ics23::ProofSpec`, the layout of a Merkle tree that proofs are checked
/// against.
#[verifier::external_type_specification]
#[verifier::external_body]
pub struct ExProofSpec(ics23::ProofSpec);

/// The protobuf encoding of `spec`, as `prost::Message::encode_to_vec`
/// gives it.
pub uninterp spec fn proof_spec_encoding(spec: ics23::ProofSpec) -> Seq<u8>;

/// Whether `ProofSpec::decode` accepts `raw`.
pub uninterp spec fn proof_spec_decodes(raw: Seq<u8>) -> bool;

/// The spec that `ProofSpec::decode` builds from `raw`, where it accepts it.
pub uninterp spec fn proof_spec_decoded(raw: Seq<u8>) -> ics23::ProofSpec;

/// Calls `prost::Message::encode_to_vec` on a `ProofSpec`. The bytes are
/// the encoding named by `proof_spec_encoding`. A `ProofSpec` holds only
/// integers, booleans, byte strings, enumerations, repeated integers and
/// optional sub-messages, all of which prost writes so that its decoder
/// reads the same values back: decoding the encoding succeeds and gives an
/// equal spec.
#[verifier::external_body]
fn proof_spec_encode(spec: &ics23::ProofSpec) -> (r: Vec<u8>)
    ensures
        r@ == proof_spec_encoding(*spec),
        proof_spec_decodes(r@),
        proof_spec_decoded(r@) == *spec,
{
    spec.encode_to_vec()
}

/// Calls `prost::Message::decode` for a `ProofSpec` on a byte slice. It
/// succeeds exactly when the bytes decode, and then returns the spec named
/// by `proof_spec_decoded`.
#[verifier::external_body]
fn proof_spec_decode(raw: &[u8]) -> (r: Result<ics23::ProofSpec, prost::DecodeError>)
    ensures
        r is Ok <==> proof_spec_decodes(raw@),
        r matches Ok(s) ==> s == proof_spec_decoded(raw@),
{
    ics23::ProofSpec::decode(raw)
}

/// The borsh encoding of `spec`: its protobuf encoding as a byte string.
pub open spec fn spec_bytes(spec: ics23::ProofSpec) -> Seq<u8> {
    byte_vec_frame(proof_spec_encoding(spec))
}

/// The spec at the front of `input` and the bytes after it, or `None`
/// where `input` does not start with a byte string that decodes as a spec.
pub open spec fn spec_from_bytes(input: Seq<u8>) -> Option<(ics23::ProofSpec, Seq<u8>)> {
    if holds_byte_vec(input) && proof_spec_decodes(byte_vec_payload(input)) {
        Some((proof_spec_decoded(byte_vec_payload(input)), after_byte_vec(input)))
    } else {
        None
    }
}

/// Writes `spec` in borsh as its protobuf encoding, framed as a byte
/// string. An encoding too long for a `u32` length writes nothing. What is
/// written reads back as the same spec, whatever bytes follow it.
pub fn serialize_spec(spec: &ics23::ProofSpec, writer: &mut Vec<u8>) -> (r: Result<(), CodecError>)
    ensures
        r is Ok <==> proof_spec_encoding(*spec).len() <= u32::MAX,
        r is Ok ==> final(writer)@ == old(writer)@ + spec_bytes(*spec),
        r is Ok ==> forall|rest: Seq<u8>|
            #[trigger] spec_from_bytes(spec_bytes(*spec) + rest) == Some((*spec, rest)),
        r matches Err(e) ==> e is Io && final(writer)@ == old(writer)@,
{
    let encoded = proof_spec_encode(spec);
    let r = write_byte_vec(encoded.as_slice(), writer);
    proof {
        if r is Ok {
            assert forall|rest: Seq<u8>|
                #[trigger] spec_from_bytes(spec_bytes(*spec) + rest) == Some((*spec, rest)) by {
                lemma_byte_vec_roundtrip(proof_spec_encoding(*spec), rest);
            }
        }
    }
    r
}

/// Reads a spec in borsh from the front of `reader`: a byte string that
/// must hold the protobuf encoding of a `ProofSpec`.
pub fn deserialize_spec(reader: &mut &[u8]) -> (r: Result<ics23::ProofSpec, CodecError>)
    ensures
        !holds_byte_vec(old(reader)@) ==> (r matches Err(e) && e is Io),
        holds_byte_vec(old(reader)@) && r is Err ==> r->Err_0 is InvalidProofSpec,
        r is Ok <==> spec_from_bytes(old(reader)@) is Some,
        r matches Ok(s) ==> spec_from_bytes(old(reader)@) == Some((s, final(reader)@)),
{
    let raw = read_byte_vec(reader)?;
    match proof_spec_decode(raw.as_slice()) {
        Ok(spec) => Ok(spec),
        Err(e) => Err(CodecError::InvalidProofSpec(e)),
    }
}

} // verus!
