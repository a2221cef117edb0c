//! The error type shared by the encoders and decoders of this crate.
use vstd::prelude::*;

verus! {

/// `borsh::io::Error` (that is `std::io::Error`), returned by the borsh
/// readers and writers.
#[verifier::external_type_specification]
#[verifier::external_body]
pub struct ExIoError(borsh::io::Error);

/// `tendermint::Error`, returned when a value leaves the range that
/// Tendermint accepts.
#[verifier::external_type_specification]
#[verifier::external_body]
pub struct ExTendermintError(tendermint::Error);

/// `prost::DecodeError`, returned when bytes are not a protobuf message of
/// the expected type.
#[verifier::external_type_specification]
#[verifier::external_body]
pub struct ExDecodeError(prost::DecodeError);

/// `subtle_encoding::Error`, returned when text is not hexadecimal.
#[verifier::external_type_specification]
#[verifier::external_body]
pub struct ExHexError(subtle_encoding::Error);

/// Why an encoding or a decoding failed.
#[derive(Debug)]
pub enum CodecError {
    /// The borsh reader or writer failed: the input ended too early, or a
    /// byte string was too long for its `u32` length prefix.
    Io(borsh::io::Error),
    /// The bytes were read but Tendermint refused the value they describe.
    InvalidTendermintData(tendermint::Error),
    /// The bytes were read but are not a protobuf `ProofSpec`.
    InvalidProofSpec(prost::DecodeError),
}

/// Maps an error of Tendermint to the error of this crate, as the borsh
/// codecs report it: the value read is not valid Tendermint data.
pub(crate) fn invalid_tendermint_data(err: tendermint::Error) -> (r: CodecError)
    ensures
        r == CodecError::InvalidTendermintData(err),
{
    CodecError::InvalidTendermintData(err)
}

} // verus!
