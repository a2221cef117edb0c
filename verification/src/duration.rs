//! Spans of time as seconds and nanoseconds, and their borsh encoding: the
//! whole seconds as a `u64`, then the nanoseconds below a second as a
//! `u32`, both little-endian.
use vstd::prelude::*;
use vstd::bytes::{
    spec_u32_from_le_bytes, spec_u32_to_le_bytes, spec_u64_from_le_bytes, spec_u64_to_le_bytes,
};
use crate::bytes::{borsh_read_u32, borsh_read_u64, borsh_write_u32, borsh_write_u64};
use crate::error::CodecError;

verus! {

/// Nanoseconds in one second.
pub const NANOS_PER_SEC: u32 = 1_000_000_000;

/// A span of time: whole seconds and the nanoseconds below a second, as
/// `core::time::Duration` holds it.
#[derive(Clone, Copy, Debug)]
pub struct Duration {
    pub(crate) secs: u64,
    pub(crate) nanos: u32,
}

/// Whether `Duration::new(secs, nanos)` can carry the whole seconds held
/// in `nanos` into `secs` without overflow.
pub open spec fn carry_fits(secs: u64, nanos: u32) -> bool {
    secs + nanos / NANOS_PER_SEC <= u64::MAX
}

/// The seconds and nanoseconds of `Duration::new(secs, nanos)`.
pub open spec fn normalized(secs: u64, nanos: u32) -> (u64, u32) {
    ((secs + nanos / NANOS_PER_SEC) as u64, (nanos % NANOS_PER_SEC) as u32)
}

/// Whether a pair of seconds and nanoseconds is a valid span of time.
pub open spec fn valid_parts(v: (u64, u32)) -> bool {
    v.1 < NANOS_PER_SEC
}

/// The borsh encoding of a span of time.
pub open spec fn duration_bytes(v: (u64, u32)) -> Seq<u8> {
    spec_u64_to_le_bytes(v.0) + spec_u32_to_le_bytes(v.1)
}

/// Bytes in the borsh encoding of a span of time.
pub open spec fn duration_len() -> nat {
    12
}

/// The seconds field at the start of `input`.
pub open spec fn secs_field(input: Seq<u8>) -> u64 {
    spec_u64_from_le_bytes(input.take(8))
}

/// The nanoseconds field that follows the seconds at the start of `input`.
pub open spec fn nanos_field(input: Seq<u8>) -> u32 {
    spec_u32_from_le_bytes(input.subrange(8, 12))
}

/// Whether decoding a span of time from `input` stays clear of the
/// overflow on which `Duration::new` panics: always so when `input` is too
/// short to hold one.
pub open spec fn decodable_without_overflow(input: Seq<u8>) -> bool {
    input.len() >= duration_len() ==> carry_fits(secs_field(input), nanos_field(input))
}

/// The span of time that the first twelve bytes of `input` decode to.
pub open spec fn decoded_duration(input: Seq<u8>) -> (u64, u32) {
    normalized(secs_field(input), nanos_field(input))
}

impl Duration {
    #[verifier::type_invariant]
    spec fn nanos_below_a_second(self) -> bool {
        self.nanos < NANOS_PER_SEC
    }

    /// The whole seconds and the nanoseconds below a second.
    pub closed spec fn parts(self) -> (u64, u32) {
        (self.secs, self.nanos)
    }

    /// Builds a span of `secs` seconds and `nanos` nanoseconds; nanoseconds
    /// of a second or more carry into the seconds.
    pub fn new(secs: u64, nanos: u32) -> (r: Duration)
        requires
            carry_fits(secs, nanos),
        ensures
            r@ == normalized(secs, nanos),
    {
        let extra: u64 = (nanos / NANOS_PER_SEC) as u64;
        Duration { secs: secs + extra, nanos: nanos % NANOS_PER_SEC }
    }

    /// The whole seconds.
    pub fn as_secs(&self) -> (r: u64)
        ensures
            r == self@.0,
    {
        self.secs
    }

    /// The nanoseconds below a second.
    pub fn subsec_nanos(&self) -> (r: u32)
        ensures
            r == self@.1,
            r < NANOS_PER_SEC,
    {
        proof {
            use_type_invariant(self);
        }
        self.nanos
    }
}

impl View for Duration {
    type V = (u64, u32);

    open spec fn view(&self) -> (u64, u32) {
        self.parts()
    }
}

/// Writes `period` in borsh: its whole seconds as a `u64`, then its
/// nanoseconds below a second as a `u32`.
pub fn serialize_duration(period: &Duration, writer: &mut Vec<u8>) -> (r: Result<(), CodecError>)
    ensures
        r is Ok,
        final(writer)@ == old(writer)@ + duration_bytes(period@),
        valid_parts(period@),
{
    let secs: u64 = period.as_secs();
    let nanos: u32 = period.subsec_nanos();
    match borsh_write_u64(secs, writer) {
        Ok(()) => {},
        Err(e) => {
            return Err(CodecError::Io(e));
        },
    }
    match borsh_write_u32(nanos, writer) {
        Ok(()) => {},
        Err(e) => {
            return Err(CodecError::Io(e));
        },
    }
    assert(final(writer)@ =~= old(writer)@ + duration_bytes(period@));
    Ok(())
}

/// Reads a span of time in borsh from the front of `reader`: a `u64` of
/// seconds, then a `u32` of nanoseconds, which carry into the seconds where
/// they reach a whole second.
pub fn deserialize_duration(reader: &mut &[u8]) -> (r: Result<Duration, CodecError>)
    requires
        decodable_without_overflow(old(reader)@),
    ensures
        r is Ok <==> old(reader)@.len() >= duration_len(),
        r matches Err(e) ==> e is Io,
        r matches Ok(d) ==> d@ == decoded_duration(old(reader)@) && final(reader)@ == old(
            reader,
        )@.skip(12),
{
    let ghost start = reader@;
    let secs: u64 = match borsh_read_u64(reader) {
        Ok(v) => v,
        Err(e) => {
            return Err(CodecError::Io(e));
        },
    };
    assert(reader@ == start.skip(8));
    let nanos: u32 = match borsh_read_u32(reader) {
        Ok(v) => v,
        Err(e) => {
            return Err(CodecError::Io(e));
        },
    };
    assert(start.skip(8).take(4) =~= start.subrange(8, 12));
    assert(start.skip(8).skip(4) =~= start.skip(12));
    Ok(Duration::new(secs, nanos))
}

/// Whether decoding a span of time from the front of `input` stays clear
/// of the carry overflow on which `Duration::new` panics; a caller that
/// cannot prove it beforehand tests it here.
pub fn decodes_without_overflow(input: &[u8]) -> (r: bool)
    ensures
        r == decodable_without_overflow(input@),
{
    let mut rest: &[u8] = input;
    let secs: u64 = match borsh_read_u64(&mut rest) {
        Ok(v) => v,
        Err(_) => {
            return true;
        },
    };
    let nanos: u32 = match borsh_read_u32(&mut rest) {
        Ok(v) => v,
        Err(_) => {
            return true;
        },
    };
    assert(input@.skip(8).take(4) =~= input@.subrange(8, 12));
    let carry: u64 = (nanos / NANOS_PER_SEC) as u64;
    secs <= u64::MAX - carry
}

/// Building a span with `Duration::new` keeps its length: the whole
/// seconds carried out of the nanoseconds add to the seconds, and what is
/// left is below a second.
pub proof fn lemma_normalized_keeps_length(secs: u64, nanos: u32)
    requires
        carry_fits(secs, nanos),
    ensures
        normalized(secs, nanos).0 as int * NANOS_PER_SEC as int + normalized(secs, nanos).1 as int
            == secs as int * NANOS_PER_SEC as int + nanos as int,
        valid_parts(normalized(secs, nanos)),
{
    let q: int = nanos as int / NANOS_PER_SEC as int;
    let r: int = nanos as int % NANOS_PER_SEC as int;
    assert(nanos as int == q * 1_000_000_000 + r);
    assert((secs as int + q) * 1_000_000_000 == secs as int * 1_000_000_000 + q * 1_000_000_000)
        by (nonlinear_arith);
}

/// A span of time decodes back to itself from its own encoding, whatever
/// bytes follow, and the decoder consumes exactly the encoding.
pub proof fn lemma_duration_roundtrip(v: (u64, u32), rest: Seq<u8>)
    requires
        valid_parts(v),
    ensures
        ({
            let input = duration_bytes(v) + rest;
            &&& input.len() >= duration_len()
            &&& decodable_without_overflow(input)
            &&& decoded_duration(input) == v
            &&& input.skip(12) == rest
        }),
{
    vstd::bytes::lemma_auto_spec_u64_to_from_le_bytes();
    vstd::bytes::lemma_auto_spec_u32_to_from_le_bytes();
    let input = duration_bytes(v) + rest;
    assert(input.take(8) =~= spec_u64_to_le_bytes(v.0));
    assert(input.subrange(8, 12) =~= spec_u32_to_le_bytes(v.1));
    assert(input.skip(12) =~= rest);
}

/// Decoding a span of time whose nanoseconds are below a second, then
/// encoding it again, gives back the bytes that were read.
pub proof fn lemma_duration_bytes_canonical(input: Seq<u8>)
    requires
        input.len() >= duration_len(),
        nanos_field(input) < NANOS_PER_SEC,
    ensures
        decodable_without_overflow(input),
        duration_bytes(decoded_duration(input)) == input.take(12),
{
    vstd::bytes::lemma_auto_spec_u64_to_from_le_bytes();
    vstd::bytes::lemma_auto_spec_u32_to_from_le_bytes();
    let a = input.take(8);
    let b = input.subrange(8, 12);
    assert(spec_u64_to_le_bytes(spec_u64_from_le_bytes(a)) == a);
    assert(spec_u32_to_le_bytes(spec_u32_from_le_bytes(b)) == b);
    assert(input.take(12) =~= a + b);
}

} // verus!
