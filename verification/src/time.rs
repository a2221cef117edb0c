//! Tendermint timestamps and their borsh encoding: the span of time since
//! the Unix epoch, encoded as a span of time.
use vstd::prelude::*;
use crate::duration::{
    Duration, decodable_without_overflow, decoded_duration, deserialize_duration, duration_bytes,
    duration_len, lemma_duration_roundtrip, serialize_duration, NANOS_PER_SEC,
};
use crate::error::{invalid_tendermint_data, CodecError};

verus! {

/// The first second that a Tendermint timestamp can hold,
/// 0001-01-01T00:00:00Z, in seconds since the Unix epoch.
pub const MIN_UNIX_SECS: i64 = -62135596800;

/// The last second that a Tendermint timestamp can hold,
/// 9999-12-31T23:59:59Z, in seconds since the Unix epoch.
pub const MAX_UNIX_SECS: i64 = 253402300799;

/// A Tendermint timestamp: seconds since the Unix epoch and the
/// nanoseconds into that second, within the range of protobuf timestamps.
#[derive(Clone, Copy, Debug)]
pub struct Time {
    pub(crate) secs: i64,
    pub(crate) nanos: u32,
}

/// Whether seconds and nanoseconds since the Unix epoch form a timestamp
/// that Tendermint accepts.
pub open spec fn valid_time_parts(v: (i64, u32)) -> bool {
    &&& v.1 < NANOS_PER_SEC
    &&& MIN_UNIX_SECS <= v.0 <= MAX_UNIX_SECS
}

/// The borsh encoding of a timestamp at or after the Unix epoch: the span
/// of time since the epoch.
pub open spec fn time_bytes(v: (i64, u32)) -> Seq<u8> {
    duration_bytes((v.0 as u64, v.1))
}

/// The timestamp that the front of `input` decodes to, or `None` where the
/// span of time that it holds lies beyond the last timestamp.
pub open spec fn time_from_bytes(input: Seq<u8>) -> Option<(i64, u32)> {
    let d = decoded_duration(input);
    if d.0 <= MAX_UNIX_SECS {
        Some((d.0 as i64, d.1))
    } else {
        None
    }
}

impl Time {
    #[verifier::type_invariant]
    spec fn in_range(self) -> bool {
        valid_time_parts((self.secs, self.nanos))
    }

    /// Seconds since the Unix epoch and nanoseconds into the second.
    pub closed spec fn parts(self) -> (i64, u32) {
        (self.secs, self.nanos)
    }

    /// The Unix epoch, 1970-01-01T00:00:00Z.
    pub fn unix_epoch() -> (r: Time)
        ensures
            r@ == (0i64, 0u32),
    {
        Time { secs: 0, nanos: 0 }
    }

    /// The timestamp `secs` seconds and `nanos` nanoseconds after the Unix
    /// epoch, where Tendermint accepts it.
    pub fn from_unix_timestamp(secs: i64, nanos: u32) -> (r: Result<Time, tendermint::Error>)
        ensures
            r is Ok <==> valid_time_parts((secs, nanos)),
            r matches Ok(t) ==> t@ == (secs, nanos),
    {
        tm_time_from_unix_timestamp(secs, nanos)
    }

    /// Seconds since the Unix epoch.
    pub fn unix_timestamp(&self) -> (r: i64)
        ensures
            r == self@.0,
            MIN_UNIX_SECS <= r <= MAX_UNIX_SECS,
    {
        proof {
            use_type_invariant(self);
        }
        self.secs
    }

    /// Nanoseconds into the second.
    pub fn subsec_nanos(&self) -> (r: u32)
        ensures
            r == self@.1,
            r < NANOS_PER_SEC,
    {
        proof {
            use_type_invariant(self);
        }
        self.nanos
    }
}

impl View for Time {
    type V = (i64, u32);

    open spec fn view(&self) -> (i64, u32) {
        self.parts()
    }
}

/// Calls `tendermint::Time::from_unix_timestamp`, which refuses nanoseconds
/// of a second or more and dates outside the years 1 to 9999 (the range of
/// protobuf timestamps), and otherwise builds the time with the seconds and
/// nanoseconds it was given.
#[verifier::external_body]
fn tm_time_from_unix_timestamp(secs: i64, nanos: u32) -> (r: Result<Time, tendermint::Error>)
    ensures
        r is Ok <==> valid_time_parts((secs, nanos)),
        r matches Ok(t) ==> t@ == (secs, nanos),
{
    match tendermint::Time::from_unix_timestamp(secs, nanos) {
        Ok(t) => {
            let ts = tendermint_proto::google::protobuf::Timestamp::from(t);
            Ok(Time { secs: ts.seconds, nanos: ts.nanos as u32 })
        },
        Err(e) => Err(e),
    }
}

/// Calls `tendermint::Time::duration_since` with the Unix epoch as the
/// earlier time. The difference is a signed span that converts to a
/// `core::time::Duration` only when it is not negative, so the call
/// succeeds exactly for times at or after the epoch, and then returns their
/// seconds and nanoseconds.
#[verifier::external_body]
fn tm_duration_since_unix_epoch(time: &Time) -> (r: Result<Duration, tendermint::Error>)
    requires
        valid_time_parts(time@),
    ensures
        r is Ok <==> time@.0 >= 0,
        r matches Ok(d) ==> d@ == (time@.0 as u64, time@.1),
{
    match tendermint::Time::from_unix_timestamp(time.secs, time.nanos) {
        Ok(t) => match t.duration_since(tendermint::Time::unix_epoch()) {
            Ok(d) => Ok(Duration { secs: d.as_secs(), nanos: d.subsec_nanos() }),
            Err(e) => Err(e),
        },
        Err(e) => Err(e),
    }
}

/// Calls `tendermint::Time::unix_epoch() + duration`. The sum fails where
/// it leaves the years 1 to 9999, so it succeeds exactly when the span does
/// not pass the last second of 9999, and then gives the timestamp with the
/// span's seconds and nanoseconds.
#[verifier::external_body]
fn tm_unix_epoch_plus(since: &Duration) -> (r: Result<Time, tendermint::Error>)
    requires
        since@.1 < NANOS_PER_SEC,
    ensures
        r is Ok <==> since@.0 <= MAX_UNIX_SECS,
        r matches Ok(t) ==> t@ == (since@.0 as i64, since@.1),
{
    match tendermint::Time::unix_epoch() + core::time::Duration::new(since.secs, since.nanos) {
        Ok(t) => {
            let ts = tendermint_proto::google::protobuf::Timestamp::from(t);
            Ok(Time { secs: ts.seconds, nanos: ts.nanos as u32 })
        },
        Err(e) => Err(e),
    }
}

/// Writes `time` in borsh as the span of time since the Unix epoch.
/// Tendermint refuses times before the epoch, and then nothing is written.
pub fn serialize_time(time: &Time, writer: &mut Vec<u8>) -> (r: Result<(), CodecError>)
    ensures
        r is Ok <==> time@.0 >= 0,
        r is Ok ==> final(writer)@ == old(writer)@ + time_bytes(time@),
        r matches Err(e) ==> e is InvalidTendermintData && final(writer)@ == old(writer)@,
{
    proof {
        use_type_invariant(time);
    }
    let since = match tm_duration_since_unix_epoch(time) {
        Ok(d) => d,
        Err(e) => {
            return Err(invalid_tendermint_data(e));
        },
    };
    serialize_duration(&since, writer)
}

/// Reads a timestamp in borsh from the front of `reader`: a span of time
/// since the Unix epoch. Tendermint refuses spans that pass the last
/// second of the year 9999.
pub fn deserialize_time(reader: &mut &[u8]) -> (r: Result<Time, CodecError>)
    requires
        decodable_without_overflow(old(reader)@),
    ensures
        old(reader)@.len() < duration_len() ==> (r matches Err(e) && e is Io),
        old(reader)@.len() >= duration_len() ==> (r is Ok <==> time_from_bytes(
            old(reader)@,
        ) is Some),
        old(reader)@.len() >= duration_len() && r is Err ==> r->Err_0 is InvalidTendermintData,
        r matches Ok(t) ==> Some(t@) == time_from_bytes(old(reader)@) && final(reader)@ == old(
            reader,
        )@.skip(12),
{
    let since = deserialize_duration(reader)?;
    match tm_unix_epoch_plus(&since) {
        Ok(t) => Ok(t),
        Err(e) => Err(invalid_tendermint_data(e)),
    }
}

/// A timestamp at or after the Unix epoch decodes back to itself from its
/// own encoding, whatever bytes follow, and the decoder consumes exactly
/// the encoding.
pub proof fn lemma_time_roundtrip(v: (i64, u32), rest: Seq<u8>)
    requires
        valid_time_parts(v),
        v.0 >= 0,
    ensures
        ({
            let input = time_bytes(v) + rest;
            &&& input.len() >= duration_len()
            &&& decodable_without_overflow(input)
            &&& time_from_bytes(input) == Some(v)
            &&& input.skip(12) == rest
        }),
{
    lemma_duration_roundtrip((v.0 as u64, v.1), rest);
}

} // verus!
