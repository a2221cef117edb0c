use ibc_event_codec::duration::{decodes_without_overflow, deserialize_duration, serialize_duration, Duration};
use ibc_event_codec::error::CodecError;
use ibc_event_codec::hash::{deserialize_hash, serialize_hash};
use ibc_event_codec::proof_spec::{deserialize_spec, serialize_spec};
use ibc_event_codec::time::{deserialize_time, serialize_time, Time, MAX_UNIX_SECS, MIN_UNIX_SECS};

#[test]
fn serialize_duration_writes_secs_then_nanos_little_endian() {
    let mut out = vec![0xaa];
    serialize_duration(&Duration::new(1, 500), &mut out).unwrap();
    assert_eq!(out, vec![0xaa, 1, 0, 0, 0, 0, 0, 0, 0, 0xf4, 1, 0, 0]);
    let expected = borsh::to_vec(&(1u64, 500u32)).unwrap();
    assert_eq!(&out[1..], &expected[..]);
}

#[test]
fn duration_roundtrip_leaves_trailing_bytes() {
    let d = Duration::new(123_456_789_012, 999_999_999);
    let mut out = Vec::new();
    serialize_duration(&d, &mut out).unwrap();
    out.extend_from_slice(&[7, 8, 9]);
    let mut reader: &[u8] = &out;
    let back = deserialize_duration(&mut reader).unwrap();
    assert_eq!(back.as_secs(), 123_456_789_012);
    assert_eq!(back.subsec_nanos(), 999_999_999);
    assert_eq!(reader, &[7, 8, 9]);
}

#[test]
fn deserialize_duration_carries_whole_seconds() {
    let bytes = borsh::to_vec(&(1u64, 1_500_000_000u32)).unwrap();
    let mut reader: &[u8] = &bytes;
    let d = deserialize_duration(&mut reader).unwrap();
    assert_eq!(d.as_secs(), 2);
    assert_eq!(d.subsec_nanos(), 500_000_000);
    assert!(reader.is_empty());
}

#[test]
fn duration_new_carries_whole_seconds() {
    let d = Duration::new(5, 3_000_000_001);
    assert_eq!(d.as_secs(), 8);
    assert_eq!(d.subsec_nanos(), 1);
}

#[test]
fn deserialize_duration_of_short_input_fails() {
    for len in 0..12 {
        let bytes = vec![0u8; len];
        let mut reader: &[u8] = &bytes;
        assert!(matches!(deserialize_duration(&mut reader), Err(CodecError::Io(_))));
    }
}

#[test]
fn serialize_epoch_is_zero_duration() {
    let mut out = Vec::new();
    serialize_time(&Time::unix_epoch(), &mut out).unwrap();
    assert_eq!(out, vec![0u8; 12]);
}

#[test]
fn time_roundtrip() {
    let t = Time::from_unix_timestamp(1_725_029_869, 123_456_789).unwrap();
    let mut out = Vec::new();
    serialize_time(&t, &mut out).unwrap();
    assert_eq!(out, borsh::to_vec(&(1_725_029_869u64, 123_456_789u32)).unwrap());
    let mut reader: &[u8] = &out;
    let back = deserialize_time(&mut reader).unwrap();
    assert_eq!(back.unix_timestamp(), 1_725_029_869);
    assert_eq!(back.subsec_nanos(), 123_456_789);
    assert!(reader.is_empty());
}

#[test]
fn time_before_epoch_is_refused() {
    let t = Time::from_unix_timestamp(-1, 0).unwrap();
    let mut out = vec![1, 2];
    let r = serialize_time(&t, &mut out);
    assert!(matches!(r, Err(CodecError::InvalidTendermintData(_))));
    assert_eq!(out, vec![1, 2]);
}

#[test]
fn time_range_is_that_of_tendermint() {
    assert!(Time::from_unix_timestamp(MIN_UNIX_SECS, 0).is_ok());
    assert!(Time::from_unix_timestamp(MIN_UNIX_SECS - 1, 999_999_999).is_err());
    assert!(Time::from_unix_timestamp(MAX_UNIX_SECS, 999_999_999).is_ok());
    assert!(Time::from_unix_timestamp(MAX_UNIX_SECS + 1, 0).is_err());
    assert!(Time::from_unix_timestamp(0, 1_000_000_000).is_err());
}

#[test]
fn deserialize_time_past_year_9999_is_refused() {
    let last = borsh::to_vec(&(MAX_UNIX_SECS as u64, 999_999_999u32)).unwrap();
    let mut reader: &[u8] = &last;
    let t = deserialize_time(&mut reader).unwrap();
    assert_eq!(t.unix_timestamp(), MAX_UNIX_SECS);
    let beyond = borsh::to_vec(&(MAX_UNIX_SECS as u64 + 1, 0u32)).unwrap();
    let mut reader: &[u8] = &beyond;
    assert!(matches!(deserialize_time(&mut reader), Err(CodecError::InvalidTendermintData(_))));
}

#[test]
fn deserialize_time_of_short_input_fails() {
    let bytes = vec![0u8; 11];
    let mut reader: &[u8] = &bytes;
    assert!(matches!(deserialize_time(&mut reader), Err(CodecError::Io(_))));
}

#[test]
fn hash_roundtrip() {
    let digest: [u8; 32] = core::array::from_fn(|i| i as u8);
    let mut out = Vec::new();
    serialize_hash(&ibc_event_codec::hash::Hash::Sha256(digest), &mut out).unwrap();
    assert_eq!(out.len(), 36);
    assert_eq!(&out[..4], &[32, 0, 0, 0]);
    assert_eq!(&out[4..], &digest[..]);
    out.push(0x55);
    let mut reader: &[u8] = &out;
    assert_eq!(deserialize_hash(&mut reader).unwrap(), ibc_event_codec::hash::Hash::Sha256(digest));
    assert_eq!(reader, &[0x55]);
}

#[test]
fn empty_hash_is_an_empty_byte_string() {
    let mut out = Vec::new();
    serialize_hash(&ibc_event_codec::hash::Hash::Empty, &mut out).unwrap();
    assert_eq!(out, vec![0, 0, 0, 0]);
    let mut reader: &[u8] = &out;
    assert_eq!(deserialize_hash(&mut reader).unwrap(), ibc_event_codec::hash::Hash::Empty);
}

#[test]
fn hash_of_wrong_size_is_refused() {
    let bytes = borsh::to_vec(&vec![1u8, 2, 3, 4, 5]).unwrap();
    let mut reader: &[u8] = &bytes;
    assert!(matches!(deserialize_hash(&mut reader), Err(CodecError::InvalidTendermintData(_))));
}

#[test]
fn truncated_hash_is_an_io_error() {
    let bytes = vec![32u8, 0, 0, 0, 1, 2, 3];
    let mut reader: &[u8] = &bytes;
    assert!(matches!(deserialize_hash(&mut reader), Err(CodecError::Io(_))));
    let bytes = vec![1u8, 0];
    let mut reader: &[u8] = &bytes;
    assert!(matches!(deserialize_hash(&mut reader), Err(CodecError::Io(_))));
}

#[test]
fn proof_spec_roundtrip() {
    let spec = ics23::iavl_spec();
    let mut out = Vec::new();
    serialize_spec(&spec, &mut out).unwrap();
    let payload = prost::Message::encode_to_vec(&spec);
    assert_eq!(out, borsh::to_vec(&payload).unwrap());
    let mut reader: &[u8] = &out;
    let back = deserialize_spec(&mut reader).unwrap();
    assert_eq!(back, spec);
    assert!(reader.is_empty());
}

#[test]
fn proof_spec_of_garbage_is_refused() {
    let bytes = borsh::to_vec(&vec![0xffu8, 0xff, 0xff]).unwrap();
    let mut reader: &[u8] = &bytes;
    assert!(matches!(deserialize_spec(&mut reader), Err(CodecError::InvalidProofSpec(_))));
    let bytes = vec![9u8, 0, 0, 0, 1];
    let mut reader: &[u8] = &bytes;
    assert!(matches!(deserialize_spec(&mut reader), Err(CodecError::Io(_))));
}

#[test]
fn decoded_duration_reencodes_to_the_same_bytes() {
    let bytes: Vec<u8> = vec![0x15, 0xcd, 0x5b, 0x07, 0, 0, 0, 0, 0xff, 0xc9, 0x9a, 0x3b];
    let mut reader: &[u8] = &bytes;
    let d = deserialize_duration(&mut reader).unwrap();
    let mut out = Vec::new();
    serialize_duration(&d, &mut out).unwrap();
    assert_eq!(out, bytes);
}

#[test]
fn carry_overflow_is_detected_before_decoding() {
    let overflowing = borsh::to_vec(&(u64::MAX, 1_000_000_000u32)).unwrap();
    assert!(!decodes_without_overflow(&overflowing));
    let fitting = borsh::to_vec(&(u64::MAX, 999_999_999u32)).unwrap();
    assert!(decodes_without_overflow(&fitting));
    assert!(decodes_without_overflow(&[1, 2, 3]));
}

#[test]
fn default_proof_spec_is_an_empty_byte_string() {
    let mut out = Vec::new();
    serialize_spec(&ics23::ProofSpec::default(), &mut out).unwrap();
    assert_eq!(out, vec![0u8, 0, 0, 0]);
    let mut reader: &[u8] = &out;
    assert_eq!(deserialize_spec(&mut reader).unwrap(), ics23::ProofSpec::default());
}
