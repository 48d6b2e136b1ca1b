use ddrs::cache::{cache_error_message, decode_cache_file, encode_cache_file};
use ddrs::codec::encode_frame;
use ddrs::{Cache, CacheError, IpUpdate};

const V4_DOC: u32 = 0xCB00_7109; // 203.0.113.9
const V6_DOC: u128 = 0x2001_0db8_85a3_0000_0000_8a2e_0370_7334;

fn sample_records() -> Vec<IpUpdate> {
    vec![
        IpUpdate { v4: None, v6: None },
        IpUpdate { v4: Some(V4_DOC), v6: None },
        IpUpdate { v4: None, v6: Some(V6_DOC) },
        IpUpdate { v4: Some(V4_DOC), v6: Some(V6_DOC) },
        IpUpdate { v4: Some(0), v6: Some(0) },
        IpUpdate { v4: Some(u32::MAX), v6: Some(u128::MAX) },
    ]
}

#[test]
fn test_cache_new() {
    let cache = Cache::new("/tmp/test_cache");
    assert_eq!(cache.path(), "/tmp/test_cache/cache.ddrs");
}

#[test]
fn round_trip_every_record_shape() {
    for r in sample_records() {
        let bytes = encode_cache_file(&r);
        let back = decode_cache_file(&bytes);
        assert_eq!(back, Ok(r));
    }
}

#[test]
fn header_layout_is_fixed() {
    let r = IpUpdate { v4: Some(V4_DOC), v6: None };
    let bytes = encode_cache_file(&r);
    // magic, version 1, flags 0, payload length 5, all big-endian
    assert_eq!(&bytes[0..4], b"DDRS");
    assert_eq!(&bytes[4..6], &[0, 1]);
    assert_eq!(&bytes[6..8], &[0, 0]);
    assert_eq!(&bytes[8..12], &[0, 0, 0, 5]);
    assert_eq!(bytes.len(), 16 + 5 + 4);
    // the header checksum really is the CRC-32 of the first twelve bytes
    let crc = crc32fast::hash(&bytes[0..12]);
    assert_eq!(&bytes[12..16], &crc.to_be_bytes());
    let payload_crc = crc32fast::hash(&bytes[16..21]);
    assert_eq!(&bytes[21..25], &payload_crc.to_be_bytes());
}

#[test]
fn empty_file_is_truncated_header() {
    let err = decode_cache_file(&[]).unwrap_err();
    assert_eq!(err, CacheError::TruncatedHeader);
    assert_eq!(
        cache_error_message(&err),
        "Cache file is truncated: could not read complete header"
    );
}

#[test]
fn test_invalid_magic() {
    let r = IpUpdate { v4: Some(1), v6: None };
    let mut bytes = encode_cache_file(&r);
    bytes[0..4].copy_from_slice(b"BAD!");
    let err = decode_cache_file(&bytes).unwrap_err();
    assert_eq!(err, CacheError::BadMagic);
    assert!(cache_error_message(&err).starts_with("Invalid magic header"));
}

#[test]
fn test_invalid_version() {
    let r = IpUpdate { v4: Some(1), v6: None };
    let mut bytes = encode_cache_file(&r);
    bytes[4..6].copy_from_slice(&2u16.to_be_bytes());
    let err = decode_cache_file(&bytes).unwrap_err();
    assert_eq!(err, CacheError::BadVersion);
    assert_eq!(cache_error_message(&err), "Invalid cache file version");
}

#[test]
fn test_invalid_header_checksum() {
    let r = IpUpdate { v4: Some(1), v6: None };
    let mut bytes = encode_cache_file(&r);
    bytes[12] ^= 0xFF;
    let err = decode_cache_file(&bytes).unwrap_err();
    assert_eq!(err, CacheError::BadHeaderChecksum);
    assert!(cache_error_message(&err).contains("Invalid cache file header checksum"));
}

#[test]
fn test_invalid_data_checksum() {
    let r = IpUpdate { v4: Some(1), v6: None };
    let mut bytes = encode_cache_file(&r);
    let len = bytes.len();
    bytes[len - 4] ^= 0x01;
    let err = decode_cache_file(&bytes).unwrap_err();
    assert_eq!(err, CacheError::BadDataChecksum);
    assert!(cache_error_message(&err).contains("Invalid cache file data checksum"));
}

#[test]
fn every_single_bit_flip_is_detected() {
    let r = IpUpdate { v4: Some(V4_DOC), v6: Some(V6_DOC) };
    let original = encode_cache_file(&r);
    for byte in 0..original.len() {
        for bit in 0..8 {
            let mut bytes = original.clone();
            bytes[byte] ^= 1 << bit;
            let got = decode_cache_file(&bytes);
            let expected = if byte < 4 {
                CacheError::BadMagic
            } else if byte < 6 {
                CacheError::BadVersion
            } else if byte < 16 {
                // flags, length and the stored header checksum are all
                // covered by the header checksum
                CacheError::BadHeaderChecksum
            } else {
                // payload and its stored checksum are covered by the
                // payload checksum
                CacheError::BadDataChecksum
            };
            assert_eq!(got, Err(expected), "flip of byte {byte} bit {bit}");
        }
    }
}

#[test]
fn every_truncation_is_detected() {
    let r = IpUpdate { v4: Some(V4_DOC), v6: Some(V6_DOC) };
    let bytes = encode_cache_file(&r);
    for n in 0..bytes.len() {
        let got = decode_cache_file(&bytes[..n]);
        let expected = if n < 16 {
            CacheError::TruncatedHeader
        } else {
            CacheError::TruncatedBody
        };
        assert_eq!(got, Err(expected), "prefix of {n} bytes");
    }
}

#[test]
fn trailing_bytes_are_ignored() {
    let r = IpUpdate { v4: Some(V4_DOC), v6: None };
    let mut bytes = encode_cache_file(&r);
    bytes.push(0xEE);
    bytes.push(0xEE);
    assert_eq!(decode_cache_file(&bytes), Ok(r));
}

#[test]
fn framed_garbage_payload_is_bad_payload() {
    // a well-formed frame whose payload encodes no record
    let framed = encode_frame(&[9, 9]);
    let err = decode_cache_file(&framed).unwrap_err();
    assert_eq!(err, CacheError::BadPayload);
    assert_eq!(cache_error_message(&err), "Invalid cache file payload");
    // an empty payload is framed fine but encodes no record either
    let framed = encode_frame(&[]);
    assert_eq!(decode_cache_file(&framed), Err(CacheError::BadPayload));
}

#[test]
fn each_failure_has_its_own_message() {
    let cases = [
        (
            CacheError::TruncatedHeader,
            "Cache file is truncated: could not read complete header",
        ),
        (CacheError::BadMagic, "Invalid magic header"),
        (CacheError::BadVersion, "Invalid cache file version"),
        (CacheError::BadHeaderChecksum, "Invalid cache file header checksum"),
        (
            CacheError::TruncatedBody,
            "Cache file is truncated: could not read complete payload",
        ),
        (CacheError::BadDataChecksum, "Invalid cache file data checksum"),
        (CacheError::BadPayload, "Invalid cache file payload"),
    ];
    for (err, expected) in cases {
        assert_eq!(cache_error_message(&err), expected);
    }
}

#[test]
fn record_decode_rejects_wrong_lengths() {
    // tag says both families but bytes run short: no record
    let r = IpUpdate { v4: Some(1), v6: Some(2) };
    let payload = r.encode();
    assert_eq!(payload.len(), 21);
    assert_eq!(IpUpdate::decode(&payload), Some(r));
    assert_eq!(IpUpdate::decode(&payload[..20]), None);
    assert_eq!(IpUpdate::decode(&[]), None);
    assert_eq!(IpUpdate::decode(&[4]), None);
}
