//! The on-disk cache format: a fixed 16-byte header, the encoded address
//! record as payload, and a trailing checksum, every multi-byte field
//! big-endian. Encoding and decoding are verified against spec-level
//! definitions of the byte layout; the CRC-32 itself comes from the
//! `crc32fast` crate behind one trusted wrapper.

use vstd::prelude::*;
use vstd::slice::slice_subrange;
use vstd::slice::slice_to_vec;

verus! {

/// Format version the engine writes and accepts; any other version fails the
/// read rather than being silently treated as empty or downgraded.
pub const FORMAT_VERSION: u16 = 1;

/// Reserved flags field, currently always written as zero.
pub const FORMAT_FLAGS: u16 = 0;

/// Size of the fixed header in bytes.
pub const HEADER_SIZE: usize = 16;

/// The magic bytes that open every cache file: the ASCII of "DDRS".
pub open spec fn spec_magic() -> Seq<u8> {
    seq![0x44u8, 0x44u8, 0x52u8, 0x53u8]
}

/// The IEEE CRC-32 of a byte sequence, as `crc32fast` computes it. The value
/// is a function of the bytes alone; nothing more is assumed of it.
pub uninterp spec fn crc32_of(bytes: Seq<u8>) -> u32;

/// Relies on crc32fast::hash: the IEEE CRC-32 of the bytes, a function of the
/// bytes alone.
#[verifier::external_body]
fn crc32(bytes: &[u8]) -> (r: u32)
    ensures
        r == crc32_of(bytes@),
{
    crc32fast::hash(bytes)
}

/// A 16-bit value as its two big-endian bytes.
pub open spec fn spec_u16_be(x: u16) -> Seq<u8> {
    seq![(x >> 8) as u8, (x & 0xff) as u8]
}

/// A 32-bit value as its four big-endian bytes.
pub open spec fn spec_u32_be(x: u32) -> Seq<u8> {
    seq![
        ((x >> 24) & 0xff) as u8,
        ((x >> 16) & 0xff) as u8,
        ((x >> 8) & 0xff) as u8,
        (x & 0xff) as u8,
    ]
}

/// A 128-bit value as its sixteen big-endian bytes.
pub open spec fn spec_u128_be(x: u128) -> Seq<u8> {
    seq![
        ((x >> 120) & 0xff) as u8,
        ((x >> 112) & 0xff) as u8,
        ((x >> 104) & 0xff) as u8,
        ((x >> 96) & 0xff) as u8,
        ((x >> 88) & 0xff) as u8,
        ((x >> 80) & 0xff) as u8,
        ((x >> 72) & 0xff) as u8,
        ((x >> 64) & 0xff) as u8,
        ((x >> 56) & 0xff) as u8,
        ((x >> 48) & 0xff) as u8,
        ((x >> 40) & 0xff) as u8,
        ((x >> 32) & 0xff) as u8,
        ((x >> 24) & 0xff) as u8,
        ((x >> 16) & 0xff) as u8,
        ((x >> 8) & 0xff) as u8,
        (x & 0xff) as u8,
    ]
}

/// The 16-bit value read from two big-endian bytes.
pub open spec fn spec_u16_from_be(b0: u8, b1: u8) -> u16 {
    ((b0 as u16) << 8) | (b1 as u16)
}

/// The 32-bit value read from four big-endian bytes.
pub open spec fn spec_u32_from_be(b0: u8, b1: u8, b2: u8, b3: u8) -> u32 {
    ((b0 as u32) << 24) | ((b1 as u32) << 16) | ((b2 as u32) << 8) | (b3 as u32)
}

/// Reading the big-endian bytes of a 16-bit value gives the value back.
pub proof fn lemma_u16_be_round_trip(x: u16)
    ensures
        spec_u16_from_be(spec_u16_be(x)[0], spec_u16_be(x)[1]) == x,
{
    assert((((x >> 8) as u8 as u16) << 8) | ((x & 0xff) as u8 as u16) == x) by (bit_vector);
}

/// Reading the big-endian bytes of a 32-bit value gives the value back.
pub proof fn lemma_u32_be_round_trip(x: u32)
    ensures
        spec_u32_from_be(
            spec_u32_be(x)[0],
            spec_u32_be(x)[1],
            spec_u32_be(x)[2],
            spec_u32_be(x)[3],
        ) == x,
{
    assert((((((x >> 24) & 0xff) as u8) as u32) << 24) | (((((x >> 16) & 0xff) as u8) as u32)
        << 16) | (((((x >> 8) & 0xff) as u8) as u32) << 8) | (((x & 0xff) as u8) as u32) == x)
        by (bit_vector);
}

/// Appends the two big-endian bytes of a 16-bit value.
pub fn push_u16_be(out: &mut Vec<u8>, x: u16)
    ensures
        final(out)@ == old(out)@ + spec_u16_be(x),
{
    out.push((x >> 8) as u8);
    out.push((x & 0xff) as u8);
    proof {
        assert(out@ =~= old(out)@ + spec_u16_be(x));
    }
}

/// Appends the four big-endian bytes of a 32-bit value.
pub fn push_u32_be(out: &mut Vec<u8>, x: u32)
    ensures
        final(out)@ == old(out)@ + spec_u32_be(x),
{
    out.push(((x >> 24) & 0xff) as u8);
    out.push(((x >> 16) & 0xff) as u8);
    out.push(((x >> 8) & 0xff) as u8);
    out.push((x & 0xff) as u8);
    proof {
        assert(out@ =~= old(out)@ + spec_u32_be(x));
    }
}

/// Reads a 16-bit big-endian value.
pub fn read_u16_be(b0: u8, b1: u8) -> (x: u16)
    ensures
        x == spec_u16_from_be(b0, b1),
{
    ((b0 as u16) << 8) | (b1 as u16)
}

/// Reads a 32-bit big-endian value.
pub fn read_u32_be(b0: u8, b1: u8, b2: u8, b3: u8) -> (x: u32)
    ensures
        x == spec_u32_from_be(b0, b1, b2, b3),
{
    ((b0 as u32) << 24) | ((b1 as u32) << 16) | ((b2 as u32) << 8) | (b3 as u32)
}

/// The 128-bit value read from sixteen big-endian bytes.
pub open spec fn spec_u128_from_be(s: Seq<u8>) -> u128
    recommends
        s.len() == 16,
{
    ((s[0] as u128) << 120) | ((s[1] as u128) << 112) | ((s[2] as u128) << 104) | ((s[3] as u128)
        << 96) | ((s[4] as u128) << 88) | ((s[5] as u128) << 80) | ((s[6] as u128) << 72) | ((
    s[7] as u128) << 64) | ((s[8] as u128) << 56) | ((s[9] as u128) << 48) | ((s[10] as u128)
        << 40) | ((s[11] as u128) << 32) | ((s[12] as u128) << 24) | ((s[13] as u128) << 16) | ((
    s[14] as u128) << 8) | (s[15] as u128)
}

/// Reading the big-endian bytes of a 128-bit value gives the value back.
pub proof fn lemma_u128_be_round_trip(x: u128)
    ensures
        spec_u128_from_be(spec_u128_be(x)) == x,
{
    assert((((((x >> 120) & 0xff) as u8) as u128) << 120) | (((((x >> 112) & 0xff) as u8) as u128)
        << 112) | (((((x >> 104) & 0xff) as u8) as u128) << 104) | (((((x >> 96) & 0xff) as u8)
        as u128) << 96) | (((((x >> 88) & 0xff) as u8) as u128) << 88) | (((((x >> 80)
        & 0xff) as u8) as u128) << 80) | (((((x >> 72) & 0xff) as u8) as u128) << 72) | (((((x
        >> 64) & 0xff) as u8) as u128) << 64) | (((((x >> 56) & 0xff) as u8) as u128) << 56) | ((
    (((x >> 48) & 0xff) as u8) as u128) << 48) | (((((x >> 40) & 0xff) as u8) as u128) << 40) | ((
    (((x >> 32) & 0xff) as u8) as u128) << 32) | (((((x >> 24) & 0xff) as u8) as u128) << 24) | ((
    (((x >> 16) & 0xff) as u8) as u128) << 16) | (((((x >> 8) & 0xff) as u8) as u128) << 8) | (((x
        & 0xff) as u8) as u128) == x) by (bit_vector);
}

/// Appends the sixteen big-endian bytes of a 128-bit value.
pub fn push_u128_be(out: &mut Vec<u8>, x: u128)
    ensures
        final(out)@ == old(out)@ + spec_u128_be(x),
{
    out.push(((x >> 120) & 0xff) as u8);
    out.push(((x >> 112) & 0xff) as u8);
    out.push(((x >> 104) & 0xff) as u8);
    out.push(((x >> 96) & 0xff) as u8);
    out.push(((x >> 88) & 0xff) as u8);
    out.push(((x >> 80) & 0xff) as u8);
    out.push(((x >> 72) & 0xff) as u8);
    out.push(((x >> 64) & 0xff) as u8);
    out.push(((x >> 56) & 0xff) as u8);
    out.push(((x >> 48) & 0xff) as u8);
    out.push(((x >> 40) & 0xff) as u8);
    out.push(((x >> 32) & 0xff) as u8);
    out.push(((x >> 24) & 0xff) as u8);
    out.push(((x >> 16) & 0xff) as u8);
    out.push(((x >> 8) & 0xff) as u8);
    out.push((x & 0xff) as u8);
    proof {
        assert(out@ =~= old(out)@ + spec_u128_be(x));
    }
}

/// Reads a 128-bit big-endian value from sixteen bytes of a slice.
pub fn read_u128_be(bytes: &[u8], start: usize) -> (x: u128)
    requires
        start + 16 <= bytes@.len(),
    ensures
        x == spec_u128_from_be(bytes@.subrange(start as int, start + 16)),
{
    let x = ((bytes[start] as u128) << 120) | ((bytes[start + 1] as u128) << 112) | ((bytes[start
        + 2] as u128) << 104) | ((bytes[start + 3] as u128) << 96) | ((bytes[start + 4] as u128)
        << 88) | ((bytes[start + 5] as u128) << 80) | ((bytes[start + 6] as u128) << 72) | ((
    bytes[start + 7] as u128) << 64) | ((bytes[start + 8] as u128) << 56) | ((bytes[start
        + 9] as u128) << 48) | ((bytes[start + 10] as u128) << 40) | ((bytes[start + 11] as u128)
        << 32) | ((bytes[start + 12] as u128) << 24) | ((bytes[start + 13] as u128) << 16) | ((
    bytes[start + 14] as u128) << 8) | (bytes[start + 15] as u128);
    proof {
        let s = bytes@.subrange(start as int, start + 16);
        assert(forall|i: int| 0 <= i < 16 ==> s[i] == bytes@[start + i]);
    }
    x
}

/// The distinct ways a cache file can fail to read back, each reported by
/// name so the caller can log it and choose to treat the file as missing.
#[derive(Clone, Copy, Debug, PartialEq, Eq, Structural)]
pub enum CacheError {
    /// Fewer bytes than a complete header.
    TruncatedHeader,
    /// The magic identifier is not the expected constant.
    BadMagic,
    /// The format version differs from the one the engine understands.
    BadVersion,
    /// The stored header checksum does not match the header bytes.
    BadHeaderChecksum,
    /// Fewer bytes than the header's length field plus trailing checksum.
    TruncatedBody,
    /// The stored payload checksum does not match the payload bytes.
    BadDataChecksum,
    /// The payload bytes are not the encoding of any record.
    BadPayload,
}

/// The first twelve header bytes for a payload of the given length: magic,
/// version, flags and the length, all big-endian.
pub open spec fn spec_header_prefix(payload_len: u32) -> Seq<u8> {
    spec_magic() + spec_u16_be(FORMAT_VERSION) + spec_u16_be(FORMAT_FLAGS) + spec_u32_be(
        payload_len,
    )
}

/// The complete file image for a payload: the twelve header bytes, their
/// CRC-32, the payload, and the payload's CRC-32.
pub open spec fn spec_frame(payload: Seq<u8>) -> Seq<u8>
    recommends
        payload.len() <= u32::MAX,
{
    let h = spec_header_prefix(payload.len() as u32);
    h + spec_u32_be(crc32_of(h)) + payload + spec_u32_be(crc32_of(payload))
}

/// The payload read back from a file image, or the first failure met, checked
/// in this order: header length, magic, version, header checksum, body
/// length, payload checksum. Bytes beyond the frame are ignored, as a reader
/// that takes exactly the announced lengths never sees them.
pub open spec fn spec_decode_frame(s: Seq<u8>) -> Result<Seq<u8>, CacheError> {
    if s.len() < 16 {
        Result::Err(CacheError::TruncatedHeader)
    } else if s.subrange(0, 4) != spec_magic() {
        Result::Err(CacheError::BadMagic)
    } else if spec_u16_from_be(s[4], s[5]) != FORMAT_VERSION {
        Result::Err(CacheError::BadVersion)
    } else if spec_u32_from_be(s[12], s[13], s[14], s[15]) != crc32_of(s.subrange(0, 12)) {
        Result::Err(CacheError::BadHeaderChecksum)
    } else {
        let len = spec_u32_from_be(s[8], s[9], s[10], s[11]) as int;
        if s.len() < 16 + len + 4 {
            Result::Err(CacheError::TruncatedBody)
        } else {
            let p = s.subrange(16, 16 + len);
            if spec_u32_from_be(s[16 + len], s[16 + len + 1], s[16 + len + 2], s[16 + len + 3])
                != crc32_of(p) {
                Result::Err(CacheError::BadDataChecksum)
            } else {
                Result::Ok(p)
            }
        }
    }
}

/// How an executable decode relates to the spec-level one: same success or
/// the same named failure, and on success the same payload.
pub open spec fn frame_result_matches(
    r: Result<Vec<u8>, CacheError>,
    m: Result<Seq<u8>, CacheError>,
) -> bool {
    match (r, m) {
        (Result::Ok(p), Result::Ok(sp)) => p@ == sp,
        (Result::Err(e), Result::Err(se)) => e == se,
        _ => false,
    }
}

/// Builds the complete file image for a payload.
pub fn encode_frame(payload: &[u8]) -> (out: Vec<u8>)
    requires
        payload@.len() <= u32::MAX,
    ensures
        out@ == spec_frame(payload@),
{
    let mut out: Vec<u8> = Vec::new();
    out.push(0x44);
    out.push(0x44);
    out.push(0x52);
    out.push(0x53);
    push_u16_be(&mut out, FORMAT_VERSION);
    push_u16_be(&mut out, FORMAT_FLAGS);
    push_u32_be(&mut out, payload.len() as u32);
    proof {
        assert(out@ =~= spec_header_prefix(payload@.len() as u32));
    }
    let header_crc = crc32(out.as_slice());
    push_u32_be(&mut out, header_crc);
    out.extend_from_slice(payload);
    let payload_crc = crc32(payload);
    push_u32_be(&mut out, payload_crc);
    proof {
        assert(out@ =~= spec_frame(payload@));
    }
    out
}

/// Reads the payload back out of a file image, validating every header field
/// and both checksums, and names the first failure met.
pub fn decode_frame(bytes: &[u8]) -> (r: Result<Vec<u8>, CacheError>)
    ensures
        frame_result_matches(r, spec_decode_frame(bytes@)),
{
    let n = bytes.len();
    if n < HEADER_SIZE {
        return Err(CacheError::TruncatedHeader);
    }
    if bytes[0] != 0x44 || bytes[1] != 0x44 || bytes[2] != 0x52 || bytes[3] != 0x53 {
        proof {
            assert(bytes@.subrange(0, 4) != spec_magic());
        }
        return Err(CacheError::BadMagic);
    }
    proof {
        assert(bytes@.subrange(0, 4) =~= spec_magic());
    }
    let version = read_u16_be(bytes[4], bytes[5]);
    if version != FORMAT_VERSION {
        return Err(CacheError::BadVersion);
    }
    let stored_header_crc = read_u32_be(bytes[12], bytes[13], bytes[14], bytes[15]);
    let computed_header_crc = crc32(slice_subrange(bytes, 0, 12));
    if stored_header_crc != computed_header_crc {
        return Err(CacheError::BadHeaderChecksum);
    }
    let len32 = read_u32_be(bytes[8], bytes[9], bytes[10], bytes[11]);
    let len = len32 as usize;
    let avail = n - HEADER_SIZE;
    if avail < 4 || avail - 4 < len {
        return Err(CacheError::TruncatedBody);
    }
    let payload_slice = slice_subrange(bytes, 16, 16 + len);
    let stored_payload_crc = read_u32_be(
        bytes[16 + len],
        bytes[16 + len + 1],
        bytes[16 + len + 2],
        bytes[16 + len + 3],
    );
    let computed_payload_crc = crc32(payload_slice);
    if stored_payload_crc != computed_payload_crc {
        return Err(CacheError::BadDataChecksum);
    }
    Ok(slice_to_vec(payload_slice))
}

/// Decoding the file image of a payload gives the payload back.
pub proof fn lemma_frame_round_trip(payload: Seq<u8>)
    requires
        payload.len() <= u32::MAX,
    ensures
        spec_decode_frame(spec_frame(payload)) == Result::<Seq<u8>, CacheError>::Ok(payload),
{
    let len32 = payload.len() as u32;
    let h = spec_header_prefix(len32);
    let s = spec_frame(payload);
    assert(s.len() == 16 + payload.len() + 4);
    assert(s.subrange(0, 4) =~= spec_magic());
    lemma_u16_be_round_trip(FORMAT_VERSION);
    assert(s[4] == spec_u16_be(FORMAT_VERSION)[0] && s[5] == spec_u16_be(FORMAT_VERSION)[1]);
    assert(s.subrange(0, 12) =~= h);
    lemma_u32_be_round_trip(crc32_of(h));
    assert(s[12] == spec_u32_be(crc32_of(h))[0] && s[13] == spec_u32_be(crc32_of(h))[1] && s[14]
        == spec_u32_be(crc32_of(h))[2] && s[15] == spec_u32_be(crc32_of(h))[3]);
    lemma_u32_be_round_trip(len32);
    assert(s[8] == spec_u32_be(len32)[0] && s[9] == spec_u32_be(len32)[1] && s[10] == spec_u32_be(
        len32,
    )[2] && s[11] == spec_u32_be(len32)[3]);
    let len = spec_u32_from_be(s[8], s[9], s[10], s[11]) as int;
    assert(len == payload.len());
    assert(s.subrange(16, 16 + len) =~= payload);
    lemma_u32_be_round_trip(crc32_of(payload));
    assert(s[16 + len] == spec_u32_be(crc32_of(payload))[0] && s[16 + len + 1] == spec_u32_be(
        crc32_of(payload),
    )[1] && s[16 + len + 2] == spec_u32_be(crc32_of(payload))[2] && s[16 + len + 3] == spec_u32_be(
        crc32_of(payload),
    )[3]);
}

/// Two pairs of big-endian bytes reading as the same 16-bit value are the
/// same bytes.
pub proof fn lemma_u16_from_be_injective(a0: u8, a1: u8, b0: u8, b1: u8)
    requires
        spec_u16_from_be(a0, a1) == spec_u16_from_be(b0, b1),
    ensures
        a0 == b0 && a1 == b1,
{
    assert((((a0 as u16) << 8) | (a1 as u16)) == (((b0 as u16) << 8) | (b1 as u16)) ==> (a0 == b0
        && a1 == b1)) by (bit_vector);
}

/// Two quadruples of big-endian bytes reading as the same 32-bit value are
/// the same bytes.
pub proof fn lemma_u32_from_be_injective(
    a0: u8,
    a1: u8,
    a2: u8,
    a3: u8,
    b0: u8,
    b1: u8,
    b2: u8,
    b3: u8,
)
    requires
        spec_u32_from_be(a0, a1, a2, a3) == spec_u32_from_be(b0, b1, b2, b3),
    ensures
        a0 == b0 && a1 == b1 && a2 == b2 && a3 == b3,
{
    assert(((((a0 as u32) << 24) | ((a1 as u32) << 16) | ((a2 as u32) << 8) | (a3 as u32)) == ((
    (b0 as u32) << 24) | ((b1 as u32) << 16) | ((b2 as u32) << 8) | (b3 as u32))) ==> (a0 == b0
        && a1 == b1 && a2 == b2 && a3 == b3)) by (bit_vector);
}

/// The bytes `s` equal the bytes `t` everywhere outside the region
/// `lo..hi`.
pub open spec fn differs_only_in(s: Seq<u8>, t: Seq<u8>, lo: int, hi: int) -> bool {
    s.len() == t.len() && forall|i: int| 0 <= i < s.len() && !(lo <= i < hi) ==> s[i] == t[i]
}

/// Any change confined to the magic field of a valid file image is reported
/// as exactly a magic failure.
pub proof fn lemma_magic_corruption_detected(payload: Seq<u8>, s: Seq<u8>)
    requires
        payload.len() <= u32::MAX,
        differs_only_in(s, spec_frame(payload), 0, 4),
        s.subrange(0, 4) != spec_frame(payload).subrange(0, 4),
    ensures
        spec_decode_frame(s) == Result::<Seq<u8>, CacheError>::Err(CacheError::BadMagic),
{
    let f = spec_frame(payload);
    assert(f.subrange(0, 4) =~= spec_magic());
    assert(s.len() >= 20);
    if s.subrange(0, 4) == spec_magic() {
        assert(s.subrange(0, 4) =~= f.subrange(0, 4));
    }
}

/// Any change confined to the version field of a valid file image is reported
/// as exactly a version failure.
pub proof fn lemma_version_corruption_detected(payload: Seq<u8>, s: Seq<u8>)
    requires
        payload.len() <= u32::MAX,
        differs_only_in(s, spec_frame(payload), 4, 6),
        s.subrange(4, 6) != spec_frame(payload).subrange(4, 6),
    ensures
        spec_decode_frame(s) == Result::<Seq<u8>, CacheError>::Err(CacheError::BadVersion),
{
    let f = spec_frame(payload);
    assert(f.subrange(0, 4) =~= spec_magic());
    assert(s.subrange(0, 4) =~= spec_magic());
    assert(f[4] == spec_u16_be(FORMAT_VERSION)[0] && f[5] == spec_u16_be(FORMAT_VERSION)[1]);
    lemma_u16_be_round_trip(FORMAT_VERSION);
    if spec_u16_from_be(s[4], s[5]) == FORMAT_VERSION {
        lemma_u16_from_be_injective(s[4], s[5], f[4], f[5]);
        assert(s.subrange(4, 6) =~= f.subrange(4, 6));
    }
}

/// Any change confined to the header-checksum field of a valid file image is
/// reported as exactly a header checksum failure.
pub proof fn lemma_header_checksum_corruption_detected(payload: Seq<u8>, s: Seq<u8>)
    requires
        payload.len() <= u32::MAX,
        differs_only_in(s, spec_frame(payload), 12, 16),
        s.subrange(12, 16) != spec_frame(payload).subrange(12, 16),
    ensures
        spec_decode_frame(s) == Result::<Seq<u8>, CacheError>::Err(CacheError::BadHeaderChecksum),
{
    let f = spec_frame(payload);
    let h = spec_header_prefix(payload.len() as u32);
    assert(f.subrange(0, 4) =~= spec_magic());
    assert(s.subrange(0, 4) =~= spec_magic());
    assert(f[4] == spec_u16_be(FORMAT_VERSION)[0] && f[5] == spec_u16_be(FORMAT_VERSION)[1]);
    lemma_u16_be_round_trip(FORMAT_VERSION);
    assert(s.subrange(0, 12) =~= h);
    assert(f[12] == spec_u32_be(crc32_of(h))[0] && f[13] == spec_u32_be(crc32_of(h))[1] && f[14]
        == spec_u32_be(crc32_of(h))[2] && f[15] == spec_u32_be(crc32_of(h))[3]);
    lemma_u32_be_round_trip(crc32_of(h));
    if spec_u32_from_be(s[12], s[13], s[14], s[15]) == crc32_of(h) {
        lemma_u32_from_be_injective(s[12], s[13], s[14], s[15], f[12], f[13], f[14], f[15]);
        assert(s.subrange(12, 16) =~= f.subrange(12, 16));
    }
}

/// Any change confined to the payload-checksum field of a valid file image is
/// reported as exactly a payload checksum failure.
pub proof fn lemma_data_checksum_corruption_detected(payload: Seq<u8>, s: Seq<u8>)
    requires
        payload.len() <= u32::MAX,
        differs_only_in(
            s,
            spec_frame(payload),
            16 + payload.len() as int,
            16 + payload.len() as int + 4,
        ),
        s.subrange(16 + payload.len() as int, 16 + payload.len() as int + 4) != spec_frame(
            payload,
        ).subrange(16 + payload.len() as int, 16 + payload.len() as int + 4),
    ensures
        spec_decode_frame(s) == Result::<Seq<u8>, CacheError>::Err(CacheError::BadDataChecksum),
{
    let f = spec_frame(payload);
    let len32 = payload.len() as u32;
    let h = spec_header_prefix(len32);
    let plen = payload.len() as int;
    assert(f.subrange(0, 4) =~= spec_magic());
    assert(s.subrange(0, 4) =~= spec_magic());
    assert(f[4] == spec_u16_be(FORMAT_VERSION)[0] && f[5] == spec_u16_be(FORMAT_VERSION)[1]);
    lemma_u16_be_round_trip(FORMAT_VERSION);
    assert(s.subrange(0, 12) =~= h);
    assert(f[12] == spec_u32_be(crc32_of(h))[0] && f[13] == spec_u32_be(crc32_of(h))[1] && f[14]
        == spec_u32_be(crc32_of(h))[2] && f[15] == spec_u32_be(crc32_of(h))[3]);
    lemma_u32_be_round_trip(crc32_of(h));
    assert(h[8] == spec_u32_be(len32)[0] && h[9] == spec_u32_be(len32)[1] && h[10] == spec_u32_be(
        len32,
    )[2] && h[11] == spec_u32_be(len32)[3]);
    lemma_u32_be_round_trip(len32);
    assert(spec_u32_from_be(s[8], s[9], s[10], s[11]) == len32);
    assert(s.subrange(16, 16 + plen) =~= payload);
    assert(f[16 + plen] == spec_u32_be(crc32_of(payload))[0] && f[16 + plen + 1] == spec_u32_be(
        crc32_of(payload),
    )[1] && f[16 + plen + 2] == spec_u32_be(crc32_of(payload))[2] && f[16 + plen + 3]
        == spec_u32_be(crc32_of(payload))[3]);
    lemma_u32_be_round_trip(crc32_of(payload));
    if spec_u32_from_be(s[16 + plen], s[16 + plen + 1], s[16 + plen + 2], s[16 + plen + 3])
        == crc32_of(payload) {
        lemma_u32_from_be_injective(
            s[16 + plen],
            s[16 + plen + 1],
            s[16 + plen + 2],
            s[16 + plen + 3],
            f[16 + plen],
            f[16 + plen + 1],
            f[16 + plen + 2],
            f[16 + plen + 3],
        );
        assert(s.subrange(16 + plen, 16 + plen + 4) =~= f.subrange(16 + plen, 16 + plen + 4));
    }
}

/// Any strict prefix of a file image fails to decode: a write interrupted
/// before the image is complete is reported as truncation, never returned as
/// data.
pub proof fn lemma_prefix_rejected(payload: Seq<u8>, n: int)
    requires
        payload.len() <= u32::MAX,
        0 <= n < spec_frame(payload).len(),
    ensures
        spec_decode_frame(spec_frame(payload).take(n)) is Err,
{
    let s = spec_frame(payload);
    let t = s.take(n);
    if n >= 16 {
        let len32 = payload.len() as u32;
        let h = spec_header_prefix(len32);
        assert(h[8] == spec_u32_be(len32)[0] && h[9] == spec_u32_be(len32)[1] && h[10]
            == spec_u32_be(len32)[2] && h[11] == spec_u32_be(len32)[3]);
        assert(t[8] == h[8] && t[9] == h[9] && t[10] == h[10] && t[11] == h[11]);
        lemma_u32_be_round_trip(len32);
        assert(spec_u32_from_be(t[8], t[9], t[10], t[11]) == len32);
        assert(t.len() < 16 + (len32 as int) + 4);
    }
}

} // verus!
