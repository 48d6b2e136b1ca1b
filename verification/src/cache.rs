//! The integrity cache: one address record persisted to a single file,
//! protected by the framed format of [`crate::codec`]. This module holds the
//! pure half — the file's location and the byte image read and written —
//! while the owning process does the file I/O: it writes the image to a fresh
//! temporary file in the target directory, syncs it, and atomically renames
//! it over the target path, so a reader never sees a partial file.

use vstd::prelude::*;

use crate::codec::CacheError;
use crate::codec::decode_frame;
use crate::codec::encode_frame;
use crate::codec::lemma_frame_round_trip;
use crate::codec::spec_decode_frame;
use crate::codec::spec_frame;
use crate::record::IpUpdate;
use crate::record::lemma_record_round_trip;
use crate::record::spec_decode_record;
use crate::record::spec_encode_record;

verus! {

/// A persistent cache of one address record at a fixed file path.
#[derive(Debug)]
pub struct Cache {
    path: String,
}

impl Cache {
    /// The full path of the cache file.
    pub closed spec fn spec_path(&self) -> Seq<char> {
        self.path@
    }

    /// Creates a cache instance for the file `cache.ddrs` inside the given
    /// directory.
    pub fn new(dir: &str) -> (c: Cache)
        ensures
            c.spec_path() == dir@ + "/cache.ddrs"@,
    {
        let path = dir.to_owned().concat("/cache.ddrs");
        Cache { path }
    }

    /// Returns the full path of the cache file.
    pub fn path(&self) -> (p: &str)
        ensures
            p@ == self.spec_path(),
    {
        self.path.as_str()
    }
}

/// The byte image of the cache file that stores a record.
pub open spec fn spec_encode_cache_file(r: IpUpdate) -> Seq<u8> {
    spec_frame(spec_encode_record(r))
}

/// The record read back from a cache file image, or the first failure met:
/// the frame failures of [`spec_decode_frame`], or `BadPayload` when the
/// frame is intact but its payload encodes no record.
pub open spec fn spec_decode_cache_file(s: Seq<u8>) -> Result<IpUpdate, CacheError> {
    match spec_decode_frame(s) {
        Result::Err(e) => Result::Err(e),
        Result::Ok(p) => match spec_decode_record(p) {
            Option::Some(r) => Result::Ok(r),
            Option::None => Result::Err(CacheError::BadPayload),
        },
    }
}

/// Builds the complete file image that stores a record.
pub fn encode_cache_file(r: &IpUpdate) -> (out: Vec<u8>)
    ensures
        out@ == spec_encode_cache_file(*r),
{
    let payload = r.encode();
    assert(payload@.len() <= 21);
    encode_frame(payload.as_slice())
}

/// Reads a record back from a cache file image, reporting the first
/// corruption or truncation met by name.
pub fn decode_cache_file(bytes: &[u8]) -> (r: Result<IpUpdate, CacheError>)
    ensures
        r == spec_decode_cache_file(bytes@),
{
    match decode_frame(bytes) {
        Err(e) => Err(e),
        Ok(payload) => match IpUpdate::decode(payload.as_slice()) {
            Some(r) => Ok(r),
            None => Err(CacheError::BadPayload),
        },
    }
}

/// Round trip: the image written for a record reads back as exactly that
/// record.
pub proof fn lemma_cache_file_round_trip(r: IpUpdate)
    ensures
        spec_decode_cache_file(spec_encode_cache_file(r)) == Result::<
            IpUpdate,
            CacheError,
        >::Ok(r),
{
    lemma_record_round_trip(r);
    lemma_frame_round_trip(spec_encode_record(r));
}

/// The message a failed read reports, one distinct line per failure.
pub open spec fn spec_cache_error_message(e: CacheError) -> Seq<char> {
    match e {
        CacheError::TruncatedHeader => "Cache file is truncated: could not read complete header"@,
        CacheError::BadMagic => "Invalid magic header"@,
        CacheError::BadVersion => "Invalid cache file version"@,
        CacheError::BadHeaderChecksum => "Invalid cache file header checksum"@,
        CacheError::TruncatedBody => "Cache file is truncated: could not read complete payload"@,
        CacheError::BadDataChecksum => "Invalid cache file data checksum"@,
        CacheError::BadPayload => "Invalid cache file payload"@,
    }
}

/// Renders a cache read failure for logging.
pub fn cache_error_message(e: &CacheError) -> (m: String)
    ensures
        m@ == spec_cache_error_message(*e),
{
    match e {
        CacheError::TruncatedHeader => "Cache file is truncated: could not read complete header"
            .to_owned(),
        CacheError::BadMagic => "Invalid magic header".to_owned(),
        CacheError::BadVersion => "Invalid cache file version".to_owned(),
        CacheError::BadHeaderChecksum => "Invalid cache file header checksum".to_owned(),
        CacheError::TruncatedBody => "Cache file is truncated: could not read complete payload"
            .to_owned(),
        CacheError::BadDataChecksum => "Invalid cache file data checksum".to_owned(),
        CacheError::BadPayload => "Invalid cache file payload".to_owned(),
    }
}

} // verus!
