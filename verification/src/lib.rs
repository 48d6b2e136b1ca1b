//! Engine of a dynamic-DNS updater: an integrity-checked on-disk cache of the
//! last published address record, and the decision logic of the poll loop that
//! detects address changes and fans updates out to DNS providers.
//!
//! Everything here is pure computation over plain values. The surrounding
//! process performs the file, network and timer work and feeds the results to
//! these functions.

pub mod cache;
pub mod config;
pub mod fetch;
pub mod codec;
pub mod providers;
pub mod record;
pub mod tick;

pub use cache::Cache;
pub use codec::CacheError;

pub use record::IpAddress;
pub use record::IpUpdate;
pub use record::IpVersion;
