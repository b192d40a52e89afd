//! A fixed-capacity, direct-mapped associative cache.
//!
//! Every key hashes to exactly one slot of a fixed-length table; an insertion
//! unconditionally overwrites whatever pair occupies that slot. The cache
//! trades guaranteed retention for O(1) worst-case operations and a memory
//! footprint that is independent of the access pattern.

pub mod cache;
pub mod digest;
pub mod laws;

pub use cache::CacheError;
pub use cache::Rulette;
pub use digest::BuildDigest;
pub use digest::IdentityDigest;
pub use digest::MixDigest;
