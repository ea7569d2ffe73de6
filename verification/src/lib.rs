//! Verified core of a small geographic-data provider: a build-time-embedded,
//! brotli-compressed UTF-8 document is decompressed on first access, cached,
//! and served as an owned string to every caller.

pub mod codec;
pub mod provider;
