//! Records of the response cache and its freshness rules. Reading and
//! writing the cache files happens around the library; times are seconds
//! since the Unix epoch, supplied by the caller.
use vstd::prelude::*;
use crate::github::opt_view;

verus! {

/// Counts and total size of the cached entries.
#[derive(Debug, Clone, Copy)]
pub struct CacheStats {
    pub total_entries: usize,
    pub total_size: u64,
    pub github_entries: usize,
    pub claude_entries: usize,
    pub context_entries: usize,
}

/// What is recorded about a cached payload.
#[derive(Debug, Clone)]
pub struct CacheMetadata {
    pub content_type: Option<String>,
    pub encoding: Option<String>,
    pub compressed: bool,
    pub size_bytes: usize,
    pub checksum: Option<String>,
}

/// A cached payload with its creation and optional expiry time.
#[derive(Debug)]
pub struct CacheEntry {
    pub key: String,
    pub data: Vec<u8>,
    pub created_at: i64,
    pub expires_at: Option<i64>,
    pub metadata: CacheMetadata,
}

impl CacheEntry {
    /// An entry created at `now`, without expiry, uncompressed.
    pub fn new(key: String, data: Vec<u8>, now: i64) -> (r: CacheEntry)
        ensures
            r.key@ == key@,
            r.data@ == data@,
            r.created_at == now,
            r.expires_at is None,
            r.metadata.size_bytes == data@.len(),
            !r.metadata.compressed,
            r.metadata.content_type is None,
            r.metadata.encoding is None,
            r.metadata.checksum is None,
    {
        let size_bytes = data.len();
        CacheEntry {
            key,
            data,
            created_at: now,
            expires_at: None,
            metadata: CacheMetadata { content_type: None, encoding: None, compressed: false, size_bytes, checksum: None },
        }
    }

    pub fn with_expiration(self, expires_at: i64) -> (r: CacheEntry)
        ensures
            r.expires_at == Some(expires_at),
            r.key@ == self.key@,
            r.data@ == self.data@,
            r.created_at == self.created_at,
            r.metadata.compressed == self.metadata.compressed,
            r.metadata.size_bytes == self.metadata.size_bytes,
    {
        CacheEntry { expires_at: Some(expires_at), ..self }
    }

    pub fn with_compression(self, compressed: bool) -> (r: CacheEntry)
        ensures
            r.metadata.compressed == compressed,
            r.metadata.size_bytes == self.metadata.size_bytes,
            opt_view(r.metadata.checksum) == opt_view(self.metadata.checksum),
            r.expires_at == self.expires_at,
            r.key@ == self.key@,
            r.data@ == self.data@,
            r.created_at == self.created_at,
    {
        let mut metadata = self.metadata;
        metadata.compressed = compressed;
        CacheEntry { metadata, ..self }
    }

    /// Whether the entry has an expiry time that `now` is past.
    pub fn is_expired(&self, now: i64) -> (r: bool)
        ensures
            r == match self.expires_at {
                Some(t) => now > t,
                None => false,
            },
    {
        match self.expires_at {
            Some(t) => now > t,
            None => false,
        }
    }
}

/// Where the cache lives and how long its entries stay valid.
#[derive(Debug)]
pub struct CacheManager {
    pub cache_dir: String,
    pub ttl_hours: u32,
    pub compression_enabled: bool,
}

impl CacheManager {
    pub fn new(cache_dir: String, ttl_hours: u32, compression_enabled: bool) -> (r: CacheManager)
        ensures
            r.cache_dir@ == cache_dir@,
            r.ttl_hours == ttl_hours,
            r.compression_enabled == compression_enabled,
    {
        CacheManager { cache_dir, ttl_hours, compression_enabled }
    }

    /// Whether a file last written `age_secs` seconds ago is still valid:
    /// no older than the time to live.
    pub fn is_fresh(&self, age_secs: u64) -> (r: bool)
        ensures
            r == (age_secs <= self.ttl_hours * 3600),
    {
        age_secs <= (self.ttl_hours as u64) * 3600
    }

    /// Whether something stamped at `timestamp` is younger than the time to
    /// live, counted in whole hours, at time `now`.
    pub fn is_valid_timestamp(&self, timestamp: i64, now: i64) -> (r: bool)
        ensures
            r == ((if now - timestamp <= 0 { 0 } else { (now - timestamp) / 3600 }) < self.ttl_hours),
    {
        let age: i128 = now as i128 - timestamp as i128;
        let hours: i128 = if age <= 0 {
            0
        } else {
            age / 3600
        };
        hours < self.ttl_hours as i128
    }
}

} // verus!
