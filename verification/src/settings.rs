//! How the storage is set up.

use vstd::prelude::*;

verus! {

/// The settings that the storage is opened with.
#[derive(Clone, Copy, Debug, PartialEq, Eq, Structural)]
pub struct StorageSettings {
    /// Up to how many bytes are kept in memory.
    pub memory_threshold: usize,
    /// How many bytes a chunk holds at most.
    pub max_chunk_size: usize,
    /// How many entries the cache holds.
    pub cache_size: usize,
    /// After how many seconds a segment is cleaned up.
    pub segment_cleanup_seconds: u64,
    /// Whether reads are tracked one by one.
    pub granular_read_tracking: bool,
}

/// The settings of the front end: one mebibyte in memory, chunks of 64 kibibytes, a cache
/// of a hundred entries, and segments cleaned up after an hour.
pub fn storage_settings() -> (settings: StorageSettings)
    ensures
        settings == (StorageSettings {
            memory_threshold: 1048576,
            max_chunk_size: 65536,
            cache_size: 100,
            segment_cleanup_seconds: 3600,
            granular_read_tracking: true,
        }),
{
    StorageSettings {
        memory_threshold: 1024 * 1024,
        max_chunk_size: 64 * 1024,
        cache_size: 100,
        segment_cleanup_seconds: 3600,
        granular_read_tracking: true,
    }
}

/// The directory that the storage is in, where no other is named.
pub fn storage_dir() -> (dir: &'static str)
    ensures
        dir@ == "./storage"@,
{
    "./storage"
}

} // verus!
