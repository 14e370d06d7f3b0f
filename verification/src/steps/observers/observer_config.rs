//! The settings of a file observer: the size and lifetime of its cache, and
//! which files it looks at.
use vstd::prelude::*;

verus! {

/// The bounds of the in-memory cache: its total size in MiB, its number of
/// files, and how long a file stays fresh, in seconds.
#[derive(Debug, Clone, Copy, PartialEq, Eq)]
pub struct MemoryCacheConfig {
    pub max_size_mb: u64,
    pub max_files: usize,
    pub ttl_seconds: u64,
}

impl Default for MemoryCacheConfig {
    /// 50 MiB, 100 files, one hour.
    fn default() -> (r: Self)
        ensures
            r.max_size_mb == 50,
            r.max_files == 100,
            r.ttl_seconds == 3600,
    {
        MemoryCacheConfig { max_size_mb: 50, max_files: 100, ttl_seconds: 3600 }
    }
}

/// Which files are observed: patterns to include and to exclude, and the
/// largest size in MiB.
#[derive(Debug, Clone)]
pub struct FileFilter {
    pub include_patterns: Vec<String>,
    pub exclude_patterns: Vec<String>,
    pub max_file_size_mb: u64,
}

impl Default for FileFilter {
    /// No pattern, and files of up to 100 MiB.
    fn default() -> (r: Self)
        ensures
            r.include_patterns@.len() == 0,
            r.exclude_patterns@.len() == 0,
            r.max_file_size_mb == 100,
    {
        FileFilter { include_patterns: Vec::new(), exclude_patterns: Vec::new(), max_file_size_mb: 100 }
    }
}

} // verus!
