//! A sidecar that watches a directory, and its builder.
use vstd::prelude::*;
use crate::resources::meta::{fails_with, BuildError};
use crate::steps::observers::cache::{CacheEntry, CacheStats, TieredCache};
use crate::steps::observers::observer_config::{FileFilter, MemoryCacheConfig};

verus! {

/// How observed files are handed on: as events on a channel, through a
/// cache, and over HTTP.
#[derive(Debug, Clone, Copy, PartialEq, Eq)]
pub struct ObserverModes {
    pub channel: bool,
    pub cache: bool,
    pub http_service: bool,
}

impl Default for ObserverModes {
    /// Every mode off.
    fn default() -> (r: Self)
        ensures
            !r.channel,
            !r.cache,
            !r.http_service,
    {
        ObserverModes { channel: false, cache: false, http_service: false }
    }
}

/// A configured file observer.
pub struct FileObserverSidecar {
    pub watch_path: String,
    pub modes: ObserverModes,
    pub cache: Option<TieredCache>,
    pub filters: FileFilter,
    pub http_port: Option<u16>,
}

/// The settings of a file observer under construction.
pub struct FileObserverBuilder {
    pub watch_path: Option<String>,
    pub modes: ObserverModes,
    pub cache_config: Option<MemoryCacheConfig>,
    pub filters: Option<FileFilter>,
    pub http_port: Option<u16>,
}

/// The cache settings `c` fit in bytes: its size in MiB, as bytes, is a
/// `u64`.
pub open spec fn cache_config_fits(c: Option<MemoryCacheConfig>) -> bool {
    match c {
        Some(c) => c.max_size_mb * 1024 * 1024 <= u64::MAX,
        None => true,
    }
}

impl FileObserverBuilder {
    /// No path, every mode off, no cache or filter settings, no port.
    pub fn new() -> (r: Self)
        ensures
            r.watch_path is None,
            r.modes == (ObserverModes { channel: false, cache: false, http_service: false }),
            r.cache_config is None,
            r.filters is None,
            r.http_port is None,
    {
        FileObserverBuilder {
            watch_path: None,
            modes: ObserverModes::default(),
            cache_config: None,
            filters: None,
            http_port: None,
        }
    }

    pub fn watch_path(self, path: &str) -> (r: Self)
        ensures
            r.watch_path matches Some(p) && p@ == path@,
            r.modes == self.modes,
            r.cache_config == self.cache_config,
            r.http_port == self.http_port,
    {
        FileObserverBuilder { watch_path: Some(path.to_string()), ..self }
    }

    pub fn with_channel_mode(self, enabled: bool) -> (r: Self)
        ensures
            r.modes == (ObserverModes { channel: enabled, ..self.modes }),
            r.watch_path == self.watch_path,
            r.cache_config == self.cache_config,
            r.http_port == self.http_port,
    {
        let modes = ObserverModes { channel: enabled, ..self.modes };
        FileObserverBuilder { modes, ..self }
    }

    /// Turns the cache on or off, with its settings (the defaults when
    /// none).
    pub fn with_cache_mode(self, enabled: bool, config: Option<MemoryCacheConfig>) -> (r: Self)
        ensures
            r.modes == (ObserverModes { cache: enabled, ..self.modes }),
            r.cache_config == config,
            r.watch_path == self.watch_path,
            r.http_port == self.http_port,
    {
        let modes = ObserverModes { cache: enabled, ..self.modes };
        FileObserverBuilder { modes, cache_config: config, ..self }
    }

    /// Turns the HTTP service on or off; its port is recorded either way.
    pub fn with_http_service(self, enabled: bool, port: u16) -> (r: Self)
        ensures
            r.modes == (ObserverModes { http_service: enabled, ..self.modes }),
            r.http_port == Some(port),
            r.watch_path == self.watch_path,
            r.cache_config == self.cache_config,
    {
        let modes = ObserverModes { http_service: enabled, ..self.modes };
        FileObserverBuilder { modes, http_port: Some(port), ..self }
    }

    pub fn with_filters(self, filters: FileFilter) -> (r: Self)
        ensures
            r.filters matches Some(f) && f == filters,
            r.modes == self.modes,
            r.watch_path == self.watch_path,
            r.cache_config == self.cache_config,
            r.http_port == self.http_port,
    {
        FileObserverBuilder { filters: Some(filters), ..self }
    }

    /// The observer. The path is required, and then at least one mode; the
    /// cache exists exactly when its mode is on, empty and bounded by its
    /// settings (the defaults when none); the filters default too.
    pub fn build(self) -> (r: Result<FileObserverSidecar, BuildError>)
        requires
            self.modes.cache ==> cache_config_fits(self.cache_config),
        ensures
            self.watch_path is None ==> fails_with(r, "watch_path is required but not provided"@),
            self.watch_path is Some && !self.modes.channel && !self.modes.cache && !self.modes.http_service
                ==> fails_with(r, "at least one observer mode must be enabled"@),
            self.watch_path is Some && (self.modes.channel || self.modes.cache || self.modes.http_service)
                ==> (r matches Ok(o) && built_observer(o, self)),
    {
        let FileObserverBuilder { watch_path, modes, cache_config, filters, http_port } = self;
        let watch_path = match watch_path {
            Some(p) => p,
            None => {
                return Err(BuildError::new("watch_path is required but not provided"));
            },
        };
        if !modes.channel && !modes.cache && !modes.http_service {
            return Err(BuildError::new("at least one observer mode must be enabled"));
        }
        let cache = if modes.cache {
            let config = match cache_config {
                Some(c) => c,
                None => MemoryCacheConfig::default(),
            };
            Some(TieredCache::new(config))
        } else {
            None
        };
        let filters = match filters {
            Some(f) => f,
            None => FileFilter::default(),
        };
        Ok(FileObserverSidecar { watch_path, modes, cache, filters, http_port })
    }
}

/// `o` is the observer that the settings `b` describe.
pub open spec fn built_observer(o: FileObserverSidecar, b: FileObserverBuilder) -> bool {
    &&& b.watch_path matches Some(p) && o.watch_path == p
    &&& o.modes == b.modes
    &&& o.http_port == b.http_port
    &&& match b.filters {
        Some(f) => o.filters == f,
        None => o.filters.include_patterns@.len() == 0 && o.filters.exclude_patterns@.len() == 0
            && o.filters.max_file_size_mb == 100,
    }
    &&& if b.modes.cache {
        match o.cache {
            Some(c) => {
                let cfg = match b.cache_config {
                    Some(c) => c,
                    None => MemoryCacheConfig { max_size_mb: 50, max_files: 100, ttl_seconds: 3600 },
                };
                &&& c.memory.well_formed()
                &&& c.memory.entries() == Seq::<(Seq<char>, CacheEntry)>::empty()
                &&& c.memory.max_files() == (if cfg.max_files == 0 { 1 } else { cfg.max_files as nat })
                &&& c.memory.max_bytes() == cfg.max_size_mb * 1024 * 1024
                &&& c.memory.ttl() == cfg.ttl_seconds
                &&& c.memory.counters() == CacheStats::zero_spec()
            },
            None => false,
        }
    } else {
        o.cache is None
    }
}

impl Default for FileObserverBuilder {
    fn default() -> (r: Self)
        ensures
            r.watch_path is None,
            r.modes == (ObserverModes { channel: false, cache: false, http_service: false }),
            r.cache_config is None,
            r.filters is None,
            r.http_port is None,
    {
        FileObserverBuilder::new()
    }
}

} // verus!
