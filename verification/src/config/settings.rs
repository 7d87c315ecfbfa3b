//! The settings and their defaults.

use vstd::prelude::*;
use vstd::string::StringExecFns;

verus! {

/// All settings.
#[derive(Debug)]
pub struct Settings {
    pub api: ApiSettings,
    pub cache: CacheSettings,
    pub output: OutputSettings,
}

/// How the remote service is reached.
#[derive(Debug)]
pub struct ApiSettings {
    pub base_url: String,
    pub timeout_seconds: u64,
    pub rate_limit_per_second: u32,
}

/// How the cache behaves.
#[derive(Debug)]
pub struct CacheSettings {
    pub enabled: bool,
    pub ttl_hours: u64,
    pub max_size_mb: u64,
}

/// How answers are rendered.
#[derive(Debug)]
pub struct OutputSettings {
    pub default_format: String,
    pub colored: bool,
    pub show_sprites: bool,
}

impl Settings {
    /// These are the settings that hold where nothing is configured.
    pub open spec fn is_default(self) -> bool {
        &&& self.api.base_url@ == "https://pokeapi.co/api/v2"@
        &&& self.api.timeout_seconds == 30
        &&& self.api.rate_limit_per_second == 10
        &&& self.cache.enabled
        &&& self.cache.ttl_hours == 24
        &&& self.cache.max_size_mb == 100
        &&& self.output.default_format@ == "table"@
        &&& self.output.colored
        &&& !self.output.show_sprites
    }
}

impl Default for Settings {
    fn default() -> (settings: Self)
        ensures
            settings.is_default(),
    {
        Settings {
            api: ApiSettings {
                base_url: String::from_str("https://pokeapi.co/api/v2"),
                timeout_seconds: 30,
                rate_limit_per_second: 10,
            },
            cache: CacheSettings { enabled: true, ttl_hours: 24, max_size_mb: 100 },
            output: OutputSettings {
                default_format: String::from_str("table"),
                colored: true,
                show_sprites: false,
            },
        }
    }
}

} // verus!
