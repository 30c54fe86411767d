//! Configuration surface of the watcher. Loading the file is I/O and lives
//! outside the library; the structures and the pulse-time rule live here.

use vstd::prelude::*;

verus! {

/// How often the capture timer ticks, and for how long it may run.
pub struct TriggerConfig {
    pub interval_secs: u64,
    pub timeout_secs: Option<u64>,
}

/// Deduplication policy: unconditional re-emit interval and hash threshold.
#[derive(Clone, Copy)]
pub struct CaptureConfig {
    pub force_interval_secs: u64,
    pub dhash_threshold: u32,
}

/// Where encoded frames are cached and at which quality.
pub struct CacheConfig {
    pub cache_dir: String,
    pub webp_quality: u8,
}

/// Object-store client settings.
pub struct S3Config {
    pub enabled: bool,
    pub endpoint: String,
    pub bucket: String,
    pub access_key: String,
    pub secret_key: String,
    pub region: String,
    pub key_prefix: Option<String>,
}

/// Local database settings.
pub struct SqliteConfig {
    pub db_path: String,
}

/// Backend reporting settings. The pulse time is the backend's merge
/// window, in whole seconds; the closing epsilon is how far before a new
/// batch the previous activity is capped, in milliseconds (a
/// backend-contract detail, configurable rather than hardcoded).
pub struct AwServerConfig {
    pub host: String,
    pub port: u16,
    pub bucket_id: String,
    pub hostname: String,
    pub timeout_secs: Option<u64>,
    pub pulse_time_secs: Option<u64>,
    pub closing_epsilon_ms: u64,
}

/// The whole configuration surface.
pub struct Config {
    pub trigger: TriggerConfig,
    pub capture: CaptureConfig,
    pub cache: CacheConfig,
    pub s3: S3Config,
    pub aw_server: AwServerConfig,
}

#[derive(Clone, Copy, Debug, PartialEq, Eq, Structural)]
pub enum ConfigError {
    PulseTimeTooSmall,
}

/// The pulse time must be at least four capture intervals, so that the
/// backend's merge window cannot be shorter than the realistic gap between
/// successive heartbeats; when absent it is derived as exactly four
/// intervals.
pub fn resolve_pulse_time(pulse_time_secs: Option<u64>, interval_secs: u64) -> (r: Result<
    u64,
    ConfigError,
>)
    requires
        interval_secs <= u64::MAX / 4,
    ensures
        match pulse_time_secs {
            Some(p) => if p >= 4 * interval_secs {
                r == Ok::<u64, ConfigError>(p)
            } else {
                r == Err::<u64, ConfigError>(ConfigError::PulseTimeTooSmall)
            },
            None => r == Ok::<u64, ConfigError>((4 * interval_secs) as u64),
        },
{
    match pulse_time_secs {
        Some(p) => {
            if p >= 4 * interval_secs {
                Ok(p)
            } else {
                Err(ConfigError::PulseTimeTooSmall)
            }
        },
        None => Ok(4 * interval_secs),
    }
}

/// Whether a quality setting selects the lossless encoding path.
pub fn is_lossless_quality(quality: u8) -> (r: bool)
    ensures
        r == (quality >= 100),
{
    quality >= 100
}

/// The quality used when the configuration names none.
pub fn default_webp_quality() -> (r: u8)
    ensures
        r == 75,
{
    75
}

/// The region used when the configuration names none.
pub fn default_region() -> (r: String)
    ensures
        r@ == "auto"@,
{
    String::from_str("auto")
}

impl Default for CacheConfig {
    /// Cache under a relative `cache` directory at the default quality.
    fn default() -> (r: Self)
        ensures
            r.cache_dir@ == "cache"@,
            r.webp_quality == 75,
    {
        CacheConfig { cache_dir: String::from_str("cache"), webp_quality: 75 }
    }
}

impl Default for S3Config {
    /// Uploading is off until configured.
    fn default() -> (r: Self)
        ensures
            !r.enabled,
            r.endpoint@ == Seq::<char>::empty(),
            r.bucket@ == Seq::<char>::empty(),
            r.access_key@ == Seq::<char>::empty(),
            r.secret_key@ == Seq::<char>::empty(),
            r.region@ == Seq::<char>::empty(),
            r.key_prefix is None,
    {
        proof {
            reveal_strlit("");
        }
        S3Config {
            enabled: false,
            endpoint: String::new(),
            bucket: String::new(),
            access_key: String::new(),
            secret_key: String::new(),
            region: String::new(),
            key_prefix: None,
        }
    }
}

impl Default for AwServerConfig {
    /// A local backend with the stock bucket name; the hostname is filled
    /// in by the caller once known.
    fn default() -> (r: Self)
        ensures
            r.host@ == "localhost"@,
            r.port == 5600,
            r.bucket_id@ == "aw-watcher-screenshot"@,
            r.hostname@ == "unknown"@,
            r.timeout_secs == Some(60u64),
            r.pulse_time_secs == Some(10u64),
            r.closing_epsilon_ms == 1,
    {
        AwServerConfig {
            host: String::from_str("localhost"),
            port: 5600,
            bucket_id: String::from_str("aw-watcher-screenshot"),
            hostname: String::from_str("unknown"),
            timeout_secs: Some(60),
            pulse_time_secs: Some(10),
            closing_epsilon_ms: 1,
        }
    }
}

} // verus!
