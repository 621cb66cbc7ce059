//! Configuration consumed by the server core.
//!
//! Durations are carried as plain second counts; the process edge turns
//! them into whatever its runtime wants.

use vstd::prelude::*;

verus! {

/// Network listener settings.
#[derive(Debug, Clone)]
pub struct ServerSettings {
    pub host: String,
    pub port: u16,
    pub max_connections: usize,
    pub request_timeout_secs: u64,
}

/// Certificate material locations and the inspection cadence.
#[derive(Debug, Clone)]
pub struct SslConfig {
    pub cert_path: String,
    pub key_path: String,
    pub cert_check_interval_secs: u64,
}

/// Connection registry policy knobs.
#[derive(Debug, Clone)]
pub struct TtlConfig {
    pub default_ttl_secs: u64,
    pub max_ttl_secs: u64,
    pub cleanup_interval_secs: u64,
}

/// Log level and output format ("json" or "pretty").
#[derive(Debug, Clone)]
pub struct LoggingConfig {
    pub level: String,
    pub format: String,
}

/// The whole process configuration.
#[derive(Debug, Clone)]
pub struct AppConfig {
    pub server: ServerSettings,
    pub ssl: SslConfig,
    pub ttl: TtlConfig,
    pub logging: LoggingConfig,
}

impl Default for AppConfig {
    /// The built-in defaults: listen on 0.0.0.0:8443, five-minute default
    /// TTL bounded by one hour, sweep every minute, inspect certificates
    /// hourly.
    fn default() -> (c: Self)
        ensures
            c.server.host@ == "0.0.0.0"@,
            c.server.port == 8443,
            c.server.max_connections == 1000,
            c.server.request_timeout_secs == 30,
            c.ssl.cert_path@ == "test-certs/cert.pem"@,
            c.ssl.key_path@ == "test-certs/key.pem"@,
            c.ssl.cert_check_interval_secs == 3600,
            c.ttl.default_ttl_secs == 300,
            c.ttl.max_ttl_secs == 3600,
            c.ttl.cleanup_interval_secs == 60,
            c.logging.level@ == "info"@,
            c.logging.format@ == "pretty"@,
    {
        AppConfig {
            server: ServerSettings {
                host: "0.0.0.0".to_string(),
                port: 8443,
                max_connections: 1000,
                request_timeout_secs: 30,
            },
            ssl: SslConfig {
                cert_path: "test-certs/cert.pem".to_string(),
                key_path: "test-certs/key.pem".to_string(),
                cert_check_interval_secs: 3600,
            },
            ttl: TtlConfig {
                default_ttl_secs: 300,
                max_ttl_secs: 3600,
                cleanup_interval_secs: 60,
            },
            logging: LoggingConfig {
                level: "info".to_string(),
                format: "pretty".to_string(),
            },
        }
    }
}

impl AppConfig {
    /// How long a single request may run, in seconds.
    pub fn request_timeout(&self) -> (r: u64)
        ensures
            r == self.server.request_timeout_secs,
    {
        self.server.request_timeout_secs
    }

    /// The TTL a fresh connection record starts from, in seconds.
    pub fn default_ttl(&self) -> (r: u64)
        ensures
            r == self.ttl.default_ttl_secs,
    {
        self.ttl.default_ttl_secs
    }

    /// The hard upper bound any adaptive TTL may reach, in seconds.
    pub fn max_ttl(&self) -> (r: u64)
        ensures
            r == self.ttl.max_ttl_secs,
    {
        self.ttl.max_ttl_secs
    }

    /// The period of the registry sweep loop, in seconds.
    pub fn cleanup_interval(&self) -> (r: u64)
        ensures
            r == self.ttl.cleanup_interval_secs,
    {
        self.ttl.cleanup_interval_secs
    }

    /// The period of the certificate inspection loop, in seconds.
    pub fn cert_check_interval(&self) -> (r: u64)
        ensures
            r == self.ssl.cert_check_interval_secs,
    {
        self.ssl.cert_check_interval_secs
    }
}

} // verus!
