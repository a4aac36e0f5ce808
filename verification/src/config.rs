use vstd::prelude::*;
use crate::text::owned;

pub use self::ServerConfig as Config;

verus! {

/// Key and nonce of the credential cipher, both base64 text.
#[derive(Debug)]
pub struct EncryptionConfig {
    pub key: String,
    pub nonce: String,
}

impl EncryptionConfig {
    /// The configuration for the given settings; a setting that is absent
    /// falls back to its placeholder.
    pub fn from_settings(key: Option<String>, nonce: Option<String>) -> (r: Self)
        ensures
            r.key@ == (match key {
                Some(k) => k@,
                None => "your-32-byte-secret-key-here"@,
            }),
            r.nonce@ == (match nonce {
                Some(n) => n@,
                None => "unique-nonce12"@,
            }),
    {
        let key = match key {
            Some(k) => k,
            None => owned("your-32-byte-secret-key-here"),
        };
        let nonce = match nonce {
            Some(n) => n,
            None => owned("unique-nonce12"),
        };
        EncryptionConfig { key, nonce }
    }
}

/// Where the HTTP server listens and which origins it admits.
#[derive(Debug)]
pub struct HttpServerConfig {
    pub host: String,
    pub port: u16,
    pub cors_origins: Vec<String>,
}

#[derive(Debug)]
pub struct DatabaseConfig {
    pub url: String,
    pub max_connections: u32,
    pub timeout_seconds: u64,
}

/// Token settings. The two lifetimes are in seconds.
#[derive(Debug)]
pub struct AuthConfig {
    pub jwt_secret: String,
    pub access_token_expire: i64,
    pub refresh_token_expire: i64,
    pub token_expiration_hours: i64,
}

impl AuthConfig {
    /// The standard lifetimes with the given signing secret: a quarter of an
    /// hour for access tokens, a week for refresh tokens.
    pub fn with_secret(jwt_secret: String) -> (r: Self)
        ensures
            r.jwt_secret == jwt_secret,
            r.access_token_expire == 900,
            r.refresh_token_expire == 604_800,
            r.token_expiration_hours == 24,
    {
        AuthConfig {
            jwt_secret,
            access_token_expire: 900,
            refresh_token_expire: 604_800,
            token_expiration_hours: 24,
        }
    }
}

/// The usage levels, in hundredths of a percent, above which a figure is
/// worth a warning or is critical.
#[derive(Debug, Clone, Copy, PartialEq, Eq, Structural)]
pub struct AlertThresholds {
    pub cpu_warning: u32,
    pub cpu_critical: u32,
    pub memory_warning: u32,
    pub memory_critical: u32,
    pub disk_warning: u32,
    pub disk_critical: u32,
}

impl Default for AlertThresholds {
    /// Warnings above 80 %, critical above 90 %.
    fn default() -> (r: Self)
        ensures
            r == (AlertThresholds {
                cpu_warning: 8_000,
                cpu_critical: 9_000,
                memory_warning: 8_000,
                memory_critical: 9_000,
                disk_warning: 8_000,
                disk_critical: 9_000,
            }),
    {
        AlertThresholds {
            cpu_warning: 8_000,
            cpu_critical: 9_000,
            memory_warning: 8_000,
            memory_critical: 9_000,
            disk_warning: 8_000,
            disk_critical: 9_000,
        }
    }
}

/// How the fleet is monitored: a sample is taken every
/// `sampling_interval_seconds`, the latest sample is written to the history
/// every `metrics_interval_seconds`, and the history is kept for
/// `retention_days`.
#[derive(Debug, Clone, Copy)]
pub struct MonitoringConfig {
    pub sampling_interval_seconds: u64,
    pub metrics_interval_seconds: u64,
    pub retention_days: i64,
    pub alert_thresholds: AlertThresholds,
}

impl Default for MonitoringConfig {
    /// A sample every second, a record every minute, kept for thirty days,
    /// with the standard thresholds.
    fn default() -> (r: Self)
        ensures
            r.sampling_interval_seconds == 1,
            r.metrics_interval_seconds == 60,
            r.retention_days == 30,
            r.alert_thresholds.cpu_warning == 8_000,
            r.alert_thresholds.cpu_critical == 9_000,
            r.alert_thresholds.memory_warning == 8_000,
            r.alert_thresholds.memory_critical == 9_000,
            r.alert_thresholds.disk_warning == 8_000,
            r.alert_thresholds.disk_critical == 9_000,
    {
        MonitoringConfig {
            sampling_interval_seconds: 1,
            metrics_interval_seconds: 60,
            retention_days: 30,
            alert_thresholds: AlertThresholds::default(),
        }
    }
}

#[derive(Debug)]
pub struct ServerConfig {
    pub server: HttpServerConfig,
    pub database: DatabaseConfig,
    pub auth: AuthConfig,
    pub monitoring: MonitoringConfig,
    pub encryption: EncryptionConfig,
}

impl ServerConfig {
    /// The configuration of a local development server. The signing secret
    /// and the cipher settings come from the caller, who reads them from the
    /// environment.
    pub fn with_defaults(
        jwt_secret: String,
        encryption_key: Option<String>,
        encryption_nonce: Option<String>,
    ) -> (r: Self)
        ensures
            r.server.host@ == "127.0.0.1"@,
            r.server.port == 8080,
            r.server.cors_origins@.len() == 1,
            r.server.cors_origins@[0]@ == "http://localhost:3000"@,
            r.database.url@ == "postgres://localhost/myapp"@,
            r.database.max_connections == 5,
            r.database.timeout_seconds == 30,
            r.auth.jwt_secret == jwt_secret,
            r.auth.access_token_expire == 900,
            r.auth.refresh_token_expire == 604_800,
            r.auth.token_expiration_hours == 24,
            r.monitoring.sampling_interval_seconds == 1,
            r.monitoring.metrics_interval_seconds == 60,
            r.monitoring.retention_days == 30,
            r.monitoring.alert_thresholds.cpu_warning == 8_000,
            r.monitoring.alert_thresholds.cpu_critical == 9_000,
            r.monitoring.alert_thresholds.memory_warning == 8_000,
            r.monitoring.alert_thresholds.memory_critical == 9_000,
            r.monitoring.alert_thresholds.disk_warning == 8_000,
            r.monitoring.alert_thresholds.disk_critical == 9_000,
            r.encryption.key@ == (match encryption_key {
                Some(k) => k@,
                None => "your-32-byte-secret-key-here"@,
            }),
            r.encryption.nonce@ == (match encryption_nonce {
                Some(n) => n@,
                None => "unique-nonce12"@,
            }),
    {
        let mut origins: Vec<String> = Vec::new();
        origins.push(owned("http://localhost:3000"));
        ServerConfig {
            server: HttpServerConfig { host: owned("127.0.0.1"), port: 8080, cors_origins: origins },
            database: DatabaseConfig {
                url: owned("postgres://localhost/myapp"),
                max_connections: 5,
                timeout_seconds: 30,
            },
            auth: AuthConfig::with_secret(jwt_secret),
            monitoring: MonitoringConfig::default(),
            encryption: EncryptionConfig::from_settings(encryption_key, encryption_nonce),
        }
    }
}

} // verus!
