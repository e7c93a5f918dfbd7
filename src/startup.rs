//! Startup and shutdown helpers: component health, the startup banner, and
//! the shutdown timeout.
use vstd::prelude::*;
use core::time::Duration;
use crate::config::{duration_of_millis, millis};
use crate::settings::DatabaseSettings;

verus! {

/// Shutdown timeout, in milliseconds, when none is given.
pub const DEFAULT_SHUTDOWN_TIMEOUT_MS: u64 = 10000;

/// Connection attempts when none is configured.
pub const DEFAULT_DB_CONNECT_ATTEMPTS: u32 = 5;

/// Delay between connection attempts, in milliseconds, when none is configured.
pub const DEFAULT_DB_RETRY_DELAY_MS: u64 = 2000;

/// The rule above and below the banner.
pub const BANNER_RULE: &'static str = "+-------------------------------------------------------------+";

/// The rule under the banner title.
pub const BANNER_DASH: &'static str = "-------------------------------------------------------------";

/// Health of the components, as found at startup.
#[derive(Debug, Clone, Copy, PartialEq, Eq, Structural)]
pub struct ComponentHealth {
    pub database: bool,
}

/// Builds the health summary of the components.
pub struct HealthSummary;

impl HealthSummary {
    /// The summary when the database is or is not available.
    pub fn from_database(database_available: bool) -> (r: ComponentHealth)
        ensures
            r.database == database_available,
    {
        ComponentHealth { database: database_available }
    }
}

/// The text that shows one component's status.
pub open spec fn status_text_spec(healthy: bool) -> Seq<char> {
    if healthy {
        "✓ OK"@
    } else {
        "✗ UNAVAILABLE"@
    }
}

/// The startup banner: name and version, then each component's status,
/// framed by rules.
pub open spec fn banner_spec(health: ComponentHealth, name: Seq<char>, version: Seq<char>) -> Seq<
    char,
> {
    BANNER_RULE@ + "\n "@ + name + " v"@ + version + "\n "@ + BANNER_DASH@
        + "\n Startup Summary:\n  - Database: "@ + status_text_spec(health.database) + "\n"@
        + BANNER_RULE@
}

/// Startup banner.
pub struct StartupBanner;

impl StartupBanner {
    /// The banner that shows the application's name and version and the
    /// status of each component.
    pub fn display(health: ComponentHealth, app_name: &str, app_version: &str) -> (r: String)
        ensures
            r@ == banner_spec(health, app_name@, app_version@),
    {
        let mut s = BANNER_RULE.to_owned();
        s.append("\n ");
        s.append(app_name);
        s.append(" v");
        s.append(app_version);
        s.append("\n ");
        s.append(BANNER_DASH);
        s.append("\n Startup Summary:\n  - Database: ");
        s.append(Self::status_text(health.database));
        s.append("\n");
        s.append(BANNER_RULE);
        s
    }

    /// The text that shows one component's status.
    pub fn status_text(healthy: bool) -> (r: &'static str)
        ensures
            r@ == status_text_spec(healthy),
    {
        if healthy {
            "✓ OK"
        } else {
            "✗ UNAVAILABLE"
        }
    }
}

/// How long the shutdown sequence waits for components to finish.
pub struct GracefulShutdown {
    shutdown_timeout: Duration,
}

impl GracefulShutdown {
    /// A shutdown handler that waits `shutdown_timeout`.
    pub fn new(shutdown_timeout: Duration) -> (r: Self)
        ensures
            r.timeout() == shutdown_timeout,
    {
        GracefulShutdown { shutdown_timeout }
    }

    pub closed spec fn timeout(&self) -> Duration {
        self.shutdown_timeout
    }

    /// How long the shutdown sequence waits.
    pub fn shutdown_timeout(&self) -> (r: Duration)
        ensures
            r == self.timeout(),
    {
        self.shutdown_timeout
    }
}

impl Default for GracefulShutdown {
    fn default() -> (r: Self)
        ensures
            r.timeout() == duration_of_millis(DEFAULT_SHUTDOWN_TIMEOUT_MS),
    {
        GracefulShutdown::new(millis(DEFAULT_SHUTDOWN_TIMEOUT_MS))
    }
}

/// Connects to the database with bounded retry; the attempts themselves are
/// made by the caller, one `RetryState` decision after each.
pub struct DatabaseBootstrap;

impl DatabaseSettings {
    /// Connection attempts to make.
    pub fn connect_attempts(&self) -> (r: u32)
        ensures
            r == self.max_connect_attempts.unwrap_or(DEFAULT_DB_CONNECT_ATTEMPTS),
    {
        self.max_connect_attempts.unwrap_or(DEFAULT_DB_CONNECT_ATTEMPTS)
    }

    /// Delay between connection attempts, in milliseconds.
    pub fn retry_delay_ms(&self) -> (r: u64)
        ensures
            r == self.connect_retry_delay_ms.unwrap_or(DEFAULT_DB_RETRY_DELAY_MS),
    {
        self.connect_retry_delay_ms.unwrap_or(DEFAULT_DB_RETRY_DELAY_MS)
    }
}

} // verus!
