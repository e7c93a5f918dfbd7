//! Publisher and subscriber configuration, its defaults, and the settings
//! handed to the broker client.
use vstd::prelude::*;
use core::time::Duration;
use rdkafka::ClientConfig;

verus! {

/// Queue capacity when none is configured.
pub const DEFAULT_QUEUE_CAPACITY: usize = 1000;

/// Retry attempts per message when none is configured.
pub const DEFAULT_MAX_RETRY_ATTEMPTS: u32 = 5;

/// Backoff between retries, in milliseconds, when none is configured.
pub const DEFAULT_RETRY_BACKOFF_MS: u64 = 500;

/// Auto-commit interval, in milliseconds, when none is configured.
pub const DEFAULT_AUTO_COMMIT_INTERVAL_MS: u64 = 5000;

/// Session timeout, in milliseconds, when none is configured.
pub const DEFAULT_SESSION_TIMEOUT_MS: u64 = 10000;

#[verifier::external_type_specification]
#[verifier::external_body]
pub struct ExClientConfig(ClientConfig);

/// The key-value settings that a broker client configuration holds.
pub uninterp spec fn client_settings(c: ClientConfig) -> Map<Seq<char>, Seq<char>>;

/// A configuration with nothing set.
pub open spec fn no_settings() -> Map<Seq<char>, Seq<char>> {
    Map::empty()
}

/// The duration of `ms` milliseconds.
pub uninterp spec fn duration_of_millis(ms: u64) -> Duration;

/// Relies on rdkafka's ClientConfig::new: a configuration with no settings.
#[verifier::external_body]
fn new_client_config() -> (r: ClientConfig)
    ensures
        client_settings(r) == no_settings(),
{
    ClientConfig::new()
}

/// Relies on rdkafka's ClientConfig::set: inserts `key` with `value`, replacing
/// an earlier value of `key`.
#[verifier::external_body]
fn set_entry(c: &mut ClientConfig, key: &str, value: &str)
    ensures
        client_settings(*final(c)) == client_settings(*old(c)).insert(key@, value@),
{
    c.set(key, value);
}

/// Relies on Duration::from_millis: the duration of that many milliseconds.
#[verifier::external_body]
pub(crate) fn millis(ms: u64) -> (r: Duration)
    ensures
        r == duration_of_millis(ms),
{
    Duration::from_millis(ms)
}

/// Relies on ToString for u64: its decimal digits, without sign or padding.
#[verifier::external_body]
fn decimal_text(n: u64) -> (r: String)
    ensures
        r@ == decimal(n as nat),
{
    n.to_string()
}

/// The character of a decimal digit.
pub open spec fn digit_char(d: nat) -> char {
    seq!['0', '1', '2', '3', '4', '5', '6', '7', '8', '9'][d as int]
}

/// The decimal digits of `n`, most significant first, with no leading zero.
pub open spec fn decimal(n: nat) -> Seq<char>
    decreases n,
{
    if n < 10 {
        seq![digit_char(n)]
    } else {
        decimal(n / 10).push(digit_char(n % 10))
    }
}

/// `true` or `false`.
pub open spec fn bool_text(b: bool) -> Seq<char> {
    if b {
        "true"@
    } else {
        "false"@
    }
}

/// `m` with `key` set to the value of `v`, where there is one.
pub open spec fn with_opt(
    m: Map<Seq<char>, Seq<char>>,
    key: Seq<char>,
    v: Option<Seq<char>>,
) -> Map<Seq<char>, Seq<char>> {
    match v {
        Some(x) => m.insert(key, x),
        None => m,
    }
}

pub open spec fn opt_text(o: Option<String>) -> Option<Seq<char>> {
    match o {
        Some(s) => Some(s@),
        None => None,
    }
}

pub open spec fn opt_decimal(o: Option<u64>) -> Option<Seq<char>> {
    match o {
        Some(n) => Some(decimal(n as nat)),
        None => None,
    }
}

fn bool_string(b: bool) -> (r: String)
    ensures
        r@ == bool_text(b),
{
    if b {
        "true".to_owned()
    } else {
        "false".to_owned()
    }
}

fn set_opt(c: &mut ClientConfig, key: &str, v: &Option<String>)
    ensures
        client_settings(*final(c)) == with_opt(client_settings(*old(c)), key@, opt_text(*v)),
{
    match v {
        Some(s) => set_entry(c, key, s.as_str()),
        None => {},
    }
}

fn set_opt_decimal(c: &mut ClientConfig, key: &str, v: Option<u64>)
    ensures
        client_settings(*final(c)) == with_opt(client_settings(*old(c)), key@, opt_decimal(v)),
{
    match v {
        Some(n) => {
            let s = decimal_text(n);
            set_entry(c, key, s.as_str());
        },
        None => {},
    }
}

/// Configuration of a publisher.
#[derive(Debug, Clone)]
pub struct KafkaProducerConfig {
    pub brokers: String,
    pub topic: String,
    pub client_id: Option<String>,
    pub queue_capacity: Option<usize>,
    pub max_retry_attempts: Option<u32>,
    pub retry_backoff_ms: Option<u64>,
    pub compression: Option<String>,
    pub batch_size: Option<usize>,
    pub linger_ms: Option<u64>,
    pub acks: Option<String>,
    pub idempotence: Option<bool>,
}

impl KafkaProducerConfig {
    /// The backoff between retries, in milliseconds.
    pub open spec fn spec_retry_backoff_ms(self) -> u64 {
        self.retry_backoff_ms.unwrap_or(DEFAULT_RETRY_BACKOFF_MS)
    }

    /// The settings handed to the broker client: the brokers, a fixed 5 s
    /// per-message timeout, and each optional hint that is configured.
    pub open spec fn spec_client_settings(self) -> Map<Seq<char>, Seq<char>> {
        let m = Map::empty().insert("bootstrap.servers"@, self.brokers@).insert(
            "message.timeout.ms"@,
            "5000"@,
        );
        let m = with_opt(m, "client.id"@, opt_text(self.client_id));
        let m = with_opt(m, "compression.type"@, opt_text(self.compression));
        let m = with_opt(
            m,
            "batch.size"@,
            opt_decimal(
                match self.batch_size {
                    Some(n) => Some(n as u64),
                    None => None,
                },
            ),
        );
        let m = with_opt(m, "linger.ms"@, opt_decimal(self.linger_ms));
        let m = with_opt(m, "acks"@, opt_text(self.acks));
        with_opt(
            m,
            "enable.idempotence"@,
            match self.idempotence {
                Some(b) => Some(bool_text(b)),
                None => None,
            },
        )
    }

    /// Capacity of the publish queue.
    pub fn queue_capacity(&self) -> (r: usize)
        ensures
            r == self.queue_capacity.unwrap_or(DEFAULT_QUEUE_CAPACITY),
    {
        self.queue_capacity.unwrap_or(DEFAULT_QUEUE_CAPACITY)
    }

    /// Retries per message after the first try.
    pub fn max_retry_attempts(&self) -> (r: u32)
        ensures
            r == self.max_retry_attempts.unwrap_or(DEFAULT_MAX_RETRY_ATTEMPTS),
    {
        self.max_retry_attempts.unwrap_or(DEFAULT_MAX_RETRY_ATTEMPTS)
    }

    /// Backoff between retries, in milliseconds.
    pub fn retry_backoff_ms(&self) -> (r: u64)
        ensures
            r == self.spec_retry_backoff_ms(),
    {
        self.retry_backoff_ms.unwrap_or(DEFAULT_RETRY_BACKOFF_MS)
    }

    /// Backoff between retries.
    pub fn retry_backoff(&self) -> (r: Duration)
        ensures
            r == duration_of_millis(self.spec_retry_backoff_ms()),
    {
        millis(self.retry_backoff_ms())
    }

    /// Linger hint of the broker client; zero when none is configured.
    pub fn linger_duration(&self) -> (r: Duration)
        ensures
            r == duration_of_millis(self.linger_ms.unwrap_or(0)),
    {
        millis(self.linger_ms.unwrap_or(0))
    }

    /// The broker client configuration for this publisher.
    pub fn client_config(&self) -> (r: ClientConfig)
        ensures
            client_settings(r) == self.spec_client_settings(),
    {
        let mut c = new_client_config();
        set_entry(&mut c, "bootstrap.servers", self.brokers.as_str());
        set_entry(&mut c, "message.timeout.ms", "5000");
        set_opt(&mut c, "client.id", &self.client_id);
        set_opt(&mut c, "compression.type", &self.compression);
        let batch: Option<u64> = match self.batch_size {
            Some(n) => Some(n as u64),
            None => None,
        };
        set_opt_decimal(&mut c, "batch.size", batch);
        set_opt_decimal(&mut c, "linger.ms", self.linger_ms);
        set_opt(&mut c, "acks", &self.acks);
        match self.idempotence {
            Some(b) => {
                let s = bool_string(b);
                set_entry(&mut c, "enable.idempotence", s.as_str());
            },
            None => {},
        }
        c
    }
}

/// Configuration of a subscriber.
#[derive(Debug, Clone)]
pub struct KafkaConsumerConfig {
    pub brokers: String,
    pub topics: Vec<String>,
    pub group_id: String,
    pub client_id: Option<String>,
    pub auto_offset_reset: Option<String>,
    pub enable_auto_commit: Option<bool>,
    pub auto_commit_interval_ms: Option<u64>,
    pub session_timeout_ms: Option<u64>,
    pub max_poll_records: Option<usize>,
}

impl KafkaConsumerConfig {
    pub open spec fn spec_auto_offset_reset(self) -> Seq<char> {
        match self.auto_offset_reset {
            Some(s) => s@,
            None => "earliest"@,
        }
    }

    pub open spec fn spec_enable_auto_commit(self) -> bool {
        self.enable_auto_commit.unwrap_or(true)
    }

    pub open spec fn spec_auto_commit_interval_ms(self) -> u64 {
        self.auto_commit_interval_ms.unwrap_or(DEFAULT_AUTO_COMMIT_INTERVAL_MS)
    }

    pub open spec fn spec_session_timeout_ms(self) -> u64 {
        self.session_timeout_ms.unwrap_or(DEFAULT_SESSION_TIMEOUT_MS)
    }

    /// The settings handed to the broker client: brokers, group, offset reset
    /// policy, auto-commit flag and session timeout; the client identity where
    /// one is configured; the commit interval where auto-commit is on.
    pub open spec fn spec_client_settings(self) -> Map<Seq<char>, Seq<char>> {
        let m = Map::empty().insert("bootstrap.servers"@, self.brokers@).insert(
            "group.id"@,
            self.group_id@,
        ).insert("auto.offset.reset"@, self.spec_auto_offset_reset()).insert(
            "enable.auto.commit"@,
            bool_text(self.spec_enable_auto_commit()),
        ).insert("session.timeout.ms"@, decimal(self.spec_session_timeout_ms() as nat));
        let m = with_opt(m, "client.id"@, opt_text(self.client_id));
        if self.spec_enable_auto_commit() {
            m.insert("auto.commit.interval.ms"@, decimal(self.spec_auto_commit_interval_ms() as nat))
        } else {
            m
        }
    }

    /// Where to start reading when the group has no committed offset.
    pub fn auto_offset_reset(&self) -> (r: String)
        ensures
            r@ == self.spec_auto_offset_reset(),
    {
        match &self.auto_offset_reset {
            Some(s) => s.clone(),
            None => "earliest".to_owned(),
        }
    }

    /// Whether offsets are committed automatically.
    pub fn enable_auto_commit(&self) -> (r: bool)
        ensures
            r == self.spec_enable_auto_commit(),
    {
        self.enable_auto_commit.unwrap_or(true)
    }

    /// Interval between automatic commits, in milliseconds.
    pub fn auto_commit_interval_ms(&self) -> (r: u64)
        ensures
            r == self.spec_auto_commit_interval_ms(),
    {
        self.auto_commit_interval_ms.unwrap_or(DEFAULT_AUTO_COMMIT_INTERVAL_MS)
    }

    /// Session timeout, in milliseconds.
    pub fn session_timeout_ms(&self) -> (r: u64)
        ensures
            r == self.spec_session_timeout_ms(),
    {
        self.session_timeout_ms.unwrap_or(DEFAULT_SESSION_TIMEOUT_MS)
    }

    /// The broker client configuration for this subscriber.
    pub fn client_config(&self) -> (r: ClientConfig)
        ensures
            client_settings(r) == self.spec_client_settings(),
    {
        let mut c = new_client_config();
        set_entry(&mut c, "bootstrap.servers", self.brokers.as_str());
        set_entry(&mut c, "group.id", self.group_id.as_str());
        let reset = self.auto_offset_reset();
        set_entry(&mut c, "auto.offset.reset", reset.as_str());
        let auto_commit = self.enable_auto_commit();
        let commit_text = bool_string(auto_commit);
        set_entry(&mut c, "enable.auto.commit", commit_text.as_str());
        let timeout = decimal_text(self.session_timeout_ms());
        set_entry(&mut c, "session.timeout.ms", timeout.as_str());
        set_opt(&mut c, "client.id", &self.client_id);
        if auto_commit {
            let interval = decimal_text(self.auto_commit_interval_ms());
            set_entry(&mut c, "auto.commit.interval.ms", interval.as_str());
        }
        c
    }
}

} // verus!
