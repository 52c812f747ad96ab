//! The settings that the service runs with.

use crate::constants::{DEFAULT_PORT, DEFAULT_QUEUE_SIZE};
use crate::models::message::opt_view;
use crate::models::MAX_RETRY_ATTEMPTS;
use vstd::prelude::*;

verus! {

/// All settings of the service.
#[derive(Debug, Clone)]
pub struct Config {
    pub server: ServerConfig,
    pub database: DatabaseConfig,
    pub queue: QueueConfig,
    pub metrics: MetricsConfig,
}

/// Where the server listens and how many workers it has.
#[derive(Debug, Clone)]
pub struct ServerConfig {
    pub host: String,
    pub port: u16,
    pub thread_pool_size: usize,
}

/// Where the database is and how many connections are kept to it.
#[derive(Debug, Clone)]
pub struct DatabaseConfig {
    pub url: String,
    pub max_connections: u32,
}

/// The capacity of the message queue and the number of retries.
#[derive(Debug, Clone, Copy, PartialEq, Eq, Structural)]
pub struct QueueConfig {
    pub size: usize,
    pub retry_attempts: u32,
}

/// Where the metrics are served.
#[derive(Debug, Clone, Copy, PartialEq, Eq, Structural)]
pub struct MetricsConfig {
    pub port: u16,
}

/// What the environment says of the settings, each as the text that was
/// found there, if any.
#[derive(Debug, Clone)]
pub struct ConfigSource {
    pub server_host: Option<String>,
    pub server_port: Option<String>,
    pub server_thread_pool_size: Option<String>,
    pub database_url: String,
    pub database_max_connections: Option<String>,
    pub queue_size: Option<String>,
    pub queue_retry_attempts: Option<String>,
    pub metrics_port: Option<String>,
}

/// What `str::parse::<u64>` makes of the text `s`: the number that it reads,
/// or nothing where it reads none.
pub uninterp spec fn parsed_number(s: Seq<char>) -> Option<u64>;

/// Reads a number from `text`.
///
/// Calls `str::parse::<u64>`. Whether it reads a number, and which, is a
/// function of the text alone and is known here only by its name,
/// [`parsed_number`].
#[verifier::external_body]
fn parse_number(text: &str) -> (r: Option<u64>)
    ensures
        r == parsed_number(text@),
{
    text.parse::<u64>().ok()
}

/// The setting that is made of what was read: the number where one was read
/// and is no more than `largest`, and `default` otherwise.
pub open spec fn setting_of(read: Option<u64>, largest: u64, default: u64) -> u64 {
    match read {
        Some(n) => if n <= largest {
            n
        } else {
            default
        },
        None => default,
    }
}

/// The setting that the text `text` gives, where `text` may be missing: the
/// number that is read from it where that is no more than `largest`, and
/// `default` where the text is missing, is no number or is too large.
pub open spec fn setting_from(text: Option<Seq<char>>, largest: u64, default: u64) -> u64 {
    match text {
        Some(t) => setting_of(parsed_number(t), largest, default),
        None => default,
    }
}

/// The setting that is made of what was read.
pub fn number_or(read: Option<u64>, largest: u64, default: u64) -> (n: u64)
    ensures
        n == setting_of(read, largest, default),
{
    match read {
        Some(n) => if n <= largest {
            n
        } else {
            default
        },
        None => default,
    }
}

/// The setting that the text `text` gives, where `text` may be missing.
pub fn parse_or(text: &Option<String>, largest: u64, default: u64) -> (n: u64)
    ensures
        n == setting_from(opt_view(*text), largest, default),
        n == default || n <= largest,
{
    match text {
        Some(t) => number_or(parse_number(t.as_str()), largest, default),
        None => default,
    }
}

impl ConfigSource {
    /// A source that names the database and nothing else.
    pub fn new(database_url: String) -> (s: Self)
        ensures
            s.database_url == database_url,
            s.server_host is None,
            s.server_port is None,
            s.server_thread_pool_size is None,
            s.database_max_connections is None,
            s.queue_size is None,
            s.queue_retry_attempts is None,
            s.metrics_port is None,
    {
        ConfigSource {
            server_host: None,
            server_port: None,
            server_thread_pool_size: None,
            database_url,
            database_max_connections: None,
            queue_size: None,
            queue_retry_attempts: None,
            metrics_port: None,
        }
    }
}

impl Config {
    /// The settings that `source` gives: each is what the environment names
    /// where that can be read as a number that fits, and its default
    /// otherwise.
    pub fn load(source: ConfigSource) -> (c: Config)
        ensures
            c.server.host@ == match source.server_host {
                Some(h) => h@,
                None => "127.0.0.1"@,
            },
            c.server.port == setting_from(
                opt_view(source.server_port),
                u16::MAX as u64,
                DEFAULT_PORT as u64,
            ),
            c.server.thread_pool_size == setting_from(
                opt_view(source.server_thread_pool_size),
                usize::MAX as u64,
                4,
            ),
            c.database.url == source.database_url,
            c.database.max_connections == setting_from(
                opt_view(source.database_max_connections),
                u32::MAX as u64,
                5,
            ),
            c.queue.size == setting_from(
                opt_view(source.queue_size),
                usize::MAX as u64,
                DEFAULT_QUEUE_SIZE as u64,
            ),
            c.queue.retry_attempts == setting_from(
                opt_view(source.queue_retry_attempts),
                u32::MAX as u64,
                MAX_RETRY_ATTEMPTS as u64,
            ),
            c.metrics.port == setting_from(opt_view(source.metrics_port), u16::MAX as u64, 9090),
    {
        let port: u64 = parse_or(&source.server_port, u16::MAX as u64, DEFAULT_PORT as u64);
        let workers: u64 = parse_or(&source.server_thread_pool_size, usize::MAX as u64, 4);
        let connections: u64 = parse_or(&source.database_max_connections, u32::MAX as u64, 5);
        let size: u64 = parse_or(&source.queue_size, usize::MAX as u64, DEFAULT_QUEUE_SIZE as u64);
        let retries: u64 = parse_or(
            &source.queue_retry_attempts,
            u32::MAX as u64,
            MAX_RETRY_ATTEMPTS as u64,
        );
        let metrics: u64 = parse_or(&source.metrics_port, u16::MAX as u64, 9090);
        Config {
            server: ServerConfig {
                host: match source.server_host {
                    Some(h) => h,
                    None => String::from_str("127.0.0.1"),
                },
                port: port as u16,
                thread_pool_size: workers as usize,
            },
            database: DatabaseConfig {
                url: source.database_url,
                max_connections: connections as u32,
            },
            queue: QueueConfig { size: size as usize, retry_attempts: retries as u32 },
            metrics: MetricsConfig { port: metrics as u16 },
        }
    }


    /// The settings that hold unless the environment says otherwise, for the
    /// database at `database_url`.
    pub fn defaults(database_url: String) -> (c: Config)
        ensures
            c.server.host@ == "127.0.0.1"@,
            c.server.port == DEFAULT_PORT,
            c.server.thread_pool_size == 4,
            c.database.url == database_url,
            c.database.max_connections == 5,
            c.queue == (QueueConfig { size: DEFAULT_QUEUE_SIZE, retry_attempts: MAX_RETRY_ATTEMPTS }),
            c.metrics == (MetricsConfig { port: 9090 }),
    {
        Config {
            server: ServerConfig {
                host: String::from_str("127.0.0.1"),
                port: DEFAULT_PORT,
                thread_pool_size: 4,
            },
            database: DatabaseConfig { url: database_url, max_connections: 5 },
            queue: QueueConfig { size: DEFAULT_QUEUE_SIZE, retry_attempts: MAX_RETRY_ATTEMPTS },
            metrics: MetricsConfig { port: 9090 },
        }
    }
}

} // verus!
