//! Settings assembled once at startup from the process environment.
use vstd::prelude::*;

verus! {

/// Broker address used when none is configured.
pub const DEFAULT_AMQP_ADDR: &'static str = "amqp://127.0.0.1:5672/%2f";

/// Log filter used when none is configured.
pub const DEFAULT_LOG_LEVEL: &'static str = "info";

/// Name of the queue that is declared and consumed.
pub const QUEUE_NAME: &'static str = "example_queue";

/// Identity under which the consumer registers with the broker.
pub const CONSUMER_TAG: &'static str = "my_consumer";

/// What is done with each decoded message.
#[derive(Clone, Copy, Debug, PartialEq, Eq, Structural)]
pub enum Mode {
    /// Write each message body to standard output.
    Print,
    /// Insert each message body as a row of the store.
    Persist,
}

/// The handler chosen at startup, with what it needs.
#[derive(Debug)]
pub enum Handler {
    Print,
    /// Holds the store's connection string.
    Persist(String),
}

/// Why the settings could not be assembled.
#[derive(Clone, Copy, Debug, PartialEq, Eq, Structural)]
pub enum ConfigError {
    /// The store's connection string is required and was not given.
    MissingDatabaseUrl,
}

/// Settings of one run, fixed once assembled.
#[derive(Debug)]
pub struct Config {
    pub amqp_addr: String,
    pub log_level: String,
    pub queue_name: String,
    pub consumer_tag: String,
    pub handler: Handler,
}

/// The value that a setting takes: the configured one, else its default.
pub open spec fn setting_or(given: Option<String>, default: Seq<char>) -> Seq<char> {
    match given {
        Some(s) => s@,
        None => default,
    }
}

impl Handler {
    /// The mode this handler belongs to.
    pub open spec fn spec_mode(&self) -> Mode {
        match self {
            Handler::Print => Mode::Print,
            Handler::Persist(_) => Mode::Persist,
        }
    }

    pub fn mode(&self) -> (r: Mode)
        ensures
            r == self.spec_mode(),
    {
        match self {
            Handler::Print => Mode::Print,
            Handler::Persist(_) => Mode::Persist,
        }
    }
}

fn setting(given: Option<String>, default: &str) -> (r: String)
    ensures
        r@ == setting_or(given, default@),
{
    match given {
        Some(s) => s,
        None => default.to_owned(),
    }
}

impl Config {
    /// Assembles the settings from what the environment provides.
    ///
    /// Fails exactly when the store is to be used and its connection string
    /// is absent; the broker address and the log filter fall back to their
    /// defaults, and the queue name and consumer tag are fixed.
    pub fn assemble(
        amqp_addr: Option<String>,
        log_level: Option<String>,
        database_url: Option<String>,
        mode: Mode,
    ) -> (r: Result<Config, ConfigError>)
        ensures
            r is Err <==> (mode == Mode::Persist && database_url is None),
            r matches Err(e) ==> e == ConfigError::MissingDatabaseUrl,
            r matches Ok(c) ==> {
                &&& c.amqp_addr@ == setting_or(amqp_addr, DEFAULT_AMQP_ADDR@)
                &&& c.log_level@ == setting_or(log_level, DEFAULT_LOG_LEVEL@)
                &&& c.queue_name@ == QUEUE_NAME@
                &&& c.consumer_tag@ == CONSUMER_TAG@
                &&& c.handler.spec_mode() == mode
                &&& (c.handler matches Handler::Persist(url) ==> database_url == Some(url))
            },
    {
        let handler = match mode {
            Mode::Print => Handler::Print,
            Mode::Persist => match database_url {
                Some(url) => Handler::Persist(url),
                None => {
                    return Err(ConfigError::MissingDatabaseUrl);
                },
            },
        };
        Ok(Config {
            amqp_addr: setting(amqp_addr, DEFAULT_AMQP_ADDR),
            log_level: setting(log_level, DEFAULT_LOG_LEVEL),
            queue_name: QUEUE_NAME.to_owned(),
            consumer_tag: CONSUMER_TAG.to_owned(),
            handler,
        })
    }
}

} // verus!
