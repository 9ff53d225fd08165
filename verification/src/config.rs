//! Configuration of the daemon: log verbosity, endpoints and their defaults.

use std::cmp::Ordering;
use vstd::prelude::*;
use vstd::std_specs::cmp::PartialOrdSpecImpl;

verus! {

/// Log verbosity, ordered from quietest to loudest: `Warn < Info < Debug`.
#[derive(Clone, Copy, Debug, PartialEq, Eq, Structural, Ord, Hash)]
pub enum LogLevel {
    Warn,
    Info,
    Debug,
}

impl PartialOrd for LogLevel {
    /// Compares two levels by their place in `Warn < Info < Debug`.
    fn partial_cmp(&self, other: &LogLevel) -> (order: Option<Ordering>) {
        match (self, other) {
            (LogLevel::Warn, LogLevel::Warn) => Some(Ordering::Equal),
            (LogLevel::Warn, _) => Some(Ordering::Less),
            (LogLevel::Info, LogLevel::Warn) => Some(Ordering::Greater),
            (LogLevel::Info, LogLevel::Info) => Some(Ordering::Equal),
            (LogLevel::Info, LogLevel::Debug) => Some(Ordering::Less),
            (LogLevel::Debug, LogLevel::Debug) => Some(Ordering::Equal),
            (LogLevel::Debug, _) => Some(Ordering::Greater),
        }
    }
}

impl PartialOrdSpecImpl for LogLevel {
    open spec fn obeys_partial_cmp_spec() -> bool {
        true
    }

    /// `<`, `<=`, `>` and `>=` on levels compare their ranks.
    open spec fn partial_cmp_spec(&self, other: &LogLevel) -> Option<Ordering> {
        if self.rank() < other.rank() {
            Some(Ordering::Less)
        } else if self.rank() == other.rank() {
            Some(Ordering::Equal)
        } else {
            Some(Ordering::Greater)
        }
    }
}

impl LogLevel {
    /// Position of the level in the order `Warn < Info < Debug`.
    pub open spec fn rank(self) -> nat {
        match self {
            LogLevel::Warn => 0,
            LogLevel::Info => 1,
            LogLevel::Debug => 2,
        }
    }

    /// Whether messages of level `other` pass a filter set to `self`.
    pub fn admits(self, other: LogLevel) -> (r: bool)
        ensures
            r == (other.rank() <= self.rank()),
    {
        other <= self
    }
}

/// The level selected by `count` occurrences of the verbosity flag.
pub open spec fn level_for_count(count: nat) -> LogLevel {
    if count == 0 {
        LogLevel::Warn
    } else if count == 1 {
        LogLevel::Info
    } else {
        LogLevel::Debug
    }
}

/// Maps the number of times the verbosity flag was given to a log level.
pub fn level_from_occurrences(count: u64) -> (level: LogLevel)
    ensures
        level == level_for_count(count as nat),
{
    match count {
        0 => LogLevel::Warn,
        1 => LogLevel::Info,
        _ => LogLevel::Debug,
    }
}

/// The validator endpoint used when neither the command line nor the caller
/// names one.
pub const DEFAULT_VALIDATOR_ENDPOINT: &'static str = "127.0.0.1:4004";

/// The REST API bind endpoint used when neither the command line nor the
/// caller names one.
pub const DEFAULT_REST_API_ENDPOINT: &'static str = "127.0.0.1:8080";

/// The values that the command line gave: `-C/--connect`, `-b/--bind` and
/// the number of times `-v` occurred.
#[derive(Debug, PartialEq, Eq)]
pub struct CliArgs {
    pub connect: Option<String>,
    pub bind: Option<String>,
    pub verbose: u64,
}

impl Clone for CliArgs {
    fn clone(&self) -> (copy: CliArgs)
        ensures
            copy == *self,
    {
        let connect = match &self.connect {
            Some(endpoint) => Some(endpoint.clone()),
            None => None,
        };
        let bind = match &self.bind {
            Some(endpoint) => Some(endpoint.clone()),
            None => None,
        };
        CliArgs { connect, bind, verbose: self.verbose }
    }
}

/// The text of an optional string.
pub open spec fn text_of(value: Option<String>) -> Option<Seq<char>> {
    match value {
        Some(text) => Some(text@),
        None => None,
    }
}

/// A setting of the configuration.
#[derive(Clone, Copy, Debug, PartialEq, Eq, Structural, Hash)]
pub enum Setting {
    ValidatorEndpoint,
    RestApiEndpoint,
    LogLevel,
}

/// Why no configuration could be built.
#[derive(Clone, Copy, Debug, PartialEq, Eq, Structural, Hash)]
pub enum ConfigError {
    /// The setting has no value: none was given and there is no default.
    MissingValue(Setting),
}

/// What a [`Configuration`] holds.
pub struct ConfigurationView {
    pub validator_endpoint: Seq<char>,
    pub rest_api_endpoint: Seq<char>,
    pub log_level: LogLevel,
}

/// What a [`ConfigBuilder`] holds: for each setting the value it has so far,
/// if any.
pub struct ConfigBuilderView {
    pub validator_endpoint: Option<Seq<char>>,
    pub rest_api_endpoint: Option<Seq<char>>,
    pub log_level: Option<LogLevel>,
}

impl ConfigBuilderView {
    /// No setting has a value.
    pub open spec fn empty() -> ConfigBuilderView {
        ConfigBuilderView { validator_endpoint: None, rest_api_endpoint: None, log_level: None }
    }

    /// Every setting has its default.
    pub open spec fn defaults() -> ConfigBuilderView {
        ConfigBuilderView {
            validator_endpoint: Some(DEFAULT_VALIDATOR_ENDPOINT@),
            rest_api_endpoint: Some(DEFAULT_REST_API_ENDPOINT@),
            log_level: Some(LogLevel::Warn),
        }
    }

    /// The command line wins over what the builder held: an endpoint that
    /// the command line names replaces the builder's, one that it does not
    /// name leaves it; the log level is always that of the verbosity count.
    pub open spec fn with_cli_args(
        self,
        connect: Option<Seq<char>>,
        bind: Option<Seq<char>>,
        verbose: nat,
    ) -> ConfigBuilderView {
        ConfigBuilderView {
            validator_endpoint: if connect is Some {
                connect
            } else {
                self.validator_endpoint
            },
            rest_api_endpoint: if bind is Some {
                bind
            } else {
                self.rest_api_endpoint
            },
            log_level: Some(level_for_count(verbose)),
        }
    }

    /// The configuration, if every setting has a value; else the first
    /// setting without one, in the order validator endpoint, REST API
    /// endpoint, log level.
    pub open spec fn build(self) -> Result<ConfigurationView, ConfigError> {
        if self.validator_endpoint is None {
            Err(ConfigError::MissingValue(Setting::ValidatorEndpoint))
        } else if self.rest_api_endpoint is None {
            Err(ConfigError::MissingValue(Setting::RestApiEndpoint))
        } else if self.log_level is None {
            Err(ConfigError::MissingValue(Setting::LogLevel))
        } else {
            Ok(
                ConfigurationView {
                    validator_endpoint: self.validator_endpoint->0,
                    rest_api_endpoint: self.rest_api_endpoint->0,
                    log_level: self.log_level->0,
                },
            )
        }
    }
}

/// The configuration that the command-line values resolve to over the
/// defaults.
pub open spec fn resolved(
    connect: Option<Seq<char>>,
    bind: Option<Seq<char>>,
    verbose: nat,
) -> ConfigurationView {
    ConfigurationView {
        validator_endpoint: match connect {
            Some(endpoint) => endpoint,
            None => DEFAULT_VALIDATOR_ENDPOINT@,
        },
        rest_api_endpoint: match bind {
            Some(endpoint) => endpoint,
            None => DEFAULT_REST_API_ENDPOINT@,
        },
        log_level: level_for_count(verbose),
    }
}

/// The configuration of one process: built once, never changed afterwards.
/// Endpoints are carried as given; whoever connects or binds validates them.
#[derive(Debug, PartialEq, Eq)]
pub struct Configuration {
    validator_endpoint: String,
    rest_api_endpoint: String,
    log_level: LogLevel,
}

impl View for Configuration {
    type V = ConfigurationView;

    closed spec fn view(&self) -> ConfigurationView {
        ConfigurationView {
            validator_endpoint: self.validator_endpoint@,
            rest_api_endpoint: self.rest_api_endpoint@,
            log_level: self.log_level,
        }
    }
}

impl Configuration {
    /// The address of the validator to connect to.
    pub fn validator_endpoint(&self) -> (endpoint: &str)
        ensures
            endpoint@ == self@.validator_endpoint,
    {
        self.validator_endpoint.as_str()
    }

    /// The address on which the REST API listens.
    pub fn rest_api_endpoint(&self) -> (endpoint: &str)
        ensures
            endpoint@ == self@.rest_api_endpoint,
    {
        self.rest_api_endpoint.as_str()
    }

    /// The log verbosity.
    pub fn log_level(&self) -> (level: LogLevel)
        ensures
            level == self@.log_level,
    {
        self.log_level
    }
}

/// Collects the settings of a [`Configuration`] from defaults, from the
/// caller and from the command line.
#[derive(Debug)]
pub struct ConfigBuilder {
    validator_endpoint: Option<String>,
    rest_api_endpoint: Option<String>,
    log_level: Option<LogLevel>,
}

impl View for ConfigBuilder {
    type V = ConfigBuilderView;

    closed spec fn view(&self) -> ConfigBuilderView {
        ConfigBuilderView {
            validator_endpoint: text_of(self.validator_endpoint),
            rest_api_endpoint: text_of(self.rest_api_endpoint),
            log_level: self.log_level,
        }
    }
}

impl ConfigBuilder {
    /// A builder in which no setting has a value.
    pub fn new() -> (builder: ConfigBuilder)
        ensures
            builder@ == ConfigBuilderView::empty(),
    {
        ConfigBuilder { validator_endpoint: None, rest_api_endpoint: None, log_level: None }
    }

    /// Sets the validator endpoint, replacing what the builder held.
    pub fn with_validator_endpoint(self, endpoint: String) -> (builder: ConfigBuilder)
        ensures
            builder@ == (ConfigBuilderView { validator_endpoint: Some(endpoint@), ..self@ }),
    {
        ConfigBuilder {
            validator_endpoint: Some(endpoint),
            rest_api_endpoint: self.rest_api_endpoint,
            log_level: self.log_level,
        }
    }

    /// Sets the REST API bind endpoint, replacing what the builder held.
    pub fn with_rest_api_endpoint(self, endpoint: String) -> (builder: ConfigBuilder)
        ensures
            builder@ == (ConfigBuilderView { rest_api_endpoint: Some(endpoint@), ..self@ }),
    {
        ConfigBuilder {
            validator_endpoint: self.validator_endpoint,
            rest_api_endpoint: Some(endpoint),
            log_level: self.log_level,
        }
    }

    /// Sets the log level, replacing what the builder held.
    pub fn with_log_level(self, level: LogLevel) -> (builder: ConfigBuilder)
        ensures
            builder@ == (ConfigBuilderView { log_level: Some(level), ..self@ }),
    {
        ConfigBuilder {
            validator_endpoint: self.validator_endpoint,
            rest_api_endpoint: self.rest_api_endpoint,
            log_level: Some(level),
        }
    }

    /// Takes over what the command line gave.
    pub fn with_cli_args(self, args: &CliArgs) -> (builder: ConfigBuilder)
        ensures
            builder@ == self@.with_cli_args(
                text_of(args.connect),
                text_of(args.bind),
                args.verbose as nat,
            ),
    {
        let validator_endpoint = match &args.connect {
            Some(endpoint) => Some(endpoint.clone()),
            None => self.validator_endpoint,
        };
        let rest_api_endpoint = match &args.bind {
            Some(endpoint) => Some(endpoint.clone()),
            None => self.rest_api_endpoint,
        };
        ConfigBuilder {
            validator_endpoint,
            rest_api_endpoint,
            log_level: Some(level_from_occurrences(args.verbose)),
        }
    }

    /// Builds the configuration. Fails only if a setting has no value.
    pub fn build(self) -> (result: Result<Configuration, ConfigError>)
        ensures
            match result {
                Ok(configuration) => self@.build() == Ok::<ConfigurationView, ConfigError>(
                    configuration@,
                ),
                Err(error) => self@.build() == Err::<ConfigurationView, ConfigError>(error),
            },
    {
        let validator_endpoint = match self.validator_endpoint {
            Some(endpoint) => endpoint,
            None => { return Err(ConfigError::MissingValue(Setting::ValidatorEndpoint)); },
        };
        let rest_api_endpoint = match self.rest_api_endpoint {
            Some(endpoint) => endpoint,
            None => { return Err(ConfigError::MissingValue(Setting::RestApiEndpoint)); },
        };
        let log_level = match self.log_level {
            Some(level) => level,
            None => { return Err(ConfigError::MissingValue(Setting::LogLevel)); },
        };
        Ok(Configuration { validator_endpoint, rest_api_endpoint, log_level })
    }
}

impl Default for ConfigBuilder {
    /// A builder in which every setting has its default.
    fn default() -> (builder: ConfigBuilder)
        ensures
            builder@ == ConfigBuilderView::defaults(),
    {
        ConfigBuilder {
            validator_endpoint: Some(DEFAULT_VALIDATOR_ENDPOINT.to_owned()),
            rest_api_endpoint: Some(DEFAULT_REST_API_ENDPOINT.to_owned()),
            log_level: Some(LogLevel::Warn),
        }
    }
}

/// Resolves the command-line values over the defaults. Every setting has a
/// default, so this always succeeds.
pub fn resolve(args: &CliArgs) -> (result: Result<Configuration, ConfigError>)
    ensures
        result is Ok,
        result->Ok_0@ == resolved(text_of(args.connect), text_of(args.bind), args.verbose as nat),
{
    ConfigBuilder::default().with_cli_args(args).build()
}

/// More occurrences of the verbosity flag never select a quieter level.
pub proof fn theorem_verbosity_is_monotonic(fewer: nat, more: nat)
    requires
        fewer <= more,
    ensures
        level_for_count(fewer).rank() <= level_for_count(more).rank(),
{
}

/// Every count selects exactly one level, and the levels split the counts:
/// 0 alone selects `Warn`, 1 alone selects `Info`, and 2 or more select
/// `Debug`.
pub proof fn theorem_verbosity_is_a_step_function(count: nat)
    ensures
        level_for_count(count) == LogLevel::Warn <==> count == 0,
        level_for_count(count) == LogLevel::Info <==> count == 1,
        level_for_count(count) == LogLevel::Debug <==> count >= 2,
{
}

/// From two occurrences on, the level is `Debug` and stays there.
pub proof fn theorem_verbosity_settles_at_debug(count: nat)
    requires
        count >= 2,
    ensures
        level_for_count(count) == LogLevel::Debug,
{
}

} // verus!
