//! The processor's settings, with the defaults for those that may be left out.

use vstd::prelude::*;

verus! {

/// Where the processor finds its stream and its store.
#[derive(Debug)]
pub struct ProcessorConfig {
    pub broker: String,
    pub topic: String,
    pub group: String,
    pub database_url: String,
}

/// The mathematical value of a [`ProcessorConfig`].
pub struct ConfigModel {
    pub broker: Seq<char>,
    pub topic: Seq<char>,
    pub group: Seq<char>,
    pub database_url: Seq<char>,
}

impl View for ProcessorConfig {
    type V = ConfigModel;

    open spec fn view(&self) -> ConfigModel {
        ConfigModel {
            broker: self.broker@,
            topic: self.topic@,
            group: self.group@,
            database_url: self.database_url@,
        }
    }
}

/// Why no configuration could be made.
#[derive(Debug, Clone, Copy, PartialEq, Eq, Structural)]
pub enum ConfigError {
    /// The address of the store is required and has no default.
    MissingDatabaseUrl,
}

/// The characters of a setting, where it is given.
pub open spec fn setting(given: Option<String>) -> Option<Seq<char>> {
    match given {
        Some(s) => Some(s@),
        None => None,
    }
}

/// The setting that was given, or its default.
pub open spec fn setting_or(given: Option<Seq<char>>, fallback: Seq<char>) -> Seq<char> {
    match given {
        Some(s) => s,
        None => fallback,
    }
}

/// The configuration that the given settings make: the broker, topic and
/// group fall back on their defaults, the address of the store is required.
pub open spec fn configured(
    broker: Option<Seq<char>>,
    topic: Option<Seq<char>>,
    group: Option<Seq<char>>,
    database_url: Option<Seq<char>>,
) -> Result<ConfigModel, ConfigError> {
    match database_url {
        Some(url) => Ok(
            ConfigModel {
                broker: setting_or(broker, "localhost:9092"@),
                topic: setting_or(topic, "test-topic"@),
                group: setting_or(group, "test-group"@),
                database_url: url,
            },
        ),
        None => Err(ConfigError::MissingDatabaseUrl),
    }
}

fn or_default(given: Option<String>, fallback: &str) -> (r: String)
    ensures
        r@ == setting_or(setting(given), fallback@),
{
    match given {
        Some(s) => s,
        None => fallback.to_owned(),
    }
}

impl ProcessorConfig {
    /// Makes the configuration from the settings that were found.
    pub fn resolve(
        broker: Option<String>,
        topic: Option<String>,
        group: Option<String>,
        database_url: Option<String>,
    ) -> (r: Result<ProcessorConfig, ConfigError>)
        ensures
            match r {
                Ok(config) => configured(
                    setting(broker),
                    setting(topic),
                    setting(group),
                    setting(database_url),
                ) == Ok::<ConfigModel, ConfigError>(config@),
                Err(e) => configured(
                    setting(broker),
                    setting(topic),
                    setting(group),
                    setting(database_url),
                ) == Err::<ConfigModel, ConfigError>(e),
            },
    {
        match database_url {
            Some(url) => Ok(
                ProcessorConfig {
                    broker: or_default(broker, "localhost:9092"),
                    topic: or_default(topic, "test-topic"),
                    group: or_default(group, "test-group"),
                    database_url: url,
                },
            ),
            None => Err(ConfigError::MissingDatabaseUrl),
        }
    }
}

} // verus!
