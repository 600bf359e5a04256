//! The configuration file: which model the assistant is asked.

use vstd::prelude::*;

verus! {

/// The configuration of the program.
#[derive(Debug)]
pub struct AppConfigs {
    pub model: String,
}

/// Why a configuration text gives no configuration.
#[derive(Debug, Clone, Copy, PartialEq, Eq, Structural)]
pub enum ConfigError {
    /// The text is not a TOML document.
    Unparsable,
    /// The document has no text under `model` in the table `GEMINI`.
    MissingModel,
}

/// What the TOML document `content` holds as a string under `key` in its
/// table `table`: `Err` where `content` is no TOML document, `Ok(None)` where
/// the document has no such table, the table no such key, or the value under
/// it is no string.
pub uninterp spec fn toml_string_at(content: Seq<char>, table: Seq<char>, key: Seq<char>) -> Result<
    Option<Seq<char>>,
    (),
>;

/// A looked-up string as contracts see it.
pub open spec fn found_view(found: Result<Option<String>, ()>) -> Result<Option<Seq<char>>, ()> {
    match found {
        Ok(Some(s)) => Ok(Some(s@)),
        Ok(None) => Ok(None),
        Err(_) => Err(()),
    }
}

/// Parses `content` with `toml::from_str` into a `toml::Value` and reads, with
/// `Value::get` twice and `Value::as_str`, the string under `key` in the table
/// `table`. The answer depends on the three texts alone, so it has a name.
#[verifier::external_body]
fn lookup_string(content: &str, table: &str, key: &str) -> (found: Result<Option<String>, ()>)
    ensures
        found_view(found) == toml_string_at(content@, table@, key@),
{
    match toml::from_str::<toml::Value>(content) {
        Ok(document) => Ok(
            document.get(table).and_then(|t| t.get(key)).and_then(|v| v.as_str()).map(
                |s| s.to_string(),
            ),
        ),
        Err(_) => Err(()),
    }
}

/// The configuration that a looked-up model name gives.
pub open spec fn configured(found: Result<Option<Seq<char>>, ()>) -> Result<Seq<char>, ConfigError> {
    match found {
        Ok(Some(model)) => Ok(model),
        Ok(None) => Err(ConfigError::MissingModel),
        Err(_) => Err(ConfigError::Unparsable),
    }
}

/// The model of a configuration, or the error in its place.
pub open spec fn model_of(res: Result<AppConfigs, ConfigError>) -> Result<Seq<char>, ConfigError> {
    match res {
        Ok(c) => Ok(c.model@),
        Err(e) => Err(e),
    }
}

/// The text of the configuration file that is written where none exists.
pub open spec fn default_text() -> Seq<char> {
    "[GEMINI]\nmodel = \"gemini-pro\""@
}

impl AppConfigs {
    /// The configuration that the model name found in a document gives:
    /// the name where one was found, `MissingModel` where the document has
    /// none, `Unparsable` where there was no document.
    pub fn from_lookup(found: Result<Option<String>, ()>) -> (res: Result<AppConfigs, ConfigError>)
        ensures
            model_of(res) == configured(found_view(found)),
    {
        match found {
            Ok(Some(model)) => Ok(AppConfigs { model }),
            Ok(None) => Err(ConfigError::MissingModel),
            Err(_) => Err(ConfigError::Unparsable),
        }
    }

    /// Reads the configuration from the text of the configuration file.
    pub fn new(content: &str) -> (res: Result<AppConfigs, ConfigError>)
        ensures
            model_of(res) == configured(toml_string_at(content@, "GEMINI"@, "model"@)),
    {
        AppConfigs::from_lookup(lookup_string(content, "GEMINI", "model"))
    }

    /// The text of the configuration file that is written where none exists.
    pub fn default_config() -> (text: String)
        ensures
            text@ == default_text(),
    {
        String::from_str("[GEMINI]\nmodel = \"gemini-pro\"")
    }
}

} // verus!
