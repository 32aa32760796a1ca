//! The configuration of the REST backend's client: an API key, a model and
//! a temperature, kept in a JSON file under the user's home directory.

use vstd::prelude::*;

use crate::error::{GeminiError, GeminiErrorKind};
use crate::text::concat;
use crate::types::Single;

verus! {

/// Where the configuration file lies, from the home directory down.
pub const CONFIG_DIRECTORY: &'static str = ".aws";

pub const CONFIG_SUBDIRECTORY: &'static str = "amazonq";

pub const CONFIG_FILE_NAME: &'static str = "gemini_config.json";

/// The model that is used where none is configured.
pub const DEFAULT_MODEL: &'static str = "gemini-2.0-flash";

/// The bit pattern of the temperature that is used where none is
/// configured, seven tenths.
pub const DEFAULT_TEMPERATURE_BITS: u32 = 0x3F33_3333;

/// Configuration for the REST backend's client.
#[derive(Debug, PartialEq)]
pub struct GeminiConfig {
    /// The API key that authenticates the client.
    pub api_key: String,
    /// The model to use.
    pub model: String,
    /// The temperature that controls randomness, between zero and one.
    pub temperature: Single,
}

impl Default for GeminiConfig {
    fn default() -> (r: GeminiConfig)
        ensures
            r.api_key@ == Seq::<char>::empty(),
            r.model@ == DEFAULT_MODEL@,
            r.temperature.bits == DEFAULT_TEMPERATURE_BITS,
    {
        GeminiConfig {
            api_key: String::new(),
            model: DEFAULT_MODEL.to_owned(),
            temperature: Single::from_bits(DEFAULT_TEMPERATURE_BITS),
        }
    }
}

/// What was found where the configuration file should be.
#[derive(Debug, PartialEq)]
pub enum ConfigFile {
    /// There is no file at `path`.
    Missing { path: String },
    /// The file could not be read, for the given cause.
    Unreadable { cause: String },
    /// The file does not hold a configuration, for the given cause.
    Malformed { cause: String },
    /// The file holds this configuration.
    Parsed(GeminiConfig),
}

/// What is wrong with a configuration, if anything: a missing API key comes
/// first, then a missing model, then a temperature out of range.
pub open spec fn config_fault(config: GeminiConfig) -> Option<Seq<char>> {
    if config.api_key@.len() == 0 {
        Some("Gemini API key is missing in configuration"@)
    } else if config.model@.len() == 0 {
        Some("Gemini model is missing in configuration"@)
    } else if !config.temperature.in_unit_range() {
        Some("Invalid temperature value. Value should be between 0 and 1"@)
    } else {
        None
    }
}

/// Validates a configuration: the API key and the model must not be empty,
/// and the temperature must lie between zero and one.
pub fn validate_config(config: &GeminiConfig) -> (r: Result<(), GeminiError>)
    ensures
        r is Ok <==> config_fault(*config) is None,
        r matches Err(e) ==> Some(e@) == (match config_fault(*config) {
            Some(fault) => Some((GeminiErrorKind::Configuration, fault)),
            None => None,
        }),
{
    if config.api_key.as_str().is_empty() {
        return Err(
            GeminiError::ConfigurationError(
                "Gemini API key is missing in configuration".to_owned(),
            ),
        );
    }
    if config.model.as_str().is_empty() {
        return Err(
            GeminiError::ConfigurationError("Gemini model is missing in configuration".to_owned()),
        );
    }
    if !config.temperature.is_in_unit_range() {
        return Err(
            GeminiError::ConfigurationError(
                "Invalid temperature value. Value should be between 0 and 1".to_owned(),
            ),
        );
    }
    Ok(())
}

/// Why loading fails on what was found, if it does.
pub open spec fn load_fault(found: ConfigFile) -> Option<Seq<char>> {
    match found {
        ConfigFile::Missing { path } => Some("Gemini configuration file not found at "@ + path@),
        ConfigFile::Unreadable { cause } => Some(
            "Failed to read Gemini configuration file: "@ + cause@,
        ),
        ConfigFile::Malformed { cause } => Some(
            "Invalid Gemini configuration format: "@ + cause@,
        ),
        ConfigFile::Parsed(config) => config_fault(config),
    }
}

/// Loads the configuration from what was found where the file should be.
/// This succeeds exactly for a file that holds a valid configuration, and
/// then returns it; every other case is a configuration error that says
/// what was wrong.
pub fn load_config(found: ConfigFile) -> (r: Result<GeminiConfig, GeminiError>)
    ensures
        r is Ok <==> load_fault(found) is None,
        r matches Ok(config) ==> found == ConfigFile::Parsed(config),
        r matches Err(e) ==> Some(e@) == (match load_fault(found) {
            Some(fault) => Some((GeminiErrorKind::Configuration, fault)),
            None => None,
        }),
{
    match found {
        ConfigFile::Missing { path } => Err(
            GeminiError::ConfigurationError(
                concat("Gemini configuration file not found at ", path.as_str()),
            ),
        ),
        ConfigFile::Unreadable { cause } => Err(
            GeminiError::ConfigurationError(
                concat("Failed to read Gemini configuration file: ", cause.as_str()),
            ),
        ),
        ConfigFile::Malformed { cause } => Err(
            GeminiError::ConfigurationError(
                concat("Invalid Gemini configuration format: ", cause.as_str()),
            ),
        ),
        ConfigFile::Parsed(config) => match validate_config(&config) {
            Ok(()) => Ok(config),
            Err(e) => Err(e),
        },
    }
}

} // verus!
