//! What the host shows to whoever sets the server up: how to install it, what
//! settings to start from, and the schema that settings are held to.
//!
//! The three texts are handed on as they are. The schema is generated elsewhere,
//! and generating it may fail; then there is nothing to show but the failure.

use vstd::prelude::*;

verus! {

/// The texts that describe the server's configuration.
#[derive(Debug, PartialEq, Eq)]
pub struct ConfigurationMetadata {
    /// How to install the server, in Markdown.
    pub installation_instructions: String,
    /// Settings to start from.
    pub default_settings: String,
    /// The JSON schema of the settings.
    pub settings_schema: String,
}

/// The mathematical model of `ConfigurationMetadata`.
pub struct ConfigurationMetadataView {
    pub installation_instructions: Seq<char>,
    pub default_settings: Seq<char>,
    pub settings_schema: Seq<char>,
}

impl View for ConfigurationMetadata {
    type V = ConfigurationMetadataView;

    open spec fn view(&self) -> ConfigurationMetadataView {
        ConfigurationMetadataView {
            installation_instructions: self.installation_instructions@,
            default_settings: self.default_settings@,
            settings_schema: self.settings_schema@,
        }
    }
}

/// Puts the configuration metadata together. `settings_schema` is what the schema
/// generator answered: the schema, or its own message, which is then the failure.
pub fn describe_configuration(
    installation_instructions: String,
    default_settings: String,
    settings_schema: Result<String, String>,
) -> (described: Result<ConfigurationMetadata, String>)
    ensures
        match settings_schema {
            Ok(schema) => described matches Ok(metadata) && metadata@ == (
                ConfigurationMetadataView {
                    installation_instructions: installation_instructions@,
                    default_settings: default_settings@,
                    settings_schema: schema@,
                }
            ),
            Err(message) => described matches Err(failure) && failure@ == message@,
        },
{
    match settings_schema {
        Ok(schema) => Ok(
            ConfigurationMetadata {
                installation_instructions,
                default_settings,
                settings_schema: schema,
            },
        ),
        Err(message) => Err(message),
    }
}

} // verus!
