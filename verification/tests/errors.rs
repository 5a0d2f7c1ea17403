use mcp_server_master_go::error::{BuildError, Error, ResolutionError};
use mcp_server_master_go::json::JsonKind;
use mcp_server_master_go::metadata::{describe_configuration, ConfigurationMetadata};
use mcp_server_master_go::settings::{SchemaFault, SettingsField};

#[test]
fn missing_settings_name_the_token() {
    assert_eq!(BuildError::MissingSettings.message(), "missing `master_go_token` setting");
}

#[test]
fn missing_field_names_the_field() {
    let fault = SchemaFault::MissingField { field: SettingsField::Token };
    assert_eq!(fault.message(), "missing field `master_go_token`");
    assert_eq!(BuildError::SchemaError(fault).message(), "missing field `master_go_token`");
}

#[test]
fn invalid_type_names_the_field_and_what_was_found() {
    let fault = SchemaFault::InvalidType { field: SettingsField::Url, found: JsonKind::Number };
    assert_eq!(
        fault.message(),
        "invalid type for `master_go_url`: expected a string, found a number"
    );
    let fault = SchemaFault::InvalidType { field: SettingsField::Token, found: JsonKind::Null };
    assert_eq!(
        BuildError::SchemaError(fault).message(),
        "invalid type for `master_go_token`: expected a string, found null"
    );
}

#[test]
fn settings_that_are_no_object_say_what_they_are() {
    let found = [
        (JsonKind::Null, "null"),
        (JsonKind::Bool, "a boolean"),
        (JsonKind::Number, "a number"),
        (JsonKind::Text, "a string"),
        (JsonKind::Array, "an array"),
        (JsonKind::Object, "an object"),
    ];
    for (kind, noun) in found {
        assert_eq!(
            SchemaFault::NotAnObject { found: kind }.message(),
            format!("invalid settings: expected an object, found {}", noun)
        );
    }
}

#[test]
fn collaborator_failures_keep_their_message_under_the_operation() {
    assert_eq!(
        ResolutionError::RegistryError("registry unreachable".to_string()).message(),
        "package registry query failed: registry unreachable"
    );
    assert_eq!(
        ResolutionError::InstallError("EACCES: permission denied".to_string()).message(),
        "package installation failed: EACCES: permission denied"
    );
    assert_eq!(
        BuildError::RuntimeResolutionError("node is not installed".to_string()).message(),
        "runtime binary not found: node is not installed"
    );
}

#[test]
fn session_failure_reads_as_the_failure_of_its_component() {
    assert_eq!(
        Error::Resolution(ResolutionError::RegistryError("timed out".to_string())).message(),
        "package registry query failed: timed out"
    );
    assert_eq!(
        Error::Resolution(ResolutionError::InstallError("disk full".to_string())).message(),
        "package installation failed: disk full"
    );
    assert_eq!(
        Error::Build(BuildError::MissingSettings).message(),
        "missing `master_go_token` setting"
    );
    assert_eq!(
        Error::Build(BuildError::RuntimeResolutionError("no node".to_string())).message(),
        "runtime binary not found: no node"
    );
}

#[test]
fn empty_collaborator_message_leaves_the_operation() {
    assert_eq!(
        ResolutionError::InstallError(String::new()).message(),
        "package installation failed: "
    );
}

#[test]
fn configuration_texts_are_handed_on_as_they_are() {
    let described = describe_configuration(
        "# Install\nSet a token.".to_string(),
        "{ \"master_go_token\": \"\" }".to_string(),
        Ok("{\"type\":\"object\"}".to_string()),
    );
    assert_eq!(
        described,
        Ok(ConfigurationMetadata {
            installation_instructions: "# Install\nSet a token.".to_string(),
            default_settings: "{ \"master_go_token\": \"\" }".to_string(),
            settings_schema: "{\"type\":\"object\"}".to_string(),
        })
    );
}

#[test]
fn failed_schema_is_the_failure_of_the_configuration() {
    let described = describe_configuration(
        "# Install".to_string(),
        "{}".to_string(),
        Err("key must be a string".to_string()),
    );
    assert_eq!(described, Err("key must be a string".to_string()));
}
