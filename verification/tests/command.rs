use mcp_server_master_go::builder::{build, read_settings};
use mcp_server_master_go::command::{entry_point, LaunchCommand};
use mcp_server_master_go::config::Config;
use mcp_server_master_go::error::BuildError;
use mcp_server_master_go::json::{Json, JsonKind};
use mcp_server_master_go::settings::{SchemaFault, SettingsField};

const SERVER_PATH: &str = "node_modules/@mastergo/magic-mcp/dist/index.js";

fn token_only() -> Json {
    Json::Object(vec![("master_go_token".to_string(), Json::Text("abc".to_string()))])
}

fn token_and_url() -> Json {
    Json::Object(vec![
        ("master_go_token".to_string(), Json::Text("abc".to_string())),
        ("master_go_url".to_string(), Json::Text("https://x.test".to_string())),
    ])
}

fn sorted_env(command: &LaunchCommand) -> Vec<(String, String)> {
    let mut env = command.env().clone();
    env.sort();
    env
}

fn pair(name: &str, value: &str) -> (String, String) {
    (name.to_string(), value.to_string())
}

#[test]
fn entry_point_lies_under_the_working_directory() {
    assert_eq!(
        entry_point("/proj", SERVER_PATH),
        "/proj/node_modules/@mastergo/magic-mcp/dist/index.js"
    );
}

#[test]
fn entry_point_adds_no_second_separator() {
    assert_eq!(entry_point("/proj/", "dist/index.js"), "/proj/dist/index.js");
    assert_eq!(entry_point("/", "dist/index.js"), "/dist/index.js");
}

#[test]
fn entry_point_under_an_empty_directory_is_the_path_itself() {
    assert_eq!(entry_point("", "dist/index.js"), "dist/index.js");
}

#[test]
fn entry_point_from_the_root_stands_for_itself() {
    assert_eq!(entry_point("/proj", "/opt/server/index.js"), "/opt/server/index.js");
}

#[test]
fn entry_point_of_an_empty_path_is_the_directory() {
    assert_eq!(entry_point("/proj", ""), "/proj/");
    assert_eq!(entry_point("", ""), "");
}

#[test]
fn entry_point_keeps_letters_beyond_ascii() {
    assert_eq!(
        entry_point("/home/zoë/项目", "dist/index.js"),
        "/home/zoë/项目/dist/index.js"
    );
}

#[test]
fn entry_point_agrees_with_the_standard_path_join() {
    for base in ["/proj", "/proj/", "", "/", "relative/dir", "a//b"] {
        for relative in [SERVER_PATH, "", "/abs/index.js", "x"] {
            let expected = std::path::Path::new(base).join(relative).to_string_lossy().to_string();
            assert_eq!(entry_point(base, relative), expected);
        }
    }
}

#[test]
fn token_alone_builds_the_command_with_the_default_url() {
    let config = Config::master_go();
    let raw = token_only();
    let command = build(&config, Some(&raw), "/proj", Ok("/usr/bin/node".to_string()))
        .expect("a command");
    assert_eq!(command.executable(), "/usr/bin/node");
    assert_eq!(
        *command.args(),
        vec!["/proj/node_modules/@mastergo/magic-mcp/dist/index.js".to_string()]
    );
    assert_eq!(
        sorted_env(&command),
        vec![pair("token", "abc"), pair("url", "https://mastergo.com")]
    );
}

#[test]
fn explicit_url_reaches_the_environment() {
    let config = Config::master_go();
    let raw = token_and_url();
    let command = build(&config, Some(&raw), "/proj", Ok("/usr/bin/node".to_string()))
        .expect("a command");
    assert_eq!(sorted_env(&command), vec![pair("token", "abc"), pair("url", "https://x.test")]);
}

#[test]
fn environment_names_no_variable_twice() {
    let config = Config::master_go();
    let raw = token_and_url();
    let command = build(&config, Some(&raw), "/proj", Ok("node".to_string())).expect("a command");
    let env = command.env();
    assert_eq!(env.len(), 2);
    assert_ne!(env[0].0, env[1].0);
}

#[test]
fn command_follows_a_configuration_of_ones_own() {
    let config = Config::new(
        "pkg".to_string(),
        "key".to_string(),
        "dist/main.js".to_string(),
        "https://example.test".to_string(),
        "API_TOKEN".to_string(),
        "API_URL".to_string(),
    )
    .expect("the two variables differ");
    let raw = token_only();
    let command =
        build(&config, Some(&raw), "/srv/app/", Ok("node".to_string())).expect("a command");
    assert_eq!(command.executable(), "node");
    assert_eq!(*command.args(), vec!["/srv/app/dist/main.js".to_string()]);
    assert_eq!(
        sorted_env(&command),
        vec![pair("API_TOKEN", "abc"), pair("API_URL", "https://example.test")]
    );
}

#[test]
fn assembled_command_holds_what_it_was_given() {
    let config = Config::master_go();
    let raw = token_and_url();
    let settings = read_settings(&config, Some(&raw)).expect("valid settings");
    let command = LaunchCommand::assemble(&config, settings, "/opt/node/bin/node".to_string(), "");
    assert_eq!(command.executable(), "/opt/node/bin/node");
    assert_eq!(*command.args(), vec![SERVER_PATH.to_string()]);
    assert_eq!(sorted_env(&command), vec![pair("token", "abc"), pair("url", "https://x.test")]);
}

#[test]
fn no_settings_fail_as_missing_settings() {
    let config = Config::master_go();
    assert_eq!(
        build(&config, None, "/proj", Ok("/usr/bin/node".to_string())),
        Err(BuildError::MissingSettings)
    );
}

#[test]
fn no_settings_fail_first_whatever_the_runtime_answered() {
    let config = Config::master_go();
    assert_eq!(
        build(&config, None, "", Err("node is not installed".to_string())),
        Err(BuildError::MissingSettings)
    );
}

#[test]
fn settings_without_a_token_fail_the_schema() {
    let config = Config::master_go();
    let raw =
        Json::Object(vec![("master_go_url".to_string(), Json::Text("https://x.test".to_string()))]);
    assert_eq!(
        build(&config, Some(&raw), "/proj", Ok("/usr/bin/node".to_string())),
        Err(BuildError::SchemaError(SchemaFault::MissingField { field: SettingsField::Token }))
    );
}

#[test]
fn schema_faults_come_before_the_runtime_failure() {
    let config = Config::master_go();
    let raw = Json::Text("abc".to_string());
    assert_eq!(
        build(&config, Some(&raw), "/proj", Err("node is not installed".to_string())),
        Err(BuildError::SchemaError(SchemaFault::NotAnObject { found: JsonKind::Text }))
    );
}

#[test]
fn runtime_failure_keeps_the_locators_message() {
    let config = Config::master_go();
    let raw = token_only();
    assert_eq!(
        build(&config, Some(&raw), "/proj", Err("node is not installed".to_string())),
        Err(BuildError::RuntimeResolutionError("node is not installed".to_string()))
    );
}

#[test]
fn reading_settings_tells_missing_from_malformed() {
    let config = Config::master_go();
    assert_eq!(read_settings(&config, None), Err(BuildError::MissingSettings));
    assert_eq!(
        read_settings(&config, Some(&Json::Bool(true))),
        Err(BuildError::SchemaError(SchemaFault::NotAnObject { found: JsonKind::Bool }))
    );
    let raw = token_only();
    let settings = read_settings(&config, Some(&raw)).expect("valid settings");
    assert_eq!(settings.master_go_token(), "abc");
    assert_eq!(settings.master_go_url(), "https://mastergo.com");
}
