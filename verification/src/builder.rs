//! The command builder: from a project's raw settings to the launch command.
//!
//! Settings come first. Without settings there is no token and so no command;
//! settings that fail the schema give no command either. Only then does the
//! host's runtime binary matter. A command is never built from less than valid
//! settings and a located runtime.

use crate::command::{launch_command, LaunchCommand, LaunchCommandView};
use crate::config::{Config, ConfigView};
use crate::error::{BuildError, BuildErrorView};
use crate::json::{Json, JsonView};
use crate::settings::{validate, SchemaFault, Settings, SettingsField, SettingsView};
use vstd::prelude::*;

verus! {

/// The settings that a project's raw settings amount to: missing settings and
/// settings that fail the schema are failures.
pub open spec fn project_settings(config: ConfigView, raw: Option<JsonView>) -> Result<
    SettingsView,
    BuildErrorView,
> {
    match raw {
        None => Err(BuildErrorView::MissingSettings),
        Some(json) => match validate(json, config.default_url) {
            Ok(settings) => Ok(settings),
            Err(fault) => Err(BuildErrorView::SchemaError(fault)),
        },
    }
}

/// What building ends in. `runtime` is what the host's locator answered: the path
/// of the runtime binary, or the locator's own message.
pub open spec fn build_outcome(
    config: ConfigView,
    raw: Option<JsonView>,
    working_directory: Seq<char>,
    runtime: Result<Seq<char>, Seq<char>>,
) -> Result<LaunchCommandView, BuildErrorView> {
    match project_settings(config, raw) {
        Err(error) => Err(error),
        Ok(settings) => match runtime {
            Err(message) => Err(BuildErrorView::RuntimeResolutionError(message)),
            Ok(executable) => Ok(launch_command(config, settings, executable, working_directory)),
        },
    }
}

/// The model of raw settings that may be missing.
pub open spec fn raw_view(raw: Option<&Json>) -> Option<JsonView> {
    match raw {
        Some(json) => Some(json@),
        None => None,
    }
}

/// The model of a collaborator's answer that is a string either way.
pub open spec fn answer_view(answer: Result<String, String>) -> Result<Seq<char>, Seq<char>> {
    match answer {
        Ok(value) => Ok(value@),
        Err(message) => Err(message@),
    }
}

/// Reads a project's raw settings.
pub fn read_settings(config: &Config, raw: Option<&Json>) -> (read: Result<Settings, BuildError>)
    ensures
        match read {
            Ok(settings) => project_settings(config@, raw_view(raw)) == Ok::<
                SettingsView,
                BuildErrorView,
            >(settings@),
            Err(error) => project_settings(config@, raw_view(raw)) == Err::<
                SettingsView,
                BuildErrorView,
            >(error@),
        },
{
    match raw {
        None => Err(BuildError::MissingSettings),
        Some(json) => match Settings::from_json(json, config.default_url().as_str()) {
            Ok(settings) => Ok(settings),
            Err(fault) => Err(BuildError::SchemaError(fault)),
        },
    }
}

/// Builds the launch command from a project's raw settings, the working
/// directory and the host's answer about its runtime binary.
pub fn build(
    config: &Config,
    raw_settings: Option<&Json>,
    working_directory: &str,
    runtime: Result<String, String>,
) -> (built: Result<LaunchCommand, BuildError>)
    ensures
        match built {
            Ok(command) => build_outcome(
                config@,
                raw_view(raw_settings),
                working_directory@,
                answer_view(runtime),
            ) == Ok::<LaunchCommandView, BuildErrorView>(command@),
            Err(error) => build_outcome(
                config@,
                raw_view(raw_settings),
                working_directory@,
                answer_view(runtime),
            ) == Err::<LaunchCommandView, BuildErrorView>(error@),
        },
        raw_settings is None ==> built == Err::<LaunchCommand, BuildError>(
            BuildError::MissingSettings,
        ),
        raw_settings matches Some(json) && json@ is Object && json@.member(
            SettingsField::Token.key(),
        ) is None ==> built == Err::<LaunchCommand, BuildError>(
            BuildError::SchemaError(SchemaFault::MissingField { field: SettingsField::Token }),
        ),
{
    match read_settings(config, raw_settings) {
        Err(error) => Err(error),
        Ok(settings) => match runtime {
            Err(message) => Err(BuildError::RuntimeResolutionError(message)),
            Ok(executable) => Ok(
                LaunchCommand::assemble(config, settings, executable, working_directory),
            ),
        },
    }
}

/// Valid settings that give no base URL, or `null` for it, launch the server
/// with the default base URL in its environment.
pub proof fn lemma_missing_url_takes_default(
    config: ConfigView,
    raw: JsonView,
    working_directory: Seq<char>,
    executable: Seq<char>,
)
    requires
        config.wf(),
        validate(raw, config.default_url) is Ok,
        raw.member(SettingsField::Url.key()) is None || raw.member(SettingsField::Url.key())
            == Some(JsonView::Null),
    ensures
        build_outcome(config, Some(raw), working_directory, Ok(executable)) matches Ok(command)
            && command.env.contains_pair(config.url_var, config.default_url),
{
}

/// Valid settings that give a base URL launch the server with exactly that base
/// URL in its environment, and not with the default, unless the two are one.
pub proof fn lemma_explicit_url_is_kept(
    config: ConfigView,
    raw: JsonView,
    url: Seq<char>,
    working_directory: Seq<char>,
    executable: Seq<char>,
)
    requires
        config.wf(),
        validate(raw, config.default_url) is Ok,
        raw.member(SettingsField::Url.key()) == Some(JsonView::Text(url)),
    ensures
        build_outcome(config, Some(raw), working_directory, Ok(executable)) matches Ok(command)
            && command.env.contains_pair(config.url_var, url) && (url != config.default_url
            ==> !command.env.contains_pair(config.url_var, config.default_url)),
{
}

/// Valid settings launch the server with their token in its environment, and
/// with nothing there but the token and the base URL.
pub proof fn lemma_token_reaches_the_environment(
    config: ConfigView,
    raw: JsonView,
    token: Seq<char>,
    working_directory: Seq<char>,
    executable: Seq<char>,
)
    requires
        config.wf(),
        validate(raw, config.default_url) is Ok,
        raw.member(SettingsField::Token.key()) == Some(JsonView::Text(token)),
    ensures
        build_outcome(config, Some(raw), working_directory, Ok(executable)) matches Ok(command)
            && command.env.contains_pair(config.token_var, token) && command.env.dom()
            == set![config.token_var, config.url_var],
{
    let command = build_outcome(config, Some(raw), working_directory, Ok(executable))->Ok_0;
    assert(command.env.dom() =~= set![config.token_var, config.url_var]);
}

/// Without settings, building fails for want of them, whatever else is given.
pub proof fn lemma_no_settings_no_command(
    config: ConfigView,
    working_directory: Seq<char>,
    runtime: Result<Seq<char>, Seq<char>>,
)
    ensures
        build_outcome(config, None, working_directory, runtime) == Err::<
            LaunchCommandView,
            BuildErrorView,
        >(BuildErrorView::MissingSettings),
{
}

/// Settings without a token fail the schema: no command comes of them, whatever
/// else is given.
pub proof fn lemma_no_token_no_command(
    config: ConfigView,
    raw: JsonView,
    working_directory: Seq<char>,
    runtime: Result<Seq<char>, Seq<char>>,
)
    requires
        raw.member(SettingsField::Token.key()) is None,
    ensures
        build_outcome(config, Some(raw), working_directory, runtime) matches Err(
            BuildErrorView::SchemaError(_),
        ),
{
}

/// A command is built from nothing less than settings that are there and valid,
/// and a runtime that was located.
pub proof fn lemma_command_needs_valid_settings(
    config: ConfigView,
    raw: Option<JsonView>,
    working_directory: Seq<char>,
    runtime: Result<Seq<char>, Seq<char>>,
)
    requires
        build_outcome(config, raw, working_directory, runtime) is Ok,
    ensures
        raw matches Some(json) && validate(json, config.default_url) is Ok,
        runtime is Ok,
{
}

} // verus!
