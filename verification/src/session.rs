//! One launch resolution as a state machine.
//!
//! Resolving a launch takes turns with the host: the registry is asked for two
//! versions, the installer may run, the settings store and the runtime locator
//! answer. None of that is done here. A session says what to do next, as an
//! `Action`; the caller does it and reports the answer, as an `Event`; `step`
//! takes the session on from there.
//!
//! ```text
//! QueryingInstalled -> QueryingLatest -> Installing -> LoadingSettings
//!                                     \_______________/       |
//!        CommandBuilt <- ReadingWorkingDirectory <- LocatingRuntime
//! ```
//!
//! Every failure leads to `Failed`, and nothing leads on from `Failed` or from
//! `CommandBuilt`: a session that is over stays as it is. An event that answers
//! nothing that was asked is refused, and ends the session as well.

use crate::builder::{answer_view, project_settings, read_settings};
use crate::command::{launch_command, LaunchCommand, LaunchCommandView};
use crate::config::{Config, ConfigView};
use crate::error::{
    BuildError, BuildErrorView, Error, ErrorView, ResolutionError, ResolutionErrorView,
};
use crate::json::{Json, JsonView};
use crate::resolver::{install_plan, reconcile, PackageIdentity, PackageIdentityView};
use crate::settings::{Settings, SettingsView};
use vstd::prelude::*;

verus! {

/// Where a session stands: what it waits for, and what it has learned so far.
#[derive(Debug, PartialEq, Eq)]
pub enum State {
    /// The start: the registry was asked which version is installed.
    QueryingInstalled,
    /// The installed version is known. The registry was asked for the latest.
    QueryingLatest { installed: Option<String> },
    /// The versions are checked and differ: the installer is at work.
    Installing,
    /// The package is current, installed just now or already before. The
    /// settings store was asked for the settings.
    LoadingSettings,
    /// The settings are loaded and valid. The host was asked for its runtime
    /// binary.
    LocatingRuntime { settings: Settings },
    /// The runtime is located. The host was asked for the working directory.
    ReadingWorkingDirectory { settings: Settings, executable: String },
    /// The end of a session that succeeded: the command was handed out.
    CommandBuilt,
    /// The end of a session that failed: a collaborator failed, the settings
    /// were missing or invalid, or an event was refused.
    Failed,
}

/// What the caller reports back.
#[derive(Debug, PartialEq, Eq)]
pub enum Event {
    /// The installed version of the package, `None` where it is not installed;
    /// or the registry's failure.
    InstalledVersion(Result<Option<String>, String>),
    /// The latest version of the package, or the registry's failure.
    LatestVersion(Result<String, String>),
    /// The installer is done, or failed.
    InstallFinished(Result<(), String>),
    /// The project's settings for the server, `None` where it has none.
    SettingsLoaded(Option<Json>),
    /// The path of the host's runtime binary, or the locator's failure.
    RuntimeLocated(Result<String, String>),
    /// The working directory.
    WorkingDirectory(String),
}

/// What the caller is to do next.
#[derive(Debug, PartialEq, Eq)]
pub enum Action {
    /// Ask the registry which version of `package` is installed.
    QueryInstalled { package: String },
    /// Ask the registry for the latest version of `package`.
    QueryLatest { package: String },
    /// Install the package at exactly this version.
    Install(PackageIdentity),
    /// Ask the settings store for the project's settings under `key`.
    LoadSettings { key: String },
    /// Ask the host for its runtime binary.
    LocateRuntime,
    /// Ask the host for the working directory.
    ReadWorkingDirectory,
    /// The session succeeded: launch the server with this command.
    Launch(LaunchCommand),
    /// The session failed.
    Fail(Error),
    /// The event answered nothing that was asked. The session is over.
    Refuse,
}

/// The mathematical model of a `State`.
pub enum StateView {
    QueryingInstalled,
    QueryingLatest { installed: Option<Seq<char>> },
    Installing,
    LoadingSettings,
    LocatingRuntime { settings: SettingsView },
    ReadingWorkingDirectory { settings: SettingsView, executable: Seq<char> },
    CommandBuilt,
    Failed,
}

/// The mathematical model of an `Event`.
pub enum EventView {
    InstalledVersion(Result<Option<Seq<char>>, Seq<char>>),
    LatestVersion(Result<Seq<char>, Seq<char>>),
    InstallFinished(Result<(), Seq<char>>),
    SettingsLoaded(Option<JsonView>),
    RuntimeLocated(Result<Seq<char>, Seq<char>>),
    WorkingDirectory(Seq<char>),
}

/// The mathematical model of an `Action`.
pub enum ActionView {
    QueryInstalled { package: Seq<char> },
    QueryLatest { package: Seq<char> },
    Install(PackageIdentityView),
    LoadSettings { key: Seq<char> },
    LocateRuntime,
    ReadWorkingDirectory,
    Launch(LaunchCommandView),
    Fail(ErrorView),
    Refuse,
}

impl View for State {
    type V = StateView;

    open spec fn view(&self) -> StateView {
        match self {
            State::QueryingInstalled => StateView::QueryingInstalled,
            State::QueryingLatest { installed } => StateView::QueryingLatest {
                installed: installed.deep_view(),
            },
            State::Installing => StateView::Installing,
            State::LoadingSettings => StateView::LoadingSettings,
            State::LocatingRuntime { settings } => StateView::LocatingRuntime {
                settings: settings@,
            },
            State::ReadingWorkingDirectory { settings, executable } => {
                StateView::ReadingWorkingDirectory { settings: settings@, executable: executable@ }
            },
            State::CommandBuilt => StateView::CommandBuilt,
            State::Failed => StateView::Failed,
        }
    }
}

impl View for Event {
    type V = EventView;

    open spec fn view(&self) -> EventView {
        match self {
            Event::InstalledVersion(Ok(installed)) => EventView::InstalledVersion(
                Ok(installed.deep_view()),
            ),
            Event::InstalledVersion(Err(message)) => EventView::InstalledVersion(Err(message@)),
            Event::LatestVersion(answer) => EventView::LatestVersion(answer_view(*answer)),
            Event::InstallFinished(Ok(_)) => EventView::InstallFinished(Ok(())),
            Event::InstallFinished(Err(message)) => EventView::InstallFinished(Err(message@)),
            Event::SettingsLoaded(Some(raw)) => EventView::SettingsLoaded(Some(raw@)),
            Event::SettingsLoaded(None) => EventView::SettingsLoaded(None),
            Event::RuntimeLocated(answer) => EventView::RuntimeLocated(answer_view(*answer)),
            Event::WorkingDirectory(directory) => EventView::WorkingDirectory(directory@),
        }
    }
}

impl View for Action {
    type V = ActionView;

    open spec fn view(&self) -> ActionView {
        match self {
            Action::QueryInstalled { package } => ActionView::QueryInstalled { package: package@ },
            Action::QueryLatest { package } => ActionView::QueryLatest { package: package@ },
            Action::Install(package) => ActionView::Install(package@),
            Action::LoadSettings { key } => ActionView::LoadSettings { key: key@ },
            Action::LocateRuntime => ActionView::LocateRuntime,
            Action::ReadWorkingDirectory => ActionView::ReadWorkingDirectory,
            Action::Launch(command) => ActionView::Launch(command@),
            Action::Fail(error) => ActionView::Fail(error@),
            Action::Refuse => ActionView::Refuse,
        }
    }
}

/// How a session begins: by asking which version of the package is installed.
pub open spec fn opening(config: ConfigView) -> (StateView, ActionView) {
    (StateView::QueryingInstalled, ActionView::QueryInstalled { package: config.package_name })
}

/// The end of a session that failed with `error`.
pub open spec fn failed(error: ErrorView) -> (StateView, ActionView) {
    (StateView::Failed, ActionView::Fail(error))
}

/// The failure of a session whose registry query failed with `message`.
pub open spec fn registry_failure(message: Seq<char>) -> ErrorView {
    ErrorView::Resolution(ResolutionErrorView::RegistryError(message))
}

/// The end of a session that was handed an event it had not asked for.
pub open spec fn refused() -> (StateView, ActionView) {
    (StateView::Failed, ActionView::Refuse)
}

/// A session is over once its command is built or it has failed.
pub open spec fn is_over(state: StateView) -> bool {
    state is CommandBuilt || state is Failed
}

/// The package is current: on to the settings.
pub open spec fn settings_wanted(config: ConfigView) -> (StateView, ActionView) {
    (StateView::LoadingSettings, ActionView::LoadSettings { key: config.settings_key })
}

/// The transition of a session: the state that `event` leads to from `state`, and
/// what to do next.
pub open spec fn transition(config: ConfigView, state: StateView, event: EventView) -> (
    StateView,
    ActionView,
) {
    match state {
        StateView::QueryingInstalled => match event {
            EventView::InstalledVersion(Ok(installed)) => (
                StateView::QueryingLatest { installed },
                ActionView::QueryLatest { package: config.package_name },
            ),
            EventView::InstalledVersion(Err(message)) => failed(registry_failure(message)),
            _ => refused(),
        },
        StateView::QueryingLatest { installed } => match event {
            EventView::LatestVersion(Ok(latest)) => match install_plan(
                config.package_name,
                installed,
                latest,
            ) {
                Some(package) => (StateView::Installing, ActionView::Install(package)),
                None => settings_wanted(config),
            },
            EventView::LatestVersion(Err(message)) => failed(registry_failure(message)),
            _ => refused(),
        },
        StateView::Installing => match event {
            EventView::InstallFinished(Ok(_)) => settings_wanted(config),
            EventView::InstallFinished(Err(message)) => failed(
                ErrorView::Resolution(ResolutionErrorView::InstallError(message)),
            ),
            _ => refused(),
        },
        StateView::LoadingSettings => match event {
            EventView::SettingsLoaded(raw) => match project_settings(config, raw) {
                Ok(settings) => (
                    StateView::LocatingRuntime { settings },
                    ActionView::LocateRuntime,
                ),
                Err(error) => failed(ErrorView::Build(error)),
            },
            _ => refused(),
        },
        StateView::LocatingRuntime { settings } => match event {
            EventView::RuntimeLocated(Ok(executable)) => (
                StateView::ReadingWorkingDirectory { settings, executable },
                ActionView::ReadWorkingDirectory,
            ),
            EventView::RuntimeLocated(Err(message)) => failed(
                ErrorView::Build(BuildErrorView::RuntimeResolutionError(message)),
            ),
            _ => refused(),
        },
        StateView::ReadingWorkingDirectory { settings, executable } => match event {
            EventView::WorkingDirectory(directory) => (
                StateView::CommandBuilt,
                ActionView::Launch(launch_command(config, settings, executable, directory)),
            ),
            _ => refused(),
        },
        StateView::CommandBuilt => (StateView::CommandBuilt, ActionView::Refuse),
        StateView::Failed => (StateView::Failed, ActionView::Refuse),
    }
}

/// Begins a session.
pub fn start(config: &Config) -> (begun: (State, Action))
    ensures
        (begun.0@, begun.1@) == opening(config@),
{
    (State::QueryingInstalled, Action::QueryInstalled { package: config.package_name().clone() })
}

fn fail(error: Error) -> (ended: (State, Action))
    ensures
        (ended.0@, ended.1@) == failed(error@),
{
    (State::Failed, Action::Fail(error))
}

fn want_settings(config: &Config) -> (next: (State, Action))
    ensures
        (next.0@, next.1@) == settings_wanted(config@),
{
    (State::LoadingSettings, Action::LoadSettings { key: config.settings_key().clone() })
}

/// Whether the session is over.
pub fn finished(state: &State) -> (over: bool)
    ensures
        over == is_over(state@),
{
    match state {
        State::CommandBuilt => true,
        State::Failed => true,
        _ => false,
    }
}

/// Takes a session one event further.
pub fn step(config: &Config, state: State, event: Event) -> (next: (State, Action))
    ensures
        (next.0@, next.1@) == transition(config@, state@, event@),
{
    match state {
        State::QueryingInstalled => match event {
            Event::InstalledVersion(Ok(installed)) => (
                State::QueryingLatest { installed },
                Action::QueryLatest { package: config.package_name().clone() },
            ),
            Event::InstalledVersion(Err(message)) => fail(
                Error::Resolution(ResolutionError::RegistryError(message)),
            ),
            _ => (State::Failed, Action::Refuse),
        },
        State::QueryingLatest { installed } => match event {
            Event::LatestVersion(Ok(latest)) => match reconcile(
                config.package_name().as_str(),
                &installed,
                latest,
            ) {
                Some(package) => (State::Installing, Action::Install(package)),
                None => want_settings(config),
            },
            Event::LatestVersion(Err(message)) => fail(
                Error::Resolution(ResolutionError::RegistryError(message)),
            ),
            _ => (State::Failed, Action::Refuse),
        },
        State::Installing => match event {
            Event::InstallFinished(Ok(_)) => want_settings(config),
            Event::InstallFinished(Err(message)) => fail(
                Error::Resolution(ResolutionError::InstallError(message)),
            ),
            _ => (State::Failed, Action::Refuse),
        },
        State::LoadingSettings => match event {
            Event::SettingsLoaded(raw) => match read_settings(config, raw.as_ref()) {
                Ok(settings) => (State::LocatingRuntime { settings }, Action::LocateRuntime),
                Err(error) => fail(Error::Build(error)),
            },
            _ => (State::Failed, Action::Refuse),
        },
        State::LocatingRuntime { settings } => match event {
            Event::RuntimeLocated(Ok(executable)) => (
                State::ReadingWorkingDirectory { settings, executable },
                Action::ReadWorkingDirectory,
            ),
            Event::RuntimeLocated(Err(message)) => fail(
                Error::Build(BuildError::RuntimeResolutionError(message)),
            ),
            _ => (State::Failed, Action::Refuse),
        },
        State::ReadingWorkingDirectory { settings, executable } => match event {
            Event::WorkingDirectory(directory) => (
                State::CommandBuilt,
                Action::Launch(
                    LaunchCommand::assemble(config, settings, executable, directory.as_str()),
                ),
            ),
            _ => (State::Failed, Action::Refuse),
        },
        State::CommandBuilt => (State::CommandBuilt, Action::Refuse),
        State::Failed => (State::Failed, Action::Refuse),
    }
}

} // verus!
