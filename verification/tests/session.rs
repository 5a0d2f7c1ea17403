use mcp_server_master_go::command::LaunchCommand;
use mcp_server_master_go::config::Config;
use mcp_server_master_go::error::{BuildError, Error, ResolutionError};
use mcp_server_master_go::json::{Json, JsonKind};
use mcp_server_master_go::resolver::PackageIdentity;
use mcp_server_master_go::session::{finished, start, step, Action, Event, State};
use mcp_server_master_go::settings::{SchemaFault, SettingsField};

const PACKAGE: &str = "@mastergo/magic-mcp";

fn valid_settings() -> Json {
    Json::Object(vec![("master_go_token".to_string(), Json::Text("abc".to_string()))])
}

/// Runs a session over `events` and returns where it stands, with all it asked for.
fn drive(config: &Config, events: Vec<Event>) -> (State, Vec<Action>) {
    let (mut state, first) = start(config);
    let mut actions = vec![first];
    for event in events {
        let (next, action) = step(config, state, event);
        state = next;
        actions.push(action);
    }
    (state, actions)
}

fn installs(actions: &[Action]) -> usize {
    actions.iter().filter(|action| matches!(action, Action::Install(_))).count()
}

fn registry(message: &str) -> Error {
    Error::Resolution(ResolutionError::RegistryError(message.to_string()))
}

fn launched(action: &Action) -> &LaunchCommand {
    match action {
        Action::Launch(command) => command,
        other => panic!("no command, but {:?}", other),
    }
}

fn up_to_the_settings(installed: Option<&str>, latest: &str) -> Vec<Event> {
    vec![
        Event::InstalledVersion(Ok(installed.map(|version| version.to_string()))),
        Event::LatestVersion(Ok(latest.to_string())),
    ]
}

#[test]
fn session_begins_by_asking_for_the_installed_version() {
    let config = Config::master_go();
    let (state, action) = start(&config);
    assert_eq!(state, State::QueryingInstalled);
    assert_eq!(action, Action::QueryInstalled { package: PACKAGE.to_string() });
    assert!(!finished(&state));
}

#[test]
fn installed_version_is_followed_by_the_latest() {
    let config = Config::master_go();
    let (state, action) = step(
        &config,
        State::QueryingInstalled,
        Event::InstalledVersion(Ok(Some("1.0.0".to_string()))),
    );
    assert_eq!(state, State::QueryingLatest { installed: Some("1.0.0".to_string()) });
    assert_eq!(action, Action::QueryLatest { package: PACKAGE.to_string() });
}

#[test]
fn current_package_goes_straight_to_the_settings() {
    let config = Config::master_go();
    let (state, actions) = drive(&config, up_to_the_settings(Some("1.0.0"), "1.0.0"));
    assert_eq!(state, State::LoadingSettings);
    assert_eq!(
        actions,
        vec![
            Action::QueryInstalled { package: PACKAGE.to_string() },
            Action::QueryLatest { package: PACKAGE.to_string() },
            Action::LoadSettings { key: "mcp-server-master-go".to_string() },
        ]
    );
    assert_eq!(installs(&actions), 0);
}

#[test]
fn stale_package_is_installed_before_the_settings() {
    let config = Config::master_go();
    let mut events = up_to_the_settings(Some("1.0.0"), "1.1.0");
    events.push(Event::InstallFinished(Ok(())));
    let (state, actions) = drive(&config, events);
    assert_eq!(state, State::LoadingSettings);
    assert_eq!(
        actions,
        vec![
            Action::QueryInstalled { package: PACKAGE.to_string() },
            Action::QueryLatest { package: PACKAGE.to_string() },
            Action::Install(PackageIdentity {
                name: PACKAGE.to_string(),
                version: "1.1.0".to_string()
            }),
            Action::LoadSettings { key: "mcp-server-master-go".to_string() },
        ]
    );
}

#[test]
fn absent_package_is_installed_at_the_latest() {
    let config = Config::master_go();
    let (state, actions) = drive(&config, up_to_the_settings(None, "0.1.2"));
    assert_eq!(state, State::Installing);
    assert_eq!(
        actions[2],
        Action::Install(PackageIdentity { name: PACKAGE.to_string(), version: "0.1.2".to_string() })
    );
}

#[test]
fn whole_session_installs_once_when_stale() {
    let config = Config::master_go();
    let mut events = up_to_the_settings(Some("1.0.0"), "1.1.0");
    events.push(Event::InstallFinished(Ok(())));
    events.push(Event::SettingsLoaded(Some(valid_settings())));
    events.push(Event::RuntimeLocated(Ok("/usr/bin/node".to_string())));
    events.push(Event::WorkingDirectory("/proj".to_string()));
    events.push(Event::LatestVersion(Ok("1.2.0".to_string())));
    let (state, actions) = drive(&config, events);
    assert_eq!(state, State::CommandBuilt);
    assert_eq!(installs(&actions), 1);
}

#[test]
fn whole_session_never_installs_when_current() {
    let config = Config::master_go();
    let mut events = up_to_the_settings(Some("1.1.0"), "1.1.0");
    events.push(Event::SettingsLoaded(Some(valid_settings())));
    events.push(Event::RuntimeLocated(Ok("/usr/bin/node".to_string())));
    events.push(Event::WorkingDirectory("/proj".to_string()));
    events.push(Event::InstallFinished(Ok(())));
    let (state, actions) = drive(&config, events);
    assert_eq!(state, State::CommandBuilt);
    assert_eq!(installs(&actions), 0);
}

#[test]
fn session_ends_in_the_launch_command() {
    let config = Config::master_go();
    let mut events = up_to_the_settings(Some("1.1.0"), "1.1.0");
    events.push(Event::SettingsLoaded(Some(valid_settings())));
    events.push(Event::RuntimeLocated(Ok("/usr/bin/node".to_string())));
    events.push(Event::WorkingDirectory("/proj".to_string()));
    let (state, actions) = drive(&config, events);
    assert_eq!(state, State::CommandBuilt);
    assert!(finished(&state));
    assert_eq!(actions[3], Action::LocateRuntime);
    assert_eq!(actions[4], Action::ReadWorkingDirectory);
    let command = launched(&actions[5]);
    assert_eq!(command.executable(), "/usr/bin/node");
    assert_eq!(
        *command.args(),
        vec!["/proj/node_modules/@mastergo/magic-mcp/dist/index.js".to_string()]
    );
    let mut env = command.env().clone();
    env.sort();
    assert_eq!(
        env,
        vec![
            ("token".to_string(), "abc".to_string()),
            ("url".to_string(), "https://mastergo.com".to_string()),
        ]
    );
}

#[test]
fn session_keeps_an_explicit_url() {
    let config = Config::master_go();
    let raw = Json::Object(vec![
        ("master_go_token".to_string(), Json::Text("abc".to_string())),
        ("master_go_url".to_string(), Json::Text("https://x.test".to_string())),
    ]);
    let mut events = up_to_the_settings(None, "1.1.0");
    events.push(Event::InstallFinished(Ok(())));
    events.push(Event::SettingsLoaded(Some(raw)));
    events.push(Event::RuntimeLocated(Ok("node".to_string())));
    events.push(Event::WorkingDirectory("/proj".to_string()));
    let (_, actions) = drive(&config, events);
    let command = launched(&actions[6]);
    assert!(command.env().contains(&("url".to_string(), "https://x.test".to_string())));
    assert!(!command.env().contains(&("url".to_string(), "https://mastergo.com".to_string())));
}

#[test]
fn failed_installed_query_is_a_registry_error() {
    let config = Config::master_go();
    let (state, actions) =
        drive(&config, vec![Event::InstalledVersion(Err("registry unreachable".to_string()))]);
    assert_eq!(state, State::Failed);
    assert!(finished(&state));
    assert_eq!(actions[1], Action::Fail(registry("registry unreachable")));
}

#[test]
fn failed_latest_query_is_a_registry_error() {
    let config = Config::master_go();
    let (state, actions) = drive(
        &config,
        vec![
            Event::InstalledVersion(Ok(None)),
            Event::LatestVersion(Err("timed out".to_string())),
        ],
    );
    assert_eq!(state, State::Failed);
    assert_eq!(actions[2], Action::Fail(registry("timed out")));
    assert_eq!(installs(&actions), 0);
}

#[test]
fn failed_install_is_an_install_error() {
    let config = Config::master_go();
    let mut events = up_to_the_settings(None, "1.1.0");
    events.push(Event::InstallFinished(Err("EACCES".to_string())));
    let (state, actions) = drive(&config, events);
    assert_eq!(state, State::Failed);
    assert_eq!(
        actions[3],
        Action::Fail(Error::Resolution(ResolutionError::InstallError("EACCES".to_string())))
    );
}

#[test]
fn missing_settings_end_the_session() {
    let config = Config::master_go();
    let mut events = up_to_the_settings(Some("1.1.0"), "1.1.0");
    events.push(Event::SettingsLoaded(None));
    let (state, actions) = drive(&config, events);
    assert_eq!(state, State::Failed);
    assert_eq!(actions[3], Action::Fail(Error::Build(BuildError::MissingSettings)));
}

#[test]
fn malformed_settings_end_the_session_before_the_runtime_is_asked_for() {
    let config = Config::master_go();
    let mut events = up_to_the_settings(Some("1.1.0"), "1.1.0");
    events.push(Event::SettingsLoaded(Some(Json::Object(vec![]))));
    let (state, actions) = drive(&config, events);
    assert_eq!(state, State::Failed);
    assert_eq!(
        actions[3],
        Action::Fail(Error::Build(BuildError::SchemaError(SchemaFault::MissingField {
            field: SettingsField::Token
        })))
    );
    assert!(!actions.contains(&Action::LocateRuntime));
}

#[test]
fn settings_of_the_wrong_kind_end_the_session() {
    let config = Config::master_go();
    let (state, action) = step(
        &config,
        State::LoadingSettings,
        Event::SettingsLoaded(Some(Json::Number("7".to_string()))),
    );
    assert_eq!(state, State::Failed);
    assert_eq!(
        action,
        Action::Fail(Error::Build(BuildError::SchemaError(SchemaFault::NotAnObject {
            found: JsonKind::Number
        })))
    );
}

#[test]
fn unlocated_runtime_ends_the_session() {
    let config = Config::master_go();
    let mut events = up_to_the_settings(Some("1.1.0"), "1.1.0");
    events.push(Event::SettingsLoaded(Some(valid_settings())));
    events.push(Event::RuntimeLocated(Err("node is not installed".to_string())));
    let (state, actions) = drive(&config, events);
    assert_eq!(state, State::Failed);
    assert_eq!(
        actions[4],
        Action::Fail(Error::Build(BuildError::RuntimeResolutionError(
            "node is not installed".to_string()
        )))
    );
    assert!(!actions.contains(&Action::ReadWorkingDirectory));
}

#[test]
fn event_that_was_not_asked_for_is_refused() {
    let config = Config::master_go();
    let (state, action) =
        step(&config, State::QueryingInstalled, Event::LatestVersion(Ok("1.0.0".to_string())));
    assert_eq!(state, State::Failed);
    assert_eq!(action, Action::Refuse);

    let (state, action) = step(&config, State::Installing, Event::SettingsLoaded(None));
    assert_eq!(state, State::Failed);
    assert_eq!(action, Action::Refuse);

    let (state, action) =
        step(&config, State::LoadingSettings, Event::WorkingDirectory("/proj".to_string()));
    assert_eq!(state, State::Failed);
    assert_eq!(action, Action::Refuse);
}

#[test]
fn finished_session_stays_as_it_is() {
    let config = Config::master_go();
    let (state, action) =
        step(&config, State::CommandBuilt, Event::WorkingDirectory("/proj".to_string()));
    assert_eq!(state, State::CommandBuilt);
    assert_eq!(action, Action::Refuse);

    let (state, action) = step(&config, State::Failed, Event::InstalledVersion(Ok(None)));
    assert_eq!(state, State::Failed);
    assert_eq!(action, Action::Refuse);
}

#[test]
fn sessions_in_progress_are_not_finished() {
    assert!(!finished(&State::QueryingInstalled));
    assert!(!finished(&State::QueryingLatest { installed: None }));
    assert!(!finished(&State::Installing));
    assert!(!finished(&State::LoadingSettings));
    assert!(finished(&State::CommandBuilt));
    assert!(finished(&State::Failed));
}
