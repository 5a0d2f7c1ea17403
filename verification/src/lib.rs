//! Launch resolution for the MasterGo Magic MCP context server.
//!
//! A host that wants to start the server needs a command: the runtime binary,
//! the server's entry point, and an environment that carries the user's token and
//! base URL. This library decides how to get there, and proves that it decides
//! well. It never touches the outside world itself:
//!
//! * `resolver` compares the installed version of the server's package with the
//!   latest and says what to install;
//! * `settings` holds a project's raw settings to the schema;
//! * `command` and `builder` assemble the launch command;
//! * `session` strings these together into a state machine that a host drives,
//!   and `trace` states what holds of every session;
//! * `metadata` hands on the texts that describe the configuration;
//! * `config`, `error` and `json` hold the names, the failures and the values
//!   that all of them speak of.
//!
//! Every executable type has a mathematical model, its view, and every contract
//! is stated over those models.

pub mod builder;
pub mod command;
pub mod config;
pub mod error;
pub mod json;
pub mod metadata;
pub mod resolver;
pub mod session;
pub mod settings;
pub mod trace;

pub use crate::builder::{build, read_settings};
pub use crate::command::LaunchCommand;
pub use crate::config::{default_master_go_url, Config};
pub use crate::error::{BuildError, Error, ResolutionError};
pub use crate::json::Json;
pub use crate::metadata::{describe_configuration, ConfigurationMetadata};
pub use crate::resolver::{reconcile, PackageIdentity};
pub use crate::session::{start, step, Action, Event, State};
pub use crate::settings::Settings;
