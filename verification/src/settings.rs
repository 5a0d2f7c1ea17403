//! The settings of the context server and the schema that raw settings are held to.
//!
//! Raw settings are a JSON object with two members that matter:
//!
//! * `master_go_token`, required, a string: the authentication token;
//! * `master_go_url`, optional, a string: the base URL. Where it is missing or
//!   `null`, the default base URL takes its place.
//!
//! Every other member is ignored. `validate` is the schema as a function;
//! `Settings::from_json` is its executable form. A `Settings` value can be made
//! in no other way, so whoever holds one holds settings that passed the schema.

use crate::json::{Json, JsonKind, JsonView};
use vstd::prelude::*;
use vstd::string::StringExecFns;

verus! {

/// The members that the schema reads.
#[derive(Clone, Copy, Debug, PartialEq, Eq, Structural)]
pub enum SettingsField {
    Token,
    Url,
}

impl SettingsField {
    /// The member's name in the settings object.
    pub open spec fn key(self) -> Seq<char> {
        match self {
            SettingsField::Token => "master_go_token"@,
            SettingsField::Url => "master_go_url"@,
        }
    }

    /// The member's name in the settings object.
    pub fn name(self) -> (name: &'static str)
        ensures
            name@ == self.key(),
    {
        match self {
            SettingsField::Token => "master_go_token",
            SettingsField::Url => "master_go_url",
        }
    }
}

/// Why raw settings do not meet the schema.
#[derive(Clone, Copy, Debug, PartialEq, Eq, Structural)]
pub enum SchemaFault {
    /// The settings are no JSON object.
    NotAnObject { found: JsonKind },
    /// A required member is not there.
    MissingField { field: SettingsField },
    /// A member is there, but is no string.
    InvalidType { field: SettingsField, found: JsonKind },
}

/// Settings that passed the schema.
#[derive(Debug, PartialEq, Eq)]
pub struct Settings {
    master_go_token: String,
    master_go_url: String,
}

/// The mathematical model of `Settings`.
pub struct SettingsView {
    pub token: Seq<char>,
    pub url: Seq<char>,
}

impl View for Settings {
    type V = SettingsView;

    closed spec fn view(&self) -> SettingsView {
        SettingsView { token: self.master_go_token@, url: self.master_go_url@ }
    }
}

/// The schema: what raw settings amount to, or the first fault in them. The
/// object itself is looked at first, then the token, then the URL.
pub open spec fn validate(raw: JsonView, default_url: Seq<char>) -> Result<
    SettingsView,
    SchemaFault,
> {
    if !(raw is Object) {
        Err(SchemaFault::NotAnObject { found: raw.kind() })
    } else {
        match raw.member(SettingsField::Token.key()) {
            None => Err(SchemaFault::MissingField { field: SettingsField::Token }),
            Some(JsonView::Text(token)) => match raw.member(SettingsField::Url.key()) {
                None | Some(JsonView::Null) => Ok(SettingsView { token, url: default_url }),
                Some(JsonView::Text(url)) => Ok(SettingsView { token, url }),
                Some(other) => Err(
                    SchemaFault::InvalidType { field: SettingsField::Url, found: other.kind() },
                ),
            },
            Some(other) => Err(
                SchemaFault::InvalidType { field: SettingsField::Token, found: other.kind() },
            ),
        }
    }
}

impl Settings {
    /// Holds raw settings to the schema.
    pub fn from_json(raw: &Json, default_url: &str) -> (parsed: Result<Settings, SchemaFault>)
        ensures
            match parsed {
                Ok(settings) => validate(raw@, default_url@) == Ok::<SettingsView, SchemaFault>(
                    settings@,
                ),
                Err(fault) => validate(raw@, default_url@) == Err::<SettingsView, SchemaFault>(
                    fault,
                ),
            },
    {
        match raw {
            Json::Object(_) => match raw.member(SettingsField::Token.name()) {
                None => Err(SchemaFault::MissingField { field: SettingsField::Token }),
                Some(Json::Text(token)) => match raw.member(SettingsField::Url.name()) {
                    None | Some(Json::Null) => Ok(
                        Settings {
                            master_go_token: token.clone(),
                            master_go_url: String::from_str(default_url),
                        },
                    ),
                    Some(Json::Text(url)) => Ok(
                        Settings { master_go_token: token.clone(), master_go_url: url.clone() },
                    ),
                    Some(other) => Err(
                        SchemaFault::InvalidType { field: SettingsField::Url, found: other.kind() },
                    ),
                },
                Some(other) => Err(
                    SchemaFault::InvalidType { field: SettingsField::Token, found: other.kind() },
                ),
            },
            other => Err(SchemaFault::NotAnObject { found: other.kind() }),
        }
    }

    /// The authentication token.
    pub fn master_go_token(&self) -> (token: &String)
        ensures
            token@ == self@.token,
    {
        &self.master_go_token
    }

    /// The base URL.
    pub fn master_go_url(&self) -> (url: &String)
        ensures
            url@ == self@.url,
    {
        &self.master_go_url
    }

    /// Gives up the token and the base URL, in that order.
    pub fn into_parts(self) -> (parts: (String, String))
        ensures
            parts.0@ == self@.token,
            parts.1@ == self@.url,
    {
        (self.master_go_token, self.master_go_url)
    }
}

} // verus!
