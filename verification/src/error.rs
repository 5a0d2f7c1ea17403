//! What can end a launch resolution, and how each failure reads to the host.
//!
//! Every failure is final: nothing is retried. The package resolver fails with a
//! `ResolutionError`, the command builder with a `BuildError`; a whole session
//! fails with either. A failure of a collaborator keeps the collaborator's own
//! message, word for word, under the operation that failed.

use crate::json::JsonKind;
use crate::settings::SchemaFault;
use vstd::prelude::*;
use vstd::string::StringExecFns;

verus! {

/// A failure of the package resolver.
#[derive(Debug, PartialEq, Eq)]
pub enum ResolutionError {
    /// The package registry could not be asked for a version.
    RegistryError(String),
    /// The package could not be installed or updated.
    InstallError(String),
}

/// A failure of the command builder.
#[derive(Debug, PartialEq, Eq)]
pub enum BuildError {
    /// The project holds no settings for the server.
    MissingSettings,
    /// The settings are there, but do not meet the schema.
    SchemaError(SchemaFault),
    /// The host could not locate its runtime binary.
    RuntimeResolutionError(String),
}

/// A failed launch resolution.
#[derive(Debug, PartialEq, Eq)]
pub enum Error {
    /// The package could not be made current.
    Resolution(ResolutionError),
    /// The command could not be built.
    Build(BuildError),
}

/// The mathematical model of a `ResolutionError`.
pub enum ResolutionErrorView {
    RegistryError(Seq<char>),
    InstallError(Seq<char>),
}

/// The mathematical model of a `BuildError`.
pub enum BuildErrorView {
    MissingSettings,
    SchemaError(SchemaFault),
    RuntimeResolutionError(Seq<char>),
}

/// The mathematical model of an `Error`.
pub enum ErrorView {
    Resolution(ResolutionErrorView),
    Build(BuildErrorView),
}

impl View for ResolutionError {
    type V = ResolutionErrorView;

    open spec fn view(&self) -> ResolutionErrorView {
        match self {
            ResolutionError::RegistryError(message) => ResolutionErrorView::RegistryError(
                message@,
            ),
            ResolutionError::InstallError(message) => ResolutionErrorView::InstallError(message@),
        }
    }
}

impl View for BuildError {
    type V = BuildErrorView;

    open spec fn view(&self) -> BuildErrorView {
        match self {
            BuildError::MissingSettings => BuildErrorView::MissingSettings,
            BuildError::SchemaError(fault) => BuildErrorView::SchemaError(*fault),
            BuildError::RuntimeResolutionError(message) => BuildErrorView::RuntimeResolutionError(
                message@,
            ),
        }
    }
}

impl View for Error {
    type V = ErrorView;

    open spec fn view(&self) -> ErrorView {
        match self {
            Error::Resolution(error) => ErrorView::Resolution(error@),
            Error::Build(error) => ErrorView::Build(error@),
        }
    }
}

/// How a kind of JSON value is called in a message.
pub open spec fn kind_noun(kind: JsonKind) -> Seq<char> {
    match kind {
        JsonKind::Null => "null"@,
        JsonKind::Bool => "a boolean"@,
        JsonKind::Number => "a number"@,
        JsonKind::Text => "a string"@,
        JsonKind::Array => "an array"@,
        JsonKind::Object => "an object"@,
    }
}

/// The message of a schema fault. It names the member at fault.
pub open spec fn fault_message(fault: SchemaFault) -> Seq<char> {
    match fault {
        SchemaFault::NotAnObject { found } => "invalid settings: expected an object, found "@
            + kind_noun(found),
        SchemaFault::MissingField { field } => "missing field `"@ + field.key() + "`"@,
        SchemaFault::InvalidType { field, found } => "invalid type for `"@ + field.key()
            + "`: expected a string, found "@ + kind_noun(found),
    }
}

impl ResolutionErrorView {
    /// The message of a failure: the operation, then the collaborator's words.
    pub open spec fn message(self) -> Seq<char> {
        match self {
            ResolutionErrorView::RegistryError(message) => "package registry query failed: "@
                + message,
            ResolutionErrorView::InstallError(message) => "package installation failed: "@
                + message,
        }
    }
}

impl BuildErrorView {
    /// The message of a failure. It names the setting at fault, or the operation
    /// that failed with the collaborator's words.
    pub open spec fn message(self) -> Seq<char> {
        match self {
            BuildErrorView::MissingSettings => "missing `master_go_token` setting"@,
            BuildErrorView::SchemaError(fault) => fault_message(fault),
            BuildErrorView::RuntimeResolutionError(message) => "runtime binary not found: "@
                + message,
        }
    }
}

impl ErrorView {
    /// The message of a failure: that of the component that failed.
    pub open spec fn message(self) -> Seq<char> {
        match self {
            ErrorView::Resolution(error) => error.message(),
            ErrorView::Build(error) => error.message(),
        }
    }
}

fn noun(kind: JsonKind) -> (noun: &'static str)
    ensures
        noun@ == kind_noun(kind),
{
    match kind {
        JsonKind::Null => "null",
        JsonKind::Bool => "a boolean",
        JsonKind::Number => "a number",
        JsonKind::Text => "a string",
        JsonKind::Array => "an array",
        JsonKind::Object => "an object",
    }
}

impl SchemaFault {
    /// The fault in words, for the host to show.
    pub fn message(&self) -> (message: String)
        ensures
            message@ == fault_message(*self),
    {
        match self {
            SchemaFault::NotAnObject { found } => String::from_str(
                "invalid settings: expected an object, found ",
            ).concat(noun(*found)),
            SchemaFault::MissingField { field } => String::from_str("missing field `").concat(
                field.name(),
            ).concat("`"),
            SchemaFault::InvalidType { field, found } => String::from_str(
                "invalid type for `",
            ).concat(field.name()).concat("`: expected a string, found ").concat(noun(*found)),
        }
    }
}

impl ResolutionError {
    /// The failure in words, for the host to show.
    pub fn message(&self) -> (message: String)
        ensures
            message@ == self@.message(),
    {
        match self {
            ResolutionError::RegistryError(message) => String::from_str(
                "package registry query failed: ",
            ).concat(message.as_str()),
            ResolutionError::InstallError(message) => String::from_str(
                "package installation failed: ",
            ).concat(message.as_str()),
        }
    }
}

impl BuildError {
    /// The failure in words, for the host to show.
    pub fn message(&self) -> (message: String)
        ensures
            message@ == self@.message(),
    {
        match self {
            BuildError::MissingSettings => String::from_str("missing `master_go_token` setting"),
            BuildError::SchemaError(fault) => fault.message(),
            BuildError::RuntimeResolutionError(message) => String::from_str(
                "runtime binary not found: ",
            ).concat(message.as_str()),
        }
    }
}

impl Error {
    /// The failure in words, for the host to show.
    pub fn message(&self) -> (message: String)
        ensures
            message@ == self@.message(),
    {
        match self {
            Error::Resolution(error) => error.message(),
            Error::Build(error) => error.message(),
        }
    }
}

} // verus!
