//! The fixed names that this library shares with the package registry, the host's
//! settings store and the context server itself.
//!
//! They travel as one immutable value, `Config`, that every operation takes, so
//! that nothing depends on hidden global state. `Config::master_go` is the one
//! configuration that matches the published MasterGo server.
//!
//! The server reads its credentials from two environment variables. Their names
//! are the short ones, `token` and `url`; no other naming scheme is offered.

use vstd::prelude::*;
use vstd::string::StringExecFns;

verus! {

/// The names and paths a launch is resolved with. The two environment variables
/// of a `Config` always differ.
#[derive(Debug, PartialEq, Eq)]
pub struct Config {
    package_name: String,
    settings_key: String,
    server_path: String,
    default_url: String,
    token_var: String,
    url_var: String,
}

/// The mathematical model of a `Config`.
pub struct ConfigView {
    /// The registry name of the package that holds the server.
    pub package_name: Seq<char>,
    /// The key under which the host stores this server's settings.
    pub settings_key: Seq<char>,
    /// Where the server's entry point lies, relative to the working directory.
    pub server_path: Seq<char>,
    /// The base URL used when the settings give none.
    pub default_url: Seq<char>,
    /// The environment variable that carries the token.
    pub token_var: Seq<char>,
    /// The environment variable that carries the base URL.
    pub url_var: Seq<char>,
}

impl ConfigView {
    /// A configuration is usable when its two environment variables differ, so
    /// that neither value can displace the other.
    pub open spec fn wf(self) -> bool {
        self.token_var != self.url_var
    }

    /// The names that the published MasterGo server goes by.
    pub open spec fn master_go() -> ConfigView {
        ConfigView {
            package_name: "@mastergo/magic-mcp"@,
            settings_key: "mcp-server-master-go"@,
            server_path: "node_modules/@mastergo/magic-mcp/dist/index.js"@,
            default_url: "https://mastergo.com"@,
            token_var: "token"@,
            url_var: "url"@,
        }
    }
}

impl View for Config {
    type V = ConfigView;

    closed spec fn view(&self) -> ConfigView {
        ConfigView {
            package_name: self.package_name@,
            settings_key: self.settings_key@,
            server_path: self.server_path@,
            default_url: self.default_url@,
            token_var: self.token_var@,
            url_var: self.url_var@,
        }
    }
}

/// The base URL used when the settings give none.
pub fn default_master_go_url() -> (url: String)
    ensures
        url@ == "https://mastergo.com"@,
{
    String::from_str("https://mastergo.com")
}

impl Config {
    /// What holds of every `Config`.
    #[verifier::type_invariant]
    pub open spec fn inv(&self) -> bool {
        self@.wf()
    }

    /// A configuration of one's own; `None` where the two environment variables
    /// would share a name.
    pub fn new(
        package_name: String,
        settings_key: String,
        server_path: String,
        default_url: String,
        token_var: String,
        url_var: String,
    ) -> (config: Option<Config>)
        ensures
            config is Some <==> token_var@ != url_var@,
            config matches Some(made) ==> made@ == (ConfigView {
                package_name: package_name@,
                settings_key: settings_key@,
                server_path: server_path@,
                default_url: default_url@,
                token_var: token_var@,
                url_var: url_var@,
            }),
    {
        if token_var == url_var {
            None
        } else {
            Some(
                Config { package_name, settings_key, server_path, default_url, token_var, url_var },
            )
        }
    }

    /// The configuration of the published MasterGo server.
    pub fn master_go() -> (config: Config)
        ensures
            config@ == ConfigView::master_go(),
    {
        proof {
            reveal_strlit("token");
            reveal_strlit("url");
            assert("token"@.len() != "url"@.len());
        }
        Config {
            package_name: String::from_str("@mastergo/magic-mcp"),
            settings_key: String::from_str("mcp-server-master-go"),
            server_path: String::from_str("node_modules/@mastergo/magic-mcp/dist/index.js"),
            default_url: default_master_go_url(),
            token_var: String::from_str("token"),
            url_var: String::from_str("url"),
        }
    }

    /// The registry name of the package that holds the server.
    pub fn package_name(&self) -> (name: &String)
        ensures
            name@ == self@.package_name,
    {
        &self.package_name
    }

    /// The key under which the host stores this server's settings.
    pub fn settings_key(&self) -> (key: &String)
        ensures
            key@ == self@.settings_key,
    {
        &self.settings_key
    }

    /// Where the server's entry point lies, relative to the working directory.
    pub fn server_path(&self) -> (path: &String)
        ensures
            path@ == self@.server_path,
    {
        &self.server_path
    }

    /// The base URL used when the settings give none.
    pub fn default_url(&self) -> (url: &String)
        ensures
            url@ == self@.default_url,
    {
        &self.default_url
    }

    /// The environment variable that carries the token.
    pub fn token_var(&self) -> (name: &String)
        ensures
            name@ == self@.token_var,
            name@ != self@.url_var,
    {
        proof {
            use_type_invariant(self);
        }
        &self.token_var
    }

    /// The environment variable that carries the base URL.
    pub fn url_var(&self) -> (name: &String)
        ensures
            name@ == self@.url_var,
            name@ != self@.token_var,
    {
        proof {
            use_type_invariant(self);
        }
        &self.url_var
    }
}

} // verus!
