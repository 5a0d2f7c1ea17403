//! The launch command: the executable, its arguments and its environment.
//!
//! A command is assembled from settings that passed the schema and from what the
//! host resolved: the runtime binary and the working directory. Its one argument
//! is the server's entry point under the working directory. Its environment
//! carries the token and the base URL, each under its own variable.

use crate::config::{Config, ConfigView};
use crate::settings::{Settings, SettingsView};
use vstd::prelude::*;
use vstd::string::{StrSliceExecFns, StringExecFns};

verus! {

/// `relative` under the directory `base`, with `/` between the two where `base`
/// does not end in one. An empty `base` adds nothing, and a `relative` that
/// starts at the root stands for itself.
pub open spec fn join_path(base: Seq<char>, relative: Seq<char>) -> Seq<char> {
    if relative.len() > 0 && relative[0] == '/' {
        relative
    } else if base.len() == 0 || base.last() == '/' {
        base + relative
    } else {
        base + seq!['/'] + relative
    }
}

/// A joined path keeps what it was joined from: it ends in `relative`, and where
/// `relative` does not start at the root, it begins with `base`.
pub proof fn lemma_join_keeps_both(base: Seq<char>, relative: Seq<char>)
    ensures
        relative.is_suffix_of(join_path(base, relative)),
        !(relative.len() > 0 && relative[0] == '/') ==> base.is_prefix_of(
            join_path(base, relative),
        ),
{
    let joined = join_path(base, relative);
    assert(joined.subrange(joined.len() - relative.len(), joined.len() as int) == relative);
    if !(relative.len() > 0 && relative[0] == '/') {
        assert(joined.subrange(0, base.len() as int) == base);
    }
}

/// Where the server's entry point lies: `server_path` under `working_directory`.
pub fn entry_point(working_directory: &str, server_path: &str) -> (path: String)
    ensures
        path@ == join_path(working_directory@, server_path@),
{
    if server_path.unicode_len() > 0 && server_path.get_char(0) == '/' {
        return String::from_str(server_path);
    }
    let base_len = working_directory.unicode_len();
    let mut path = String::from_str(working_directory);
    if base_len > 0 && working_directory.get_char(base_len - 1) != '/' {
        proof {
            reveal_strlit("/");
            assert("/"@ == seq!['/']);
        }
        path.append("/");
    }
    path.append(server_path);
    path
}

/// The mapping that a list of variables stands for; a later entry displaces an
/// earlier one of the same name.
pub open spec fn env_map(entries: Seq<(String, String)>) -> Map<Seq<char>, Seq<char>>
    decreases entries.len(),
{
    if entries.len() == 0 {
        Map::empty()
    } else {
        env_map(entries.drop_last()).insert(entries.last().0@, entries.last().1@)
    }
}

/// No two entries share a name.
pub open spec fn distinct_names(entries: Seq<(String, String)>) -> bool {
    forall|i: int, j: int|
        0 <= i < j < entries.len() ==> (#[trigger] entries[i]).0@ != (#[trigger] entries[j]).0@
}

/// A resolved launch: what to run, with which arguments, in which environment.
/// No variable occurs twice in the environment.
#[derive(Debug, PartialEq, Eq)]
pub struct LaunchCommand {
    executable: String,
    args: Vec<String>,
    env: Vec<(String, String)>,
}

/// The mathematical model of a `LaunchCommand`. The environment is a mapping:
/// the order of its entries means nothing.
pub struct LaunchCommandView {
    pub executable: Seq<char>,
    pub args: Seq<Seq<char>>,
    pub env: Map<Seq<char>, Seq<char>>,
}

impl View for LaunchCommand {
    type V = LaunchCommandView;

    closed spec fn view(&self) -> LaunchCommandView {
        LaunchCommandView {
            executable: self.executable@,
            args: self.args.deep_view(),
            env: env_map(self.env@),
        }
    }
}

/// The command that launches the server with `settings`: the runtime binary, the
/// server's entry point as the one argument, and the token and the base URL in
/// the environment.
pub open spec fn launch_command(
    config: ConfigView,
    settings: SettingsView,
    executable: Seq<char>,
    working_directory: Seq<char>,
) -> LaunchCommandView {
    LaunchCommandView {
        executable,
        args: seq![join_path(working_directory, config.server_path)],
        env: map![config.token_var => settings.token, config.url_var => settings.url],
    }
}

impl LaunchCommand {
    #[verifier::type_invariant]
    closed spec fn inv(&self) -> bool {
        distinct_names(self.env@)
    }

    /// Assembles the command that launches the server with `settings`.
    pub fn assemble(
        config: &Config,
        settings: Settings,
        executable: String,
        working_directory: &str,
    ) -> (command: LaunchCommand)
        ensures
            command@ == launch_command(config@, settings@, executable@, working_directory@),
    {
        let entry = entry_point(working_directory, config.server_path().as_str());
        let token_var = config.token_var().clone();
        let url_var = config.url_var().clone();
        let (token, url) = settings.into_parts();
        let mut args: Vec<String> = Vec::new();
        args.push(entry);
        let mut env: Vec<(String, String)> = Vec::new();
        env.push((token_var, token));
        env.push((url_var, url));
        proof {
            reveal_with_fuel(env_map, 3);
            assert(env@.drop_last().drop_last().len() == 0);
            assert(env_map(env@) =~= launch_command(
                config@,
                settings@,
                executable@,
                working_directory@,
            ).env);
            assert(args.deep_view() =~= seq![join_path(working_directory@, config@.server_path)]);
        }
        LaunchCommand { executable, args, env }
    }

    /// The program to run.
    pub fn executable(&self) -> (executable: &String)
        ensures
            executable@ == self@.executable,
    {
        &self.executable
    }

    /// The arguments, in order.
    pub fn args(&self) -> (args: &Vec<String>)
        ensures
            args.deep_view() == self@.args,
    {
        &self.args
    }

    /// The environment, one entry for each variable.
    pub fn env(&self) -> (env: &Vec<(String, String)>)
        ensures
            env_map(env@) == self@.env,
            distinct_names(env@),
    {
        proof {
            use_type_invariant(self);
        }
        &self.env
    }
}

} // verus!
