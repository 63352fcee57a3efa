//! The decision whether a command is wrapped, and the command line that runs
//! it through the secret resolver.

use crate::config::{default_view, loaded, merged, permits, Config, ConfigView};
use crate::locate::{find_valid_env_file_path, lemma_root_from, valid_env_root, Context, Marker};
use crate::pattern::any_matches;
use crate::quoting::{
    build_safe_command_arguments, quoting_failure, safe_arguments, QuotingError,
};
use crate::text::{blank, contains, is_blank, is_substring, texts};
use vstd::prelude::*;

verus! {

/// The text of an optional string.
pub open spec fn text_of(text: Option<String>) -> Option<Seq<char>> {
    match text {
        Some(t) => Some(t@),
        None => None,
    }
}

/// What one level configures: nothing where it has no text, or one that
/// cannot be read.
pub open spec fn level(text: Option<Seq<char>>) -> Option<ConfigView> {
    match text {
        Some(t) => loaded(t),
        None => None,
    }
}

/// The pattern set in force: the built-in level, the user's level merged
/// over it, and the project's level merged over both. Where the user has no
/// level, the built-in one stands in its place; a list that a level leaves
/// empty is inherited from the level below.
pub open spec fn resolved(global: Option<Seq<char>>, local: Option<Seq<char>>) -> ConfigView {
    merged(merged(default_view(), level(global)), level(local))
}

/// The pattern set in force for the project rooted at `root`.
pub open spec fn resolved_at(context: Context, root: int) -> ConfigView {
    resolved(text_of(context.global_config), text_of(context.ancestors@[root].config_text))
}

/// The name by which this program is called.
pub open spec fn own_name() -> Seq<char> {
    "openv"@
}

/// A command is wrapped where it is not blank, does not call this program
/// itself, a valid environment file is found, some allow pattern matches the
/// command and no deny pattern does.
pub open spec fn wrapping_needed(command: Seq<char>, context: Context) -> bool {
    &&& !is_blank(command)
    &&& !is_substring(own_name(), command)
    &&& valid_env_root(context.ancestors@) matches Some(root)
    &&& permits(resolved_at(context, root), command)
}

/// A blank command is never wrapped, and the resolver is never started for
/// it.
pub proof fn lemma_blank_command_is_left_alone(command: Seq<char>, context: Context)
    requires
        is_blank(command),
    ensures
        !wrapping_needed(command, context),
        resolver_call(command, context) is None,
{
}

/// A command that holds this program's own name is never wrapped: wrapping
/// does not nest.
pub proof fn lemma_own_command_is_not_wrapped(command: Seq<char>, context: Context)
    requires
        is_substring(own_name(), command),
    ensures
        !wrapping_needed(command, context),
{
}

/// A command that a deny pattern of the pattern set in force matches is not
/// wrapped, whether or not an allow pattern matches it too.
pub proof fn lemma_denied_command_is_not_wrapped(command: Seq<char>, context: Context)
    requires
        valid_env_root(context.ancestors@) matches Some(root) ==> any_matches(
            resolved_at(context, root).deny,
            command,
        ),
    ensures
        !wrapping_needed(command, context),
{
}

/// Where no ancestor holds a `.env` entry, no command is wrapped and the
/// resolver is started for none.
pub proof fn lemma_no_env_file_no_wrapping(command: Seq<char>, context: Context)
    requires
        forall|i: int|
            0 <= i < context.ancestors@.len() ==> !(#[trigger] context.ancestors@[i]).has_env,
    ensures
        valid_env_root(context.ancestors@) is None,
        !wrapping_needed(command, context),
        resolver_call(command, context) is None,
{
    lemma_root_from(context.ancestors@, Marker::Git, 0);
    lemma_root_from(context.ancestors@, Marker::Env, 0);
}

/// Loads one level.
fn load_level(text: &Option<String>) -> (config: Option<Config>)
    ensures
        config is Some <==> level(text_of(*text)) is Some,
        config matches Some(c) ==> level(text_of(*text)) == Some(c@),
{
    match text {
        Some(t) => Config::load(t.as_str()),
        None => None,
    }
}

/// Resolves the pattern set from the texts of the user's and the project's
/// configuration files.
pub fn read_configs(global_text: &Option<String>, local_text: &Option<String>) -> (config: Config)
    ensures
        config@ == resolved(text_of(*global_text), text_of(*local_text)),
{
    let default_config = Config::load_default_config();
    let global_config = Config::merge(&default_config, &load_level(global_text));
    let local_config = load_level(local_text);
    Config::merge(&global_config, &local_config)
}

/// Decides whether `raw_command` is to be run through the resolver.
pub fn needs_wrapping(raw_command: &str, context: &Context) -> (needed: bool)
    ensures
        needed == wrapping_needed(raw_command@, *context),
{
    if blank(raw_command) {
        return false;
    }
    if contains(raw_command, "openv") {
        return false;
    }
    match find_valid_env_file_path(&context.ancestors) {
        Some(root) => {
            let config = read_configs(&context.global_config, &context.ancestors[root].config_text);
            config.permits(raw_command)
        },
        None => false,
    }
}

/// Why a command was not handed to the resolver.
#[derive(Debug, PartialEq, Eq)]
pub enum ExecuteError {
    /// No project root with a valid environment file was found.
    NoEnvFile,
    /// The command line could not be rebuilt.
    Quoting(QuotingError),
}

impl ExecuteError {
    /// The text of `message`.
    pub open spec fn message_text(self) -> Seq<char> {
        match self {
            ExecuteError::NoEnvFile => "No valid .env file found"@,
            ExecuteError::Quoting(error) => "Failed to build command arguments: "@
                + error.message_text(),
        }
    }

    /// The error as a line for the user.
    pub fn message(&self) -> (text: String)
        ensures
            text@ == self.message_text(),
    {
        match self {
            ExecuteError::NoEnvFile => String::from_str("No valid .env file found"),
            ExecuteError::Quoting(error) => {
                let mut text = String::from_str("Failed to build command arguments: ");
                text.append(error.message().as_str());
                text
            },
        }
    }
}

/// The masking flag of a pattern set, unset counting as false.
pub open spec fn masking_disabled(config: ConfigView) -> bool {
    config.disable_masking == Some(true)
}

/// The arguments of the resolver: its verb, the environment file, the flag
/// that switches masking off, the separator, and the command's own words.
pub open spec fn resolver_arguments(
    env_path: Seq<char>,
    no_masking: bool,
    safe: Seq<Seq<char>>,
) -> Seq<Seq<char>> {
    seq!["run"@, "--env-file"@, env_path] + (if no_masking {
        seq!["--no-masking"@]
    } else {
        Seq::<Seq<char>>::empty()
    }) + seq!["--"@] + safe
}

/// The argument list with which the resolver is started for a command;
/// `None` where it is not started.
pub open spec fn resolver_call(command: Seq<char>, context: Context) -> Option<Seq<Seq<char>>> {
    match valid_env_root(context.ancestors@) {
        Some(root) => match safe_arguments(command) {
            Some(safe) => Some(
                resolver_arguments(
                    context.ancestors@[root].env_path@,
                    masking_disabled(resolved_at(context, root)),
                    safe,
                ),
            ),
            None => None,
        },
        None => None,
    }
}

/// Builds the argument list with which the resolver `op` runs
/// `raw_command`. Fails where no valid environment file is found, and
/// else where the command line cannot be rebuilt.
pub fn execute_command(raw_command: &str, context: &Context) -> (result: Result<
    Vec<String>,
    ExecuteError,
>)
    ensures
        result is Ok <==> resolver_call(raw_command@, *context) is Some,
        match result {
            Ok(arguments) => resolver_call(raw_command@, *context) == Some(texts(arguments@)),
            Err(ExecuteError::NoEnvFile) => valid_env_root(context.ancestors@) is None,
            Err(ExecuteError::Quoting(error)) => {
                &&& valid_env_root(context.ancestors@) is Some
                &&& quoting_failure(raw_command@, error)
            },
        },
{
    let root = match find_valid_env_file_path(&context.ancestors) {
        Some(root) => root,
        None => {
            return Err(ExecuteError::NoEnvFile);
        },
    };
    let directory = &context.ancestors[root];
    let config = read_configs(&context.global_config, &directory.config_text);
    let mut arguments: Vec<String> = Vec::new();
    arguments.push(String::from_str("run"));
    arguments.push(String::from_str("--env-file"));
    arguments.push(directory.env_path.clone());
    let no_masking = match config.disable_masking {
        Some(flag) => flag,
        None => false,
    };
    if no_masking {
        arguments.push(String::from_str("--no-masking"));
    }
    arguments.push(String::from_str("--"));
    let ghost head = texts(arguments@);
    assert(head =~= seq!["run"@, "--env-file"@, directory.env_path@] + (if no_masking {
        seq!["--no-masking"@]
    } else {
        Seq::<Seq<char>>::empty()
    }) + seq!["--"@]);
    let mut safe_args = match build_safe_command_arguments(raw_command) {
        Ok(safe_args) => safe_args,
        Err(error) => {
            return Err(ExecuteError::Quoting(error));
        },
    };
    let ghost safe = texts(safe_args@);
    arguments.append(&mut safe_args);
    assert(texts(arguments@) =~= head + safe);
    Ok(arguments)
}

/// The exit code of this program after the resolver has run: the resolver's
/// own, or 1 where it left none.
pub fn exit_code(status: Option<i32>) -> (code: i32)
    ensures
        code == match status {
            Some(c) => c,
            None => 1,
        },
{
    match status {
        Some(c) => c,
        None => 1,
    }
}

/// The exit code of a check: 0 where the command needs wrapping, else 1.
pub fn check_exit_code(needed: bool) -> (code: i32)
    ensures
        code == if needed {
            0i32
        } else {
            1i32
        },
{
    if needed {
        0
    } else {
        1
    }
}

} // verus!
