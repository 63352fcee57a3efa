//! The shells that can call this program, their hook scripts, and the plan
//! for installing a hook in a shell's startup file.

use crate::text::{chars_of, contains, is_substring};
use vstd::prelude::*;

verus! {

/// The script that binds the program to bash.
pub const BASH_HOOK: &'static str = r#"
_openv_hook() {
  [[ $- != *i* ]] && return

  if openv check "$BASH_COMMAND" >/dev/null 2>&1; then
    openv execute "$BASH_COMMAND"

    history -s "$BASH_COMMAND"
    trap - DEBUG
    kill -SIGINT $$
  fi
}

trap '_openv_hook' DEBUG
"#;

/// The script that binds the program to zsh.
pub const ZSH_HOOK: &'static str = r#"
_openv_hook() {
  emulate -L zsh
  setopt localoptions no_aliases

  if openv check "$BUFFER" > /dev/null 2>&1; then
    print -s -- "$BUFFER"

    BUFFER="openv execute ${(q)BUFFER}"
    zle accept-line
    return 0
  fi

  zle .accept-line
}

zle -N _openv_hook

bindkey '^M' _openv_hook
bindkey '^J' _openv_hook
"#;

/// The script that binds the program to fish.
pub const FISH_HOOK: &'static str = r#"
function _openv_hook
    set cmdline (commandline)

    if openv check "$cmdline" > /dev/null 2>&1
        openv execute "$cmdline"
        history merge
        history append "$cmdline"
        history save
        commandline ''
    else
        commandline -f execute
    end
end

bind \r _openv_hook
bind \cj _openv_hook
"#;

/// A shell for which a hook exists.
#[derive(Copy, Clone, Debug, PartialEq, Eq, Structural)]
pub enum Shell {
    Bash,
    Zsh,
    Fish,
}

/// The shell of a name; `None` for any other name.
pub open spec fn shell_named(name: Seq<char>) -> Option<Shell> {
    if name == "bash"@ {
        Some(Shell::Bash)
    } else if name == "zsh"@ {
        Some(Shell::Zsh)
    } else if name == "fish"@ {
        Some(Shell::Fish)
    } else {
        None
    }
}

impl Shell {
    /// The shell's name, in lower case.
    pub open spec fn name_text(self) -> Seq<char> {
        match self {
            Shell::Bash => "bash"@,
            Shell::Zsh => "zsh"@,
            Shell::Fish => "fish"@,
        }
    }

    /// The shell's hook script.
    pub open spec fn hook_text(self) -> Seq<char> {
        match self {
            Shell::Bash => BASH_HOOK@,
            Shell::Zsh => ZSH_HOOK@,
            Shell::Fish => FISH_HOOK@,
        }
    }

    /// The shell's name, in lower case.
    pub fn name(&self) -> (name: &'static str)
        ensures
            name@ == self.name_text(),
    {
        match self {
            Shell::Bash => "bash",
            Shell::Zsh => "zsh",
            Shell::Fish => "fish",
        }
    }

    /// The shell called `name`.
    pub fn from_name(name: &str) -> (shell: Option<Shell>)
        ensures
            shell == shell_named(name@),
    {
        let name = name.to_owned();
        if name == String::from_str("bash") {
            Some(Shell::Bash)
        } else if name == String::from_str("zsh") {
            Some(Shell::Zsh)
        } else if name == String::from_str("fish") {
            Some(Shell::Fish)
        } else {
            None
        }
    }
}

/// The script that a shell evaluates to bind the program to its command
/// line.
pub fn hook_script(shell: &Shell) -> (script: &'static str)
    ensures
        script@ == shell.hook_text(),
{
    match shell {
        Shell::Bash => BASH_HOOK,
        Shell::Zsh => ZSH_HOOK,
        Shell::Fish => FISH_HOOK,
    }
}

/// Where the last segment of a path starts: behind its last `/`, or at 0.
pub open spec fn segment_start(path: Seq<char>) -> int
    decreases path.len(),
{
    if path.len() == 0 {
        0
    } else if path.last() == '/' {
        path.len() as int
    } else {
        segment_start(path.drop_last())
    }
}

/// What follows the last `/` of a path; the whole path where it has none.
pub open spec fn last_segment(path: Seq<char>) -> Seq<char> {
    path.subrange(segment_start(path), path.len() as int)
}

/// The last segment starts inside the path.
pub proof fn lemma_segment_start_bounds(path: Seq<char>)
    ensures
        0 <= segment_start(path) <= path.len(),
    decreases path.len(),
{
    if path.len() > 0 && path.last() != '/' {
        lemma_segment_start_bounds(path.drop_last());
    }
}

/// Cuts the last segment off a path.
pub fn last_segment_of(path: &str) -> (segment: String)
    ensures
        segment@ == last_segment(path@),
{
    let chars = chars_of(path);
    let mut start: usize = chars.len();
    assert(chars@.take(start as int) == chars@);
    while start > 0 && chars[start - 1] != '/'
        invariant
            start <= chars.len(),
            segment_start(chars@) == segment_start(chars@.take(start as int)),
        decreases start,
    {
        assert(chars@.take(start as int).drop_last() == chars@.take(start - 1));
        start -= 1;
    }
    let length = path.unicode_len();
    path.substring_char(start, length).to_owned()
}

/// The variables of the environment that decide where a hook is installed.
pub struct ShellEnvironment {
    /// `SHELL`: the path of the user's shell.
    pub shell: Option<String>,
    /// `HOME`: the user's home directory.
    pub home: Option<String>,
    /// `ZDOTDIR`: where zsh looks for its startup files.
    pub zdotdir: Option<String>,
    /// `XDG_CONFIG_HOME`: where fish looks for its configuration.
    pub xdg_config_home: Option<String>,
}

/// Why no hook can be installed.
#[derive(Debug, PartialEq, Eq)]
pub enum SetupError {
    /// No shell was given and `SHELL` is not set.
    UnknownShell,
    /// `HOME` is not set.
    NoHome,
    /// The shell has no hook.
    Unsupported { shell: String },
}

impl SetupError {
    /// The text of `message`.
    pub open spec fn message_text(self) -> Seq<char> {
        match self {
            SetupError::UnknownShell =>
                "Could not detect shell. Please specify one using `--shell <shell>`."@,
            SetupError::NoHome => "Could not determine $HOME directory."@,
            SetupError::Unsupported { shell } => "Unsupported shell: "@ + shell@,
        }
    }

    /// The error as a line for the user.
    pub fn message(&self) -> (text: String)
        ensures
            text@ == self.message_text(),
    {
        match self {
            SetupError::UnknownShell => String::from_str(
                "Could not detect shell. Please specify one using `--shell <shell>`.",
            ),
            SetupError::NoHome => String::from_str("Could not determine $HOME directory."),
            SetupError::Unsupported { shell } => {
                let mut text = String::from_str("Unsupported shell: ");
                text.append(shell.as_str());
                text
            },
        }
    }
}

/// Where a hook is installed, and the line that installs it.
pub struct SetupPlan {
    /// The shell.
    pub shell: Shell,
    /// The directory that holds the startup file.
    pub directory: String,
    /// The startup file, relative to the directory.
    pub file: String,
    /// The line that evaluates the hook.
    pub init_command: String,
}

/// The name of the shell to set up: that of the shell given, else the last
/// segment of `SHELL`.
pub open spec fn wanted_name(shell: Option<Shell>, environment: ShellEnvironment) -> Option<
    Seq<char>,
> {
    match shell {
        Some(s) => Some(s.name_text()),
        None => match environment.shell {
            Some(path) => Some(last_segment(path@)),
            None => None,
        },
    }
}

/// The directory that holds a shell's startup file.
pub open spec fn startup_directory(
    shell: Shell,
    home: Seq<char>,
    environment: ShellEnvironment,
) -> Seq<char> {
    match shell {
        Shell::Bash => home,
        Shell::Zsh => match environment.zdotdir {
            Some(directory) => directory@,
            None => home,
        },
        Shell::Fish => match environment.xdg_config_home {
            Some(directory) => directory@,
            None => home + "/.config"@,
        },
    }
}

/// A shell's startup file, relative to its directory.
pub open spec fn startup_file(shell: Shell) -> Seq<char> {
    match shell {
        Shell::Bash => ".bashrc"@,
        Shell::Zsh => ".zshrc"@,
        Shell::Fish => "fish/config.fish"@,
    }
}

/// The line that evaluates a shell's hook when the shell starts.
pub open spec fn init_line(shell: Shell) -> Seq<char> {
    match shell {
        Shell::Fish => "openv hook fish | source"@,
        _ => "eval \"$(openv hook "@ + shell.name_text() + ")\""@,
    }
}

/// The plan for a shell in an environment.
pub open spec fn plan_matches(
    plan: SetupPlan,
    shell: Shell,
    home: Seq<char>,
    environment: ShellEnvironment,
) -> bool {
    &&& plan.shell == shell
    &&& plan.directory@ == startup_directory(shell, home, environment)
    &&& plan.file@ == startup_file(shell)
    &&& plan.init_command@ == init_line(shell)
}

/// Decides which startup file gets the hook of which shell. The shell is the
/// one given, else the one that `SHELL` names.
pub fn setup_target(shell: Option<Shell>, environment: &ShellEnvironment) -> (result: Result<
    SetupPlan,
    SetupError,
>)
    ensures
        match result {
            Ok(plan) => {
                &&& wanted_name(shell, *environment) matches Some(name)
                &&& environment.home matches Some(home)
                &&& shell_named(name) matches Some(found)
                &&& plan_matches(plan, found, home@, *environment)
            },
            Err(SetupError::UnknownShell) => wanted_name(shell, *environment) is None,
            Err(SetupError::NoHome) => {
                &&& wanted_name(shell, *environment) is Some
                &&& environment.home is None
            },
            Err(SetupError::Unsupported { shell: name }) => {
                &&& wanted_name(shell, *environment) == Some(name@)
                &&& environment.home is Some
                &&& shell_named(name@) is None
            },
        },
{
    let name = match shell {
        Some(s) => s.name().to_owned(),
        None => match &environment.shell {
            Some(path) => last_segment_of(path.as_str()),
            None => {
                return Err(SetupError::UnknownShell);
            },
        },
    };
    let home = match &environment.home {
        Some(home) => home,
        None => {
            return Err(SetupError::NoHome);
        },
    };
    let found = match Shell::from_name(name.as_str()) {
        Some(found) => found,
        None => {
            return Err(SetupError::Unsupported { shell: name });
        },
    };
    let directory = match found {
        Shell::Bash => home.clone(),
        Shell::Zsh => match &environment.zdotdir {
            Some(directory) => directory.clone(),
            None => home.clone(),
        },
        Shell::Fish => match &environment.xdg_config_home {
            Some(directory) => directory.clone(),
            None => home.clone().concat("/.config"),
        },
    };
    let file = match found {
        Shell::Bash => String::from_str(".bashrc"),
        Shell::Zsh => String::from_str(".zshrc"),
        Shell::Fish => String::from_str("fish/config.fish"),
    };
    let init_command = match found {
        Shell::Fish => String::from_str("openv hook fish | source"),
        _ => {
            let mut line = String::from_str("eval \"$(openv hook ");
            line.append(found.name());
            line.append(")\"");
            line
        },
    };
    Ok(SetupPlan { shell: found, directory, file, init_command })
}

/// What is done to a startup file.
#[derive(Debug, PartialEq, Eq)]
pub enum SetupAction {
    /// The file holds the line already: it is left as it is.
    AlreadyPresent,
    /// The line is appended to the file.
    Append { line: String },
}

/// Decides whether the startup file gets the line of the plan. `existing`
/// is the text of the file, where it could be read.
pub fn setup_hook(plan: &SetupPlan, existing: &Option<String>) -> (action: SetupAction)
    ensures
        match action {
            SetupAction::AlreadyPresent => existing matches Some(text) && is_substring(
                plan.init_command@,
                text@,
            ),
            SetupAction::Append { line } => {
                &&& line@ == plan.init_command@
                &&& existing matches Some(text) ==> !is_substring(plan.init_command@, text@)
            },
        },
{
    let present = match existing {
        Some(text) => contains(text.as_str(), plan.init_command.as_str()),
        None => false,
    };
    if present {
        SetupAction::AlreadyPresent
    } else {
        SetupAction::Append { line: plan.init_command.clone() }
    }
}

} // verus!
