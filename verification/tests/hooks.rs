use openv::hooks::{
    hook_script, last_segment_of, setup_hook, setup_target, SetupAction, SetupError,
    Shell, ShellEnvironment, BASH_HOOK, FISH_HOOK, ZSH_HOOK,
};

fn environment(shell: Option<&str>, home: Option<&str>) -> ShellEnvironment {
    ShellEnvironment {
        shell: shell.map(String::from),
        home: home.map(String::from),
        zdotdir: None,
        xdg_config_home: None,
    }
}

#[test]
fn shells_have_lower_case_names() {
    assert_eq!(Shell::Bash.name(), "bash");
    assert_eq!(Shell::Zsh.name(), "zsh");
    assert_eq!(Shell::Fish.name(), "fish");
    for shell in [Shell::Bash, Shell::Zsh, Shell::Fish] {
        assert_eq!(Shell::from_name(shell.name()), Some(shell));
    }
    assert_eq!(Shell::from_name("Bash"), None);
    assert_eq!(Shell::from_name("sh"), None);
    assert_eq!(Shell::from_name(""), None);
    assert_eq!(Shell::from_name("fish "), None);
}

#[test]
fn each_shell_has_its_hook_script() {
    assert_eq!(hook_script(&Shell::Bash), BASH_HOOK);
    assert_eq!(hook_script(&Shell::Zsh), ZSH_HOOK);
    assert_eq!(hook_script(&Shell::Fish), FISH_HOOK);
    assert!(BASH_HOOK.contains("trap '_openv_hook' DEBUG"));
    assert!(BASH_HOOK.contains("openv check \"$BASH_COMMAND\""));
    assert!(ZSH_HOOK.contains("BUFFER=\"openv execute ${(q)BUFFER}\""));
    assert!(ZSH_HOOK.contains("bindkey '^M' _openv_hook"));
    assert!(FISH_HOOK.contains("openv execute \"$cmdline\""));
    assert!(FISH_HOOK.contains("bind \\r _openv_hook"));
}

#[test]
fn last_segment_follows_the_last_slash() {
    assert_eq!(last_segment_of("/bin/zsh"), "zsh");
    assert_eq!(last_segment_of("/usr/local/bin/fish"), "fish");
    assert_eq!(last_segment_of("bash"), "bash");
    assert_eq!(last_segment_of("/bin/"), "");
    assert_eq!(last_segment_of("/"), "");
    assert_eq!(last_segment_of(""), "");
    assert_eq!(last_segment_of("/opt/caf\u{e9}/\u{e9}sh"), "\u{e9}sh");
}

#[test]
fn bash_is_set_up_in_the_home_directory() {
    let plan = setup_target(Some(Shell::Bash), &environment(None, Some("/home/me"))).unwrap();
    assert_eq!(plan.shell, Shell::Bash);
    assert_eq!(plan.directory, "/home/me");
    assert_eq!(plan.file, ".bashrc");
    assert_eq!(plan.init_command, "eval \"$(openv hook bash)\"");
}

#[test]
fn zsh_is_set_up_where_its_startup_files_are() {
    let mut env = environment(Some("/bin/bash"), Some("/home/me"));
    let plan = setup_target(Some(Shell::Zsh), &env).unwrap();
    assert_eq!(plan.directory, "/home/me");
    assert_eq!(plan.file, ".zshrc");
    assert_eq!(plan.init_command, "eval \"$(openv hook zsh)\"");
    env.zdotdir = Some(String::from("/home/me/.zsh"));
    let moved = setup_target(Some(Shell::Zsh), &env).unwrap();
    assert_eq!(moved.directory, "/home/me/.zsh");
    assert_eq!(moved.file, ".zshrc");
}

#[test]
fn fish_is_set_up_in_the_configuration_directory() {
    let mut env = environment(Some("/usr/bin/fish"), Some("/home/me"));
    let plan = setup_target(None, &env).unwrap();
    assert_eq!(plan.shell, Shell::Fish);
    assert_eq!(plan.directory, "/home/me/.config");
    assert_eq!(plan.file, "fish/config.fish");
    assert_eq!(plan.init_command, "openv hook fish | source");
    env.xdg_config_home = Some(String::from("/etc/xdg"));
    assert_eq!(setup_target(None, &env).unwrap().directory, "/etc/xdg");
}

#[test]
fn shell_is_detected_from_the_environment() {
    let plan = setup_target(None, &environment(Some("/bin/zsh"), Some("/home/me"))).unwrap();
    assert_eq!(plan.shell, Shell::Zsh);
    let plain = setup_target(None, &environment(Some("bash"), Some("/home/me"))).unwrap();
    assert_eq!(plain.shell, Shell::Bash);
}

#[test]
fn setup_fails_without_a_shell_a_home_or_a_hook() {
    let no_shell = setup_target(None, &environment(None, None)).err();
    assert_eq!(no_shell, Some(SetupError::UnknownShell));
    let no_home = setup_target(None, &environment(Some("/bin/dash"), None)).err();
    assert_eq!(no_home, Some(SetupError::NoHome));
    assert_eq!(setup_target(Some(Shell::Fish), &environment(None, None)).err(), Some(SetupError::NoHome));
    let unsupported = setup_target(None, &environment(Some("/bin/dash"), Some("/home/me"))).err();
    assert_eq!(unsupported, Some(SetupError::Unsupported { shell: String::from("dash") }));
    let empty = setup_target(None, &environment(Some("/bin/"), Some("/home/me"))).err();
    assert_eq!(empty, Some(SetupError::Unsupported { shell: String::new() }));
}

#[test]
fn setup_error_messages() {
    assert_eq!(
        SetupError::UnknownShell.message(),
        "Could not detect shell. Please specify one using `--shell <shell>`."
    );
    assert_eq!(SetupError::NoHome.message(), "Could not determine $HOME directory.");
    assert_eq!(
        SetupError::Unsupported { shell: String::from("dash") }.message(),
        "Unsupported shell: dash"
    );
}

#[test]
fn hook_is_appended_once() {
    let plan = setup_target(Some(Shell::Bash), &environment(None, Some("/home/me"))).unwrap();
    let line = String::from("eval \"$(openv hook bash)\"");
    assert_eq!(setup_hook(&plan, &None), SetupAction::Append { line: line.clone() });
    assert_eq!(setup_hook(&plan, &Some(String::new())), SetupAction::Append { line: line.clone() });
    assert_eq!(
        setup_hook(&plan, &Some(String::from("alias ll='ls -l'\neval \"$(openv hook zsh)\"\n"))),
        SetupAction::Append { line: line.clone() }
    );
    let installed = format!("alias ll='ls -l'\n{line}\n");
    assert_eq!(setup_hook(&plan, &Some(installed.clone())), SetupAction::AlreadyPresent);
    let twice = format!("{installed}{line}\n");
    assert_eq!(setup_hook(&plan, &Some(twice)), SetupAction::AlreadyPresent);
}
