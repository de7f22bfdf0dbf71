use minishell::command::binary::basename;
use minishell::command::cd::cd_error_message;
use minishell::command::{
    path_join, split_path, Binary, Builtin, Command, HostAction, HostEnv, SpawnMode,
};

fn argv(words: &[&str]) -> Vec<String> {
    words.iter().map(|w| w.to_string()).collect()
}

fn env() -> HostEnv {
    HostEnv { cwd: "/work".to_string(), home: "/home/user".to_string(), found: None }
}

fn env_found(path: &str) -> HostEnv {
    HostEnv {
        cwd: "/work".to_string(),
        home: "/home/user".to_string(),
        found: Some(path.to_string()),
    }
}

#[test]
fn resolver_classifies_builtins() {
    for name in ["echo", "exit", "type", "pwd", "cd", "history"] {
        let cmd = Command::parse(&name.to_string(), None);
        assert!(matches!(cmd, Command::Builtin(_)), "{name} should be a builtin");
    }
}

#[test]
fn resolver_classifies_external() {
    let cmd = Command::parse(&"ls".to_string(), Some("/bin/ls".to_string()));
    match cmd {
        Command::Binary(bin) => assert_eq!(bin.get_path(), "/bin/ls"),
        other => panic!("expected an external command, got {:?}", other),
    }
}

#[test]
fn resolver_classifies_unknown() {
    let cmd = Command::parse(&"zzzznotacommand".to_string(), None);
    assert!(matches!(cmd, Command::Unknown(name) if name == "zzzznotacommand"));
}

#[test]
fn builtin_from_name_misses() {
    assert_eq!(Builtin::from_name(&"ech".to_string()), None);
    assert_eq!(Builtin::from_name(&"ECHO".to_string()), None);
    assert_eq!(Builtin::from_name(&"".to_string()), None);
}

#[test]
fn unknown_reports_not_found() {
    let mut history: Vec<String> = Vec::new();
    let cmd = Command::parse(&"zzzznotacommand".to_string(), None);
    let a = argv(&["zzzznotacommand"]);
    let r = cmd.run(&a, false, &env(), &mut history);
    assert_eq!(r.out, "");
    assert_eq!(r.err, "zzzznotacommand: command not found\n");
    assert_eq!(r.action, HostAction::Done);
    assert_eq!(history, vec!["zzzznotacommand".to_string()]);
}

#[test]
fn echo_joins_and_ends_with_newline() {
    let mut history: Vec<String> = Vec::new();
    let cmd = Command::parse(&"echo".to_string(), None);
    let r = cmd.run(&argv(&["echo", "hello", "world"]), false, &env(), &mut history);
    assert_eq!(r.out, "hello world\n");
    assert_eq!(r.err, "");
    assert_eq!(r.action, HostAction::Done);
    assert_eq!(history, vec!["echo hello world".to_string()]);
}

#[test]
fn echo_without_arguments_prints_newline() {
    let mut history: Vec<String> = Vec::new();
    let cmd = Command::parse(&"echo".to_string(), None);
    let r = cmd.run(&argv(&["echo"]), false, &env(), &mut history);
    assert_eq!(r.out, "\n");
}

#[test]
fn echo_foo_for_redirection_round_trip() {
    let mut history: Vec<String> = Vec::new();
    let cmd = Command::parse(&"echo".to_string(), None);
    let r = cmd.run(&argv(&["echo", "foo"]), false, &env(), &mut history);
    assert_eq!(r.out, "foo\n");
}

#[test]
fn pwd_reports_current_directory() {
    let mut history: Vec<String> = Vec::new();
    let cmd = Command::parse(&"pwd".to_string(), None);
    let r = cmd.run(&argv(&["pwd"]), false, &env(), &mut history);
    assert_eq!(r.out, "/work\n");
    assert_eq!(r.action, HostAction::Done);
}

#[test]
fn cd_asks_for_its_argument() {
    let mut history: Vec<String> = Vec::new();
    let cmd = Command::parse(&"cd".to_string(), None);
    let r = cmd.run(&argv(&["cd", "/somewhere"]), false, &env(), &mut history);
    assert_eq!(r.action, HostAction::Chdir { path: "/somewhere".to_string() });
    assert_eq!(r.out, "");
    assert_eq!(r.err, "");
}

#[test]
fn cd_tilde_and_bare_cd_go_home() {
    let mut history: Vec<String> = Vec::new();
    let cmd = Command::parse(&"cd".to_string(), None);
    let r = cmd.run(&argv(&["cd", "~"]), false, &env(), &mut history);
    assert_eq!(r.action, HostAction::Chdir { path: "/home/user".to_string() });
    let r = cmd.run(&argv(&["cd"]), false, &env(), &mut history);
    assert_eq!(r.action, HostAction::Chdir { path: "/home/user".to_string() });
}

#[test]
fn cd_failure_message() {
    assert_eq!(
        cd_error_message(&"/nope".to_string()),
        "cd: /nope: No such file or directory\n"
    );
}

#[test]
fn exit_codes() {
    let cmd = Command::parse(&"exit".to_string(), None);
    let cases: &[(&[&str], i32)] = &[
        (&["exit"], 0),
        (&["exit", "5"], 5),
        (&["exit", "+7"], 7),
        (&["exit", "-3"], -3),
        (&["exit", "abc"], 1),
        (&["exit", ""], 1),
        (&["exit", "2147483647"], 2147483647),
        (&["exit", "-2147483648"], -2147483648),
        (&["exit", "2147483648"], 1),
        (&["exit", "99999999999999999999999"], 1),
    ];
    for (words, code) in cases {
        let mut history: Vec<String> = Vec::new();
        let r = cmd.run(&argv(words), false, &env(), &mut history);
        assert_eq!(r.action, HostAction::Terminate { code: *code }, "case {:?}", words);
    }
}

#[test]
fn type_reports_builtin() {
    let mut history: Vec<String> = Vec::new();
    let cmd = Command::parse(&"type".to_string(), None);
    let r = cmd.run(&argv(&["type", "cd"]), false, &env(), &mut history);
    assert_eq!(r.out, "cd is a shell builtin\n");
    assert_eq!(r.err, "");
}

#[test]
fn type_reports_external_path() {
    let mut history: Vec<String> = Vec::new();
    let cmd = Command::parse(&"type".to_string(), None);
    let r = cmd.run(&argv(&["type", "ls"]), false, &env_found("/bin/ls"), &mut history);
    assert_eq!(r.out, "ls is /bin/ls\n");
}

#[test]
fn type_reports_not_found() {
    let mut history: Vec<String> = Vec::new();
    let cmd = Command::parse(&"type".to_string(), None);
    let r = cmd.run(&argv(&["type", "zzzznotacommand"]), false, &env(), &mut history);
    assert_eq!(r.out, "zzzznotacommand: not found\n");
}

#[test]
fn type_without_argument_complains() {
    let mut history: Vec<String> = Vec::new();
    let cmd = Command::parse(&"type".to_string(), None);
    let r = cmd.run(&argv(&["type"]), false, &env(), &mut history);
    assert_eq!(r.out, "");
    assert_eq!(r.err, "type: not enough arguments");
}

#[test]
fn history_lists_last_two() {
    let mut history: Vec<String> = Vec::new();
    let echo = Command::parse(&"echo".to_string(), None);
    for word in ["a", "b", "c"] {
        echo.run(&argv(&["echo", word]), false, &env(), &mut history);
    }
    let cmd = Command::parse(&"history".to_string(), None);
    let r = cmd.run(&argv(&["history", "2"]), false, &env(), &mut history);
    assert_eq!(r.out, "2  echo b\n3  echo c\n");
    assert_eq!(r.err, "");
    // The history invocation itself entered the log after the listing.
    assert_eq!(history.last().unwrap(), "history 2");
    assert_eq!(history.len(), 4);
}

#[test]
fn history_without_limit_lists_all() {
    let mut history: Vec<String> = Vec::new();
    let echo = Command::parse(&"echo".to_string(), None);
    echo.run(&argv(&["echo", "a"]), false, &env(), &mut history);
    echo.run(&argv(&["echo", "b"]), false, &env(), &mut history);
    let cmd = Command::parse(&"history".to_string(), None);
    let r = cmd.run(&argv(&["history"]), false, &env(), &mut history);
    assert_eq!(r.out, "1  echo a\n2  echo b\n");
}

#[test]
fn history_limit_edge_cases() {
    let mut history: Vec<String> = Vec::new();
    let echo = Command::parse(&"echo".to_string(), None);
    echo.run(&argv(&["echo", "a"]), false, &env(), &mut history);
    let cmd = Command::parse(&"history".to_string(), None);
    let r = cmd.run(&argv(&["history", "0"]), false, &env(), &mut history);
    assert_eq!(r.out, "");
    let r = cmd.run(&argv(&["history", "999"]), false, &env(), &mut history);
    assert_eq!(r.out, "1  echo a\n2  history 0\n");
}

#[test]
fn history_non_numeric_argument_is_reported() {
    let mut history: Vec<String> = Vec::new();
    let cmd = Command::parse(&"history".to_string(), None);
    let r = cmd.run(&argv(&["history", "x2"]), false, &env(), &mut history);
    assert_eq!(r.out, "");
    assert_eq!(r.err, "history: x2: numeric argument required\n");
    assert_eq!(history, vec!["history x2".to_string()]);
}

#[test]
fn external_spawn_modes() {
    let mut history: Vec<String> = Vec::new();
    let cat = Command::parse(&"cat".to_string(), Some("/bin/cat".to_string()));
    let r = cat.run(&argv(&["cat"]), false, &env(), &mut history);
    assert_eq!(
        r.action,
        HostAction::Spawn { path: "/bin/cat".to_string(), mode: SpawnMode::Captured }
    );
    let r = cat.run(&argv(&["cat"]), true, &env(), &mut history);
    assert_eq!(
        r.action,
        HostAction::Spawn { path: "/bin/cat".to_string(), mode: SpawnMode::CapturedWithInput }
    );
    let tail = Command::parse(&"tail".to_string(), Some("/usr/bin/tail".to_string()));
    let r = tail.run(&argv(&["tail", "x.log"]), false, &env(), &mut history);
    assert_eq!(
        r.action,
        HostAction::Spawn { path: "/usr/bin/tail".to_string(), mode: SpawnMode::Inherit }
    );
    assert_eq!(history.len(), 3);
    assert_eq!(history[2], "tail x.log");
}

#[test]
fn follow_flag_forces_inherit() {
    let mut history: Vec<String> = Vec::new();
    let cat = Command::parse(&"cat".to_string(), Some("/bin/cat".to_string()));
    let r = cat.run(&argv(&["cat", "-f"]), false, &env(), &mut history);
    assert_eq!(
        r.action,
        HostAction::Spawn { path: "/bin/cat".to_string(), mode: SpawnMode::Inherit }
    );
    let r = cat.run(&argv(&["cat", "--follow"]), true, &env(), &mut history);
    assert_eq!(
        r.action,
        HostAction::Spawn { path: "/bin/cat".to_string(), mode: SpawnMode::Inherit }
    );
}

#[test]
fn long_running_classification() {
    let tail = Binary::new("/usr/bin/tail".to_string());
    assert!(tail.is_long_running_command(&argv(&["tail"])));
    let cat = Binary::new("/bin/cat".to_string());
    assert!(!cat.is_long_running_command(&argv(&["cat", "x"])));
    assert!(cat.is_long_running_command(&argv(&["cat", "-f"])));
}

#[test]
fn basename_extracts_final_component() {
    assert_eq!(basename(&"/usr/bin/ls".to_string()), "ls");
    assert_eq!(basename(&"ls".to_string()), "ls");
    assert_eq!(basename(&"/usr/bin/".to_string()), "");
    assert_eq!(basename(&"".to_string()), "");
}

#[test]
fn split_path_keeps_order_and_empty_entries() {
    let dirs = split_path("/bin:/usr/bin");
    assert_eq!(dirs, vec!["/bin".to_string(), "/usr/bin".to_string()]);
    assert_eq!(split_path(""), vec!["".to_string()]);
    assert_eq!(split_path("a::b"), vec!["a".to_string(), "".to_string(), "b".to_string()]);
}

#[test]
fn path_join_inserts_separator() {
    assert_eq!(path_join(&"/bin".to_string(), &"ls".to_string()), "/bin/ls");
}
