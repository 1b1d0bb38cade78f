use psh::command::Arg;
use psh::errors::ShellError;
use psh::shell::{load_state, path_prompt, rc_line_error, status_marker};
use psh::sock::{sock_path_from_pid, u32_to_string};
use psh::builtins::{classify_builtin, Builtin};
use psh::state::{Alias, EnvVar};

#[test]
fn sock_paths_follow_the_pid_convention() {
    assert_eq!(sock_path_from_pid(12345), "/tmp/psh/12345/service.sock");
    assert_eq!(sock_path_from_pid(0), "/tmp/psh/0/service.sock");
}

#[test]
fn numbers_render_in_decimal() {
    assert_eq!(u32_to_string(0), "0");
    assert_eq!(u32_to_string(7), "7");
    assert_eq!(u32_to_string(1000), "1000");
    assert_eq!(u32_to_string(4294967295), "4294967295");
}

#[test]
fn parse_u32_accepts_digits_in_range_only() {
    assert_eq!(psh::engine::parse_u32(&String::from("0")), Some(0));
    assert_eq!(psh::engine::parse_u32(&String::from("4294967295")), Some(4294967295));
    assert_eq!(psh::engine::parse_u32(&String::from("4294967296")), None);
    assert_eq!(psh::engine::parse_u32(&String::from("")), None);
    assert_eq!(psh::engine::parse_u32(&String::from("12a")), None);
    assert_eq!(psh::engine::parse_u32(&String::from("+1")), None);
}

#[test]
fn trimming_removes_only_what_it_should() {
    assert_eq!(psh::engine::trim_end(&String::from("  a b \n")), "  a b");
    assert_eq!(psh::engine::trim_end(&String::from("hi\n")), "hi");
    assert_eq!(psh::engine::trim(&String::from("  a b \n")), "a b");
    assert_eq!(psh::engine::trim(&String::from(" \t\n")), "");
}

#[test]
fn load_state_builds_aliases_and_environment() {
    let lines = vec![String::from("ll -> ls -la"), String::from("gs -> git status")];
    let pairs = vec![
        EnvVar { key: String::from("HOME"), value: String::from("/home/u") },
        EnvVar { key: String::from("HOME"), value: String::from("/home/v") },
    ];
    let st = load_state(&lines, &pairs, String::from("/home/u/.psh_history"), 42).unwrap();
    assert_eq!(st.aliases.len(), 2);
    let ll = st.aliases.lookup(&String::from("ll")).unwrap();
    assert_eq!(ll.command, "ls");
    // the later binding of a key wins
    assert_eq!(st.env.get(&String::from("HOME")), Some(String::from("/home/v")));
    assert_eq!(st.own_pid, 42);
    assert!(st.current_command.is_none());
    assert!(st.running_pid.is_none());
}

#[test]
fn load_state_rejects_a_bad_alias_line() {
    let lines = vec![String::from("ll ls -la")];
    let err = load_state(&lines, &vec![], String::new(), 1).unwrap_err();
    assert_eq!(err, ShellError::Syntax);
}

#[test]
fn alias_display_round_trips_through_the_alias_grammar() {
    let a = Alias {
        alias: String::from("ll"),
        command: String::from("ls"),
        args: vec![
            Arg::String { arg_string: String::from("-la") },
            Arg::Env { var_name: String::from("D") },
        ],
    };
    let shown = a.display();
    assert_eq!(shown, "ll -> ls -la $D");
    let reparsed = psh::parser::parse_alias(&shown).unwrap();
    assert_eq!(reparsed.alias, "ll");
    assert_eq!(reparsed.command, "ls");
    assert_eq!(reparsed.args.len(), 2);
}

#[test]
fn path_prompt_shortens_paths_under_home() {
    let home = String::from("/home/u");
    assert_eq!(
        path_prompt(&String::from("/home/u/src"), &home),
        "~/\u{1b}[33msrc\u{1b}[39m"
    );
    assert_eq!(path_prompt(&String::from("/home/u"), &home), "~/\u{1b}[33m\u{1b}[39m");
}

#[test]
fn path_prompt_colors_other_paths_blue() {
    let home = String::from("/home/u");
    assert_eq!(path_prompt(&String::from("/etc"), &home), "\u{1b}[94m/etc\u{1b}[39m");
    // a sibling that merely shares the prefix string is not under home
    assert_eq!(
        path_prompt(&String::from("/home/ux"), &home),
        "\u{1b}[94m/home/ux\u{1b}[39m"
    );
}

#[test]
fn status_marker_shows_the_failing_code_on_red() {
    assert_eq!(status_marker(true, 0), "");
    assert_eq!(
        status_marker(false, 1),
        "\u{1b}[37;41m1\u{1b}[0m>"
    );
}

#[test]
fn rc_errors_name_the_line() {
    assert_eq!(
        rc_line_error(3, &String::from("Syntax error")),
        "Error on line 3 of rc file: Syntax error"
    );
}

#[test]
fn error_messages_name_the_failure() {
    assert_eq!(ShellError::Syntax.message(), "Syntax error");
    assert_eq!(
        ShellError::UnsetVariable { name: String::from("X") }.message(),
        "Unset variable: X"
    );
    assert_eq!(ShellError::SubcommandFailed.message(), "Error running subcommand");
    assert_eq!(
        ShellError::Spawn { message: String::from("denied") }.message(),
        "Error spawning process: denied"
    );
}

#[test]
fn builtins_are_a_closed_set() {
    assert_eq!(classify_builtin(&String::from("cd")), Some(Builtin::Cd));
    assert_eq!(classify_builtin(&String::from("set")), Some(Builtin::SetVar));
    assert_eq!(classify_builtin(&String::from("alias")), Some(Builtin::Alias));
    assert_eq!(classify_builtin(&String::from("exit")), Some(Builtin::Exit));
    assert_eq!(classify_builtin(&String::from("copyenv")), Some(Builtin::Copyenv));
    assert_eq!(classify_builtin(&String::from("diffenv")), Some(Builtin::Diffenv));
    assert_eq!(classify_builtin(&String::from("pshl")), Some(Builtin::Pshl));
    assert_eq!(classify_builtin(&String::from("ls")), None);
}
