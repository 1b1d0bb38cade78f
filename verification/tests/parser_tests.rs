use psh::command::{Arg, Command};
use psh::errors::ShellError;
use psh::parser::{parse_alias, parse_pest};

fn simple(cmd: &Command) -> (&str, &Vec<Arg>) {
    match cmd {
        Command::Simple { command, args } => (command.as_str(), args),
        other => panic!("expected a simple command, got {:?}", other),
    }
}

fn single_stage(cmd: &Command) -> &Command {
    match cmd {
        Command::Pipeline { steps, redirect } => {
            assert!(redirect.is_none());
            assert_eq!(steps.len(), 1);
            &steps[0]
        },
        other => panic!("expected a pipeline, got {:?}", other),
    }
}

#[test]
fn parses_simple_invocation() {
    let cmd = parse_pest("echo hi").unwrap();
    let (name, args) = simple(single_stage(&cmd));
    assert_eq!(name, "echo");
    assert_eq!(args.len(), 1);
    assert!(matches!(&args[0], Arg::String { arg_string } if arg_string == "hi"));
}

#[test]
fn parses_quoted_literal() {
    let cmd = parse_pest("say \"hello world\"").unwrap();
    let (_, args) = simple(single_stage(&cmd));
    assert!(matches!(&args[0], Arg::String { arg_string } if arg_string == "hello world"));
}

#[test]
fn parses_variable_reference() {
    let cmd = parse_pest("echo $HOME").unwrap();
    let (_, args) = simple(single_stage(&cmd));
    assert!(matches!(&args[0], Arg::Env { var_name } if var_name == "HOME"));
}

#[test]
fn parses_subcommand_argument() {
    let cmd = parse_pest("echo $(ls -l)").unwrap();
    let (_, args) = simple(single_stage(&cmd));
    match &args[0] {
        Arg::Subcommand { command } => {
            let (name, inner_args) = simple(single_stage(command));
            assert_eq!(name, "ls");
            assert_eq!(inner_args.len(), 1);
        },
        other => panic!("expected a subcommand, got {:?}", other),
    }
}

#[test]
fn parses_quoted_subcommand_argument() {
    let cmd = parse_pest("set X \"$(echo hi)\"").unwrap();
    let (name, args) = simple(single_stage(&cmd));
    assert_eq!(name, "set");
    assert_eq!(args.len(), 2);
    assert!(matches!(&args[1], Arg::Subcommand { .. }));
}

#[test]
fn parses_pipeline_with_redirect() {
    let cmd = parse_pest("ls | grep x > out.txt").unwrap();
    match &cmd {
        Command::Pipeline { steps, redirect } => {
            assert_eq!(steps.len(), 2);
            assert_eq!(redirect.as_deref(), Some("out.txt"));
            assert_eq!(simple(&steps[0]).0, "ls");
            assert_eq!(simple(&steps[1]).0, "grep");
        },
        other => panic!("expected a pipeline, got {:?}", other),
    }
}

#[test]
fn mixed_chain_groups_to_the_right() {
    // `cmd1 && cmd2 || cmd3` parses as And(cmd1, Or(cmd2, cmd3)),
    // never as Or(And(cmd1, cmd2), cmd3)
    let cmd = parse_pest("cmd1 && cmd2 || cmd3").unwrap();
    match &cmd {
        Command::And { left, right } => {
            assert_eq!(simple(single_stage(left)).0, "cmd1");
            match right.as_ref() {
                Command::Or { left, right } => {
                    assert_eq!(simple(single_stage(left)).0, "cmd2");
                    assert_eq!(simple(single_stage(right)).0, "cmd3");
                },
                other => panic!("expected Or on the right, got {:?}", other),
            }
        },
        other => panic!("expected And at the top, got {:?}", other),
    }
}

#[test]
fn long_chain_is_right_associative() {
    let cmd = parse_pest("a || b && c || d").unwrap();
    match &cmd {
        Command::Or { left, right } => {
            assert_eq!(simple(single_stage(left)).0, "a");
            match right.as_ref() {
                Command::And { left, right } => {
                    assert_eq!(simple(single_stage(left)).0, "b");
                    assert!(matches!(right.as_ref(), Command::Or { .. }));
                },
                other => panic!("expected And next, got {:?}", other),
            }
        },
        other => panic!("expected Or at the top, got {:?}", other),
    }
}

#[test]
fn trailing_garbage_is_a_syntax_error() {
    assert_eq!(parse_pest("echo hi )").unwrap_err(), ShellError::Syntax);
    assert_eq!(parse_pest("echo hi (x").unwrap_err(), ShellError::Syntax);
    assert_eq!(parse_pest("a | b ) c").unwrap_err(), ShellError::Syntax);
}

#[test]
fn trailing_whitespace_is_consumed() {
    assert!(parse_pest("echo hi   ").is_ok());
}

#[test]
fn unterminated_quote_is_a_syntax_error() {
    assert_eq!(parse_pest("echo \"abc").unwrap_err(), ShellError::Syntax);
}

#[test]
fn empty_and_blank_lines_are_syntax_errors() {
    assert_eq!(parse_pest("").unwrap_err(), ShellError::Syntax);
    assert_eq!(parse_pest("   ").unwrap_err(), ShellError::Syntax);
}

#[test]
fn missing_operand_is_a_syntax_error() {
    assert_eq!(parse_pest("a && ").unwrap_err(), ShellError::Syntax);
    assert_eq!(parse_pest("| b").unwrap_err(), ShellError::Syntax);
    assert_eq!(parse_pest("a | ").unwrap_err(), ShellError::Syntax);
}

#[test]
fn missing_redirect_target_is_a_syntax_error() {
    assert_eq!(parse_pest("ls > ").unwrap_err(), ShellError::Syntax);
}

#[test]
fn empty_variable_name_is_a_syntax_error() {
    assert_eq!(parse_pest("echo $ x").unwrap_err(), ShellError::Syntax);
}

#[test]
fn parses_alias_definition_line() {
    let alias = parse_alias("ll -> ls -la").unwrap();
    assert_eq!(alias.alias, "ll");
    assert_eq!(alias.command, "ls");
    assert_eq!(alias.args.len(), 1);
    assert!(matches!(&alias.args[0], Arg::String { arg_string } if arg_string == "-la"));
}

#[test]
fn alias_line_without_arrow_is_rejected() {
    assert_eq!(parse_alias("ll ls -la").unwrap_err(), ShellError::Syntax);
    assert_eq!(parse_alias("").unwrap_err(), ShellError::Syntax);
}

#[test]
fn alias_line_with_trailing_garbage_is_rejected() {
    assert_eq!(parse_alias("ll -> ls -la )").unwrap_err(), ShellError::Syntax);
}

#[test]
fn rendering_reproduces_the_line() {
    let cmd = parse_pest("a -x | b > f && c $V || d \"q w\"").unwrap();
    assert_eq!(cmd.render(), "a -x | b > f && c $V || d q w");
    let cmd2 = parse_pest("echo $(ls -l)").unwrap();
    assert_eq!(cmd2.render(), "echo $(ls -l)");
}

#[test]
fn parses_nested_subcommands() {
    let cmd = parse_pest("echo $(echo $(a))").unwrap();
    let (_, args) = simple(single_stage(&cmd));
    match &args[0] {
        Arg::Subcommand { command } => {
            let (_, inner) = simple(single_stage(command));
            assert!(matches!(&inner[0], Arg::Subcommand { .. }));
        },
        other => panic!("expected a subcommand, got {:?}", other),
    }
}

#[test]
fn parses_a_pipeline_inside_a_subcommand() {
    let cmd = parse_pest("echo $(a | b)").unwrap();
    let (_, args) = simple(single_stage(&cmd));
    match &args[0] {
        Arg::Subcommand { command } => match command {
            Command::Pipeline { steps, .. } => assert_eq!(steps.len(), 2),
            other => panic!("expected a pipeline, got {:?}", other),
        },
        other => panic!("expected a subcommand, got {:?}", other),
    }
}

#[test]
fn operators_need_no_surrounding_spaces() {
    let piped = parse_pest("a|b").unwrap();
    match &piped {
        Command::Pipeline { steps, .. } => assert_eq!(steps.len(), 2),
        other => panic!("expected a pipeline, got {:?}", other),
    }
    assert!(matches!(parse_pest("a&&b").unwrap(), Command::And { .. }));
    assert!(matches!(parse_pest("a||b").unwrap(), Command::Or { .. }));
    match parse_pest("a>f").unwrap() {
        Command::Pipeline { redirect, .. } => assert_eq!(redirect.as_deref(), Some("f")),
        other => panic!("expected a pipeline, got {:?}", other),
    }
}
