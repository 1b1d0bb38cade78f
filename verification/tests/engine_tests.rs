use psh::command::{Arg, Command, CommandResult};
use psh::engine::{Action, Event, RunStep, StdinMode, StdoutMode};
use psh::errors::ShellError;
use psh::parser::parse_pest;
use psh::state::{Alias, AliasTable, EnvTable, EnvVar, State};

fn fresh_state() -> State {
    State {
        aliases: AliasTable::new(),
        env: EnvTable::new(),
        history_path: String::from("/home/u/.psh_history"),
        current_command: None,
        running_pid: None,
        own_pid: 42,
    }
}

/// Drives one command to completion: replays the growing event log against
/// a fresh copy of the pristine state, performs no real actions, and
/// answers each requested action with the next scripted event.
fn drive(
    cmd: &Command,
    pristine: &State,
    answers: Vec<Event>,
) -> (Vec<Action>, Result<CommandResult, ShellError>, State) {
    let mut log: Vec<Event> = Vec::new();
    let mut actions: Vec<Action> = Vec::new();
    let mut answers = answers.into_iter();
    loop {
        let mut st = pristine.clone();
        let mut pos: usize = 0;
        match cmd.run(StdinMode::Inherit, StdoutMode::Inherit, &mut st, &log, &mut pos) {
            RunStep::Need { action } => {
                actions.push(action);
                let ev = answers.next().expect("the scripted events ran out");
                log.push(ev);
            },
            RunStep::Done { result } => {
                assert!(answers.next().is_none(), "scripted events were left over");
                return (actions, result, st);
            },
        }
    }
}

#[test]
fn spawns_a_simple_command() {
    let cmd = parse_pest("echo hi").unwrap();
    let (actions, result, st) = drive(&cmd, &fresh_state(), vec![Event::SpawnOk { pid: 7 }]);
    assert_eq!(
        actions,
        vec![Action::Spawn {
            command: String::from("echo"),
            args: vec![String::from("hi")],
            stdin: StdinMode::Inherit,
            stdout: StdoutMode::Inherit,
        }]
    );
    assert_eq!(result.unwrap().output, Some(7));
    assert_eq!(st.current_command, Some(String::from("echo")));
    assert_eq!(st.running_pid, Some(7));
}

#[test]
fn and_left_failure_skips_right() {
    // `false && true`: left fails, right never spawns; the overall result
    // is left's
    let cmd = parse_pest("false && true").unwrap();
    let (actions, result, _) = drive(
        &cmd,
        &fresh_state(),
        vec![Event::SpawnOk { pid: 1 }, Event::WaitDone { success: false }],
    );
    assert_eq!(actions.len(), 2);
    assert!(matches!(&actions[0], Action::Spawn { command, .. } if command == "false"));
    assert_eq!(actions[1], Action::Wait { handle: 1 });
    assert_eq!(result.unwrap().output, Some(1));
}

#[test]
fn or_left_success_skips_right() {
    // `true || echo should-not-print`: right never spawns
    let cmd = parse_pest("true || echo should-not-print").unwrap();
    let (actions, result, _) = drive(
        &cmd,
        &fresh_state(),
        vec![Event::SpawnOk { pid: 2 }, Event::WaitDone { success: true }],
    );
    assert_eq!(actions.len(), 2);
    assert!(matches!(&actions[0], Action::Spawn { command, .. } if command == "true"));
    assert_eq!(actions[1], Action::Wait { handle: 2 });
    assert_eq!(result.unwrap().output, Some(2));
}

#[test]
fn and_left_success_runs_right() {
    let cmd = parse_pest("a && b").unwrap();
    let (actions, result, _) = drive(
        &cmd,
        &fresh_state(),
        vec![
            Event::SpawnOk { pid: 1 },
            Event::WaitDone { success: true },
            Event::SpawnOk { pid: 2 },
        ],
    );
    assert_eq!(actions.len(), 3);
    assert!(
        matches!(&actions[2], Action::Spawn { command, stdin, .. }
            if command == "b" && *stdin == StdinMode::Null)
    );
    assert_eq!(result.unwrap().output, Some(2));
}

#[test]
fn pipeline_hands_the_pipe_to_the_next_stage() {
    // `echo a | cat`: the consuming stage's stdin is exactly the producing
    // stage's output pipe
    let cmd = parse_pest("echo a | cat").unwrap();
    let (actions, result, _) = drive(
        &cmd,
        &fresh_state(),
        vec![Event::SpawnOk { pid: 5 }, Event::SpawnOk { pid: 6 }],
    );
    assert_eq!(actions.len(), 2);
    assert!(
        matches!(&actions[0], Action::Spawn { command, stdout, .. }
            if command == "echo" && *stdout == StdoutMode::Piped)
    );
    assert!(
        matches!(&actions[1], Action::Spawn { command, stdin, stdout, .. }
            if command == "cat"
                && *stdin == StdinMode::FromHandle { handle: 5 }
                && *stdout == StdoutMode::Inherit)
    );
    assert_eq!(result.unwrap().output, Some(6));
}

#[test]
fn pipeline_redirect_goes_to_the_final_stage() {
    let cmd = parse_pest("ls | sort > out.txt").unwrap();
    let (actions, _, _) = drive(
        &cmd,
        &fresh_state(),
        vec![Event::SpawnOk { pid: 1 }, Event::SpawnOk { pid: 2 }],
    );
    assert!(
        matches!(&actions[1], Action::Spawn { stdout, .. }
            if *stdout == StdoutMode::ToFile { path: String::from("out.txt") })
    );
}

#[test]
fn set_stores_the_captured_output_trimmed() {
    // `set X "$(echo hi)"` sets X to `hi`: trimmed, no trailing newline
    let cmd = parse_pest("set X \"$(echo hi)\"").unwrap();
    let (actions, result, st) = drive(
        &cmd,
        &fresh_state(),
        vec![
            Event::SpawnOk { pid: 3 },
            Event::CaptureDone { success: true, text: String::from("hi\n") },
            Event::Done,
        ],
    );
    assert!(
        matches!(&actions[0], Action::Spawn { command, stdin, stdout, .. }
            if command == "echo" && *stdin == StdinMode::Null && *stdout == StdoutMode::Piped)
    );
    assert_eq!(actions[1], Action::WaitCapture { handle: 3 });
    assert_eq!(
        actions[2],
        Action::ExportVar { key: String::from("X"), value: String::from("hi") }
    );
    assert_eq!(result.unwrap().output, None);
    assert_eq!(st.env.get(&String::from("X")), Some(String::from("hi")));
}

#[test]
fn failing_subcommand_aborts_before_any_spawn() {
    // `echo $(false)` fails the whole invocation with SubcommandFailed and
    // does not spawn `echo`
    let cmd = parse_pest("echo $(false)").unwrap();
    let (actions, result, _) = drive(
        &cmd,
        &fresh_state(),
        vec![
            Event::SpawnOk { pid: 4 },
            Event::CaptureDone { success: false, text: String::new() },
        ],
    );
    assert_eq!(actions.len(), 2);
    assert!(matches!(&actions[0], Action::Spawn { command, .. } if command == "false"));
    assert_eq!(actions[1], Action::WaitCapture { handle: 4 });
    assert_eq!(result.unwrap_err(), ShellError::SubcommandFailed);
}

#[test]
fn alias_substitution_applies_exactly_once() {
    // with `foo` aliased to `bar` and `bar` aliased to `baz`, invoking
    // `foo` runs `bar`, never `baz`
    let mut st = fresh_state();
    st.aliases.insert(Alias {
        alias: String::from("foo"),
        command: String::from("bar"),
        args: vec![],
    });
    st.aliases.insert(Alias {
        alias: String::from("bar"),
        command: String::from("baz"),
        args: vec![],
    });
    let cmd = parse_pest("foo").unwrap();
    let (actions, _, _) = drive(&cmd, &st, vec![Event::SpawnOk { pid: 9 }]);
    assert!(matches!(&actions[0], Action::Spawn { command, .. } if command == "bar"));
}

#[test]
fn alias_prepends_its_arguments() {
    let mut st = fresh_state();
    st.aliases.insert(Alias {
        alias: String::from("ll"),
        command: String::from("ls"),
        args: vec![Arg::String { arg_string: String::from("-la") }],
    });
    let cmd = parse_pest("ll /tmp").unwrap();
    let (actions, _, _) = drive(&cmd, &st, vec![Event::SpawnOk { pid: 9 }]);
    assert_eq!(
        actions[0],
        Action::Spawn {
            command: String::from("ls"),
            args: vec![String::from("-la"), String::from("/tmp")],
            stdin: StdinMode::Inherit,
            stdout: StdoutMode::Inherit,
        }
    );
}

#[test]
fn alias_builtin_defines_and_overwrites() {
    let cmd = parse_pest("alias gs git status").unwrap();
    let (actions, result, st) = drive(&cmd, &fresh_state(), vec![]);
    assert!(actions.is_empty());
    assert_eq!(result.unwrap().output, None);
    let a = st.aliases.lookup(&String::from("gs")).expect("alias should be defined");
    assert_eq!(a.command, "git");
    assert_eq!(a.args.len(), 1);

    let cmd2 = parse_pest("alias gs hub sync").unwrap();
    let (_, _, st2) = drive(&cmd2, &st, vec![]);
    let a2 = st2.aliases.lookup(&String::from("gs")).unwrap();
    assert_eq!(a2.command, "hub");
    assert_eq!(st2.aliases.len(), 1);
}

#[test]
fn alias_builtin_lists_definitions() {
    let mut st = fresh_state();
    st.aliases.insert(Alias {
        alias: String::from("gs"),
        command: String::from("git"),
        args: vec![Arg::String { arg_string: String::from("status") }],
    });
    let cmd = parse_pest("alias").unwrap();
    let (actions, result, _) = drive(&cmd, &st, vec![Event::Done]);
    assert_eq!(actions, vec![Action::Print { text: String::from("gs -> git status\n") }]);
    assert_eq!(result.unwrap().output, None);
}

#[test]
fn cd_uses_home_then_root_when_no_argument() {
    let mut st = fresh_state();
    st.env.set(String::from("HOME"), String::from("/home/u"));
    let cmd = parse_pest("cd").unwrap();
    let (actions, _, _) = drive(&cmd, &st, vec![Event::Done]);
    assert_eq!(actions, vec![Action::ChangeDir { path: String::from("/home/u") }]);

    let (actions2, _, _) = drive(&cmd, &fresh_state(), vec![Event::Done]);
    assert_eq!(actions2, vec![Action::ChangeDir { path: String::from("/") }]);
}

#[test]
fn cd_substitutes_a_dollar_value() {
    let mut st = fresh_state();
    st.env.set(String::from("X"), String::from("/tmp"));
    // the quoted literal `"$X"` evaluates to the text `$X`, which cd then
    // substitutes
    let cmd = parse_pest("cd \"$X\"").unwrap();
    let (actions, _, _) = drive(&cmd, &st, vec![Event::Done]);
    assert_eq!(actions, vec![Action::ChangeDir { path: String::from("/tmp") }]);
}

#[test]
fn unset_variable_fails_the_invocation() {
    let cmd = parse_pest("echo $NOPE").unwrap();
    let (actions, result, _) = drive(&cmd, &fresh_state(), vec![]);
    assert!(actions.is_empty());
    assert_eq!(result.unwrap_err(), ShellError::UnsetVariable { name: String::from("NOPE") });
}

#[test]
fn set_arity_and_key_shape_are_checked() {
    let (_, r1, _) = drive(&parse_pest("set").unwrap(), &fresh_state(), vec![]);
    assert!(matches!(r1.unwrap_err(), ShellError::BuiltinArg { .. }));
    let (_, r2, _) = drive(&parse_pest("set X").unwrap(), &fresh_state(), vec![]);
    assert!(matches!(r2.unwrap_err(), ShellError::BuiltinArg { .. }));
    let (_, r3, _) = drive(&parse_pest("set $K v").unwrap(), &fresh_state(), vec![]);
    assert!(matches!(r3.unwrap_err(), ShellError::BuiltinArg { .. }));
}

#[test]
fn spawn_rejection_becomes_a_spawn_error() {
    let cmd = parse_pest("nosuch").unwrap();
    let (_, result, _) = drive(
        &cmd,
        &fresh_state(),
        vec![Event::SpawnErr { message: String::from("no such file") }],
    );
    assert_eq!(result.unwrap_err(), ShellError::Spawn { message: String::from("no such file") });
}

#[test]
fn empty_invocation_is_a_successful_no_op() {
    let cmd = Command::Simple { command: String::new(), args: vec![] };
    let mut st = fresh_state();
    let mut pos: usize = 0;
    match cmd.run(StdinMode::Inherit, StdoutMode::Inherit, &mut st, &vec![], &mut pos) {
        RunStep::Done { result } => assert_eq!(result.unwrap().output, None),
        other => panic!("expected completion, got {:?}", other),
    }
}

#[test]
fn empty_pipeline_is_a_successful_no_op() {
    let cmd = Command::Pipeline { steps: vec![], redirect: None };
    let mut st = fresh_state();
    let mut pos: usize = 0;
    match cmd.run(StdinMode::Inherit, StdoutMode::Inherit, &mut st, &vec![], &mut pos) {
        RunStep::Done { result } => assert_eq!(result.unwrap().output, None),
        other => panic!("expected completion, got {:?}", other),
    }
}

#[test]
fn exit_builtin_requests_termination() {
    let cmd = parse_pest("exit").unwrap();
    let mut st = fresh_state();
    let mut pos: usize = 0;
    match cmd.run(StdinMode::Inherit, StdoutMode::Inherit, &mut st, &vec![], &mut pos) {
        RunStep::Need { action } => assert_eq!(action, Action::Exit),
        other => panic!("expected an exit request, got {:?}", other),
    }
}

#[test]
fn self_referential_alias_hits_the_depth_bound() {
    let mut st = fresh_state();
    st.aliases.insert(Alias {
        alias: String::from("x"),
        command: String::from("y"),
        args: vec![Arg::Subcommand {
            command: Command::Pipeline {
                steps: vec![Command::Simple { command: String::from("x"), args: vec![] }],
                redirect: None,
            },
        }],
    });
    let cmd = parse_pest("x").unwrap();
    let (actions, result, _) = drive(&cmd, &st, vec![]);
    assert!(actions.is_empty());
    assert_eq!(result.unwrap_err(), ShellError::Recursion);
}

#[test]
fn copyenv_fetches_and_sets_the_variable() {
    let cmd = parse_pest("copyenv 100 PATH2").unwrap();
    let (actions, result, st) = drive(
        &cmd,
        &fresh_state(),
        vec![
            Event::RemoteEnv {
                ok: true,
                vars: vec![EnvVar { key: String::from("PATH2"), value: String::from("/x") }],
            },
            Event::Done,
        ],
    );
    assert_eq!(actions[0], Action::FetchRemoteEnv { pid: 100 });
    assert_eq!(
        actions[1],
        Action::ExportVar { key: String::from("PATH2"), value: String::from("/x") }
    );
    assert!(result.unwrap().output.is_none());
    assert_eq!(st.env.get(&String::from("PATH2")), Some(String::from("/x")));
}

#[test]
fn copyenv_arity_and_pid_are_checked() {
    let (actions, result, _) = drive(
        &parse_pest("copyenv 1").unwrap(),
        &fresh_state(),
        vec![Event::Done],
    );
    assert!(matches!(&actions[0], Action::PrintErr { .. }));
    assert!(result.unwrap().output.is_none());

    let (_, r2, _) = drive(&parse_pest("copyenv abc X").unwrap(), &fresh_state(), vec![]);
    assert!(matches!(r2.unwrap_err(), ShellError::BuiltinArg { .. }));
}

#[test]
fn copyenv_service_failure_is_reported() {
    let (_, result, _) = drive(
        &parse_pest("copyenv 7 X").unwrap(),
        &fresh_state(),
        vec![Event::RemoteEnv { ok: false, vars: vec![] }],
    );
    assert!(matches!(result.unwrap_err(), ShellError::Service { .. }));
}

#[test]
fn diffenv_prints_the_differences() {
    let mut st = fresh_state();
    st.env.set(String::from("A"), String::from("1"));
    st.env.set(String::from("C"), String::from("3"));
    let cmd = parse_pest("diffenv 9").unwrap();
    let (actions, result, _) = drive(
        &cmd,
        &st,
        vec![
            Event::RemoteEnv {
                ok: true,
                vars: vec![
                    EnvVar { key: String::from("A"), value: String::from("2") },
                    EnvVar { key: String::from("B"), value: String::from("9") },
                    EnvVar { key: String::from("C"), value: String::from("3") },
                ],
            },
            Event::Done,
        ],
    );
    assert_eq!(actions[0], Action::FetchRemoteEnv { pid: 9 });
    assert_eq!(
        actions[1],
        Action::Print {
            text: String::from(" A:\n\tLocal:  1\n\tTheirs: 2\n+B: 9\n"),
        }
    );
    assert!(result.unwrap().output.is_none());
}

#[test]
fn pshl_queries_each_peer_and_skips_itself() {
    let cmd = parse_pest("pshl").unwrap();
    let (actions, result, _) = drive(
        &cmd,
        &fresh_state(),  // own_pid 42
        vec![
            Event::Shells {
                ok: true,
                names: vec![String::from("41"), String::from("42"), String::from("junk")],
            },
            Event::StatusReply {
                ok: true,
                current_command: String::from("vim"),
                working_dir: String::from("/w"),
            },
            Event::Done,
        ],
    );
    assert_eq!(actions[0], Action::ListShells);
    assert_eq!(actions[1], Action::QueryStatus { pid: 41 });
    assert_eq!(actions[2], Action::Print { text: String::from("41: vim (/w)\n") });
    assert!(result.unwrap().output.is_none());
}

#[test]
fn command_result_yields_its_stream_exactly_once() {
    let mut res = CommandResult { output: Some(3), stdout_taken: false };
    assert_eq!(res.stdout(), Some(3));
    assert_eq!(res.stdout(), None);
    let mut none = CommandResult { output: None, stdout_taken: false };
    assert_eq!(none.stdout(), None);
}

#[test]
fn interrupts_are_forwarded_only_while_a_process_runs() {
    // with a recorded running pid the signal goes to that pid; without one
    // it is a no-op
    let handler = psh::sig::SigHandler::new();
    let mut st = fresh_state();
    assert!(handler.on_interrupt(&st).is_none());
    st.running_pid = Some(9);
    assert_eq!(handler.on_interrupt(&st), Some(Action::ForwardSignal { pid: 9 }));
    st.running_pid = None;
    assert!(handler.on_interrupt(&st).is_none());
}

#[test]
fn is_exit_recognizes_only_the_exit_invocation() {
    assert!(psh::builtins::is_exit(&Command::Simple {
        command: String::from("exit"),
        args: vec![],
    }));
    assert!(!psh::builtins::is_exit(&Command::Simple {
        command: String::from("ls"),
        args: vec![],
    }));
    assert!(!psh::builtins::is_exit(&Command::Pipeline { steps: vec![], redirect: None }));
}

#[test]
fn resolve_alias_rewrites_one_level() {
    let mut table = AliasTable::new();
    table.insert(Alias {
        alias: String::from("foo"),
        command: String::from("bar"),
        args: vec![Arg::String { arg_string: String::from("-v") }],
    });
    table.insert(Alias {
        alias: String::from("bar"),
        command: String::from("baz"),
        args: vec![],
    });
    let (name, args) = psh::engine::resolve_alias(
        &table,
        &String::from("foo"),
        &vec![Arg::String { arg_string: String::from("x") }],
    );
    // one substitution level: `bar`, not `baz`
    assert_eq!(name, "bar");
    assert_eq!(args.len(), 2);
    let (name2, args2) = psh::engine::resolve_alias(&table, &String::from("plain"), &vec![]);
    assert_eq!(name2, "plain");
    assert!(args2.is_empty());
}

#[test]
fn builtin_stage_hands_null_input_onward() {
    // a stage that produces no process (here a builtin) hands the next
    // stage a null stdin rather than a pipe
    let cmd = parse_pest("a | set K v | c").unwrap();
    let (actions, result, st) = drive(
        &cmd,
        &fresh_state(),
        vec![Event::SpawnOk { pid: 1 }, Event::Done, Event::SpawnOk { pid: 2 }],
    );
    assert_eq!(actions.len(), 3);
    assert!(
        matches!(&actions[2], Action::Spawn { command, stdin, .. }
            if command == "c" && *stdin == StdinMode::Null)
    );
    assert_eq!(result.unwrap().output, Some(2));
    assert_eq!(st.env.get(&String::from("K")), Some(String::from("v")));
}

#[test]
fn nested_subcommands_capture_inside_out() {
    let cmd = parse_pest("echo $(printf $(inner))").unwrap();
    let (actions, result, _) = drive(
        &cmd,
        &fresh_state(),
        vec![
            Event::SpawnOk { pid: 1 },
            Event::CaptureDone { success: true, text: String::from("deep\n") },
            Event::SpawnOk { pid: 2 },
            Event::CaptureDone { success: true, text: String::from("out") },
            Event::SpawnOk { pid: 3 },
        ],
    );
    assert!(matches!(&actions[0], Action::Spawn { command, .. } if command == "inner"));
    assert!(
        matches!(&actions[2], Action::Spawn { command, args, .. }
            if command == "printf" && args == &vec![String::from("deep")])
    );
    assert!(
        matches!(&actions[4], Action::Spawn { command, args, .. }
            if command == "echo" && args == &vec![String::from("out")])
    );
    assert_eq!(result.unwrap().output, Some(3));
}

#[test]
fn a_mismatched_reply_is_a_protocol_error() {
    // answering a spawn request with a wait outcome is a driver fault the
    // engine reports rather than misreads
    let cmd = parse_pest("echo hi").unwrap();
    let (_, result, _) = drive(&cmd, &fresh_state(), vec![Event::WaitDone { success: true }]);
    assert_eq!(result.unwrap_err(), ShellError::Protocol);
}
