//! The execution engine.
//!
//! The engine walks a [`Command`] tree and decides, step by step, which
//! operating-system actions to perform: process spawns, waits, redirections,
//! directory changes.  It performs none of them itself.  Instead it is
//! *replay-driven*: the embedding program keeps a log of the outcomes of the
//! actions requested so far and calls [`Command::run`] with that log; the
//! engine re-derives its decisions from the log and either returns the next
//! [`Action`] to perform (when the log is exhausted) or the final result of
//! the tree.  Every decision is thereby verified for every possible outcome
//! of the outside world, and the driving loop in the embedding program stays
//! free of logic.
//!
//! The protocol: when `run` returns [`RunStep::Need`], the driver performs
//! the action, appends the resulting [`Event`] to the log, and calls `run`
//! again on a fresh copy of the pre-run state; when it returns
//! [`RunStep::Done`], the run is over and the state the engine left behind
//! is the state after the whole tree.  Actions that carry no outcome
//! (printing, exporting a variable, changing directory) are acknowledged
//! with [`Event::Done`].

use vstd::prelude::*;

use crate::command::{
    size_arg, size_args, size_command, size_commands, view_args, view_commands, view_opt_string,
    Arg, ArgV, Command, CommandResult, CommandV,
};
use crate::errors::{ShellError, ShellErrorV};
use crate::parser::{is_space, sp_skip_ws};
use crate::state::{
    sp_alias_insert, sp_display_alias, sp_env_set, spec_lookup_alias, spec_lookup_env, Alias,
    AliasTable, AliasV, EnvTable, EnvVar, State, StateV,
};

verus! {

/// How many levels of alias expansion one run may pass through.  An alias
/// whose prepended arguments re-invoke an aliased name could otherwise make
/// evaluation re-enter itself forever; when the bound is exhausted the run
/// fails with [`ShellError::Recursion`] instead.
pub const ALIAS_DEPTH_LIMIT: u32 = 64;

/// Where a spawned process's standard input comes from.
#[derive(Clone, Copy, Debug, PartialEq, Eq, Structural)]
pub enum StdinMode {
    /// The shell's own standard input.
    Inherit,
    /// No input.
    Null,
    /// The standard output of the process with this handle: the read end of
    /// its pipe.
    FromHandle { handle: u32 },
}

/// Where a spawned process's standard output goes.
#[derive(Clone, Debug, PartialEq)]
pub enum StdoutMode {
    /// The shell's own standard output.
    Inherit,
    /// A fresh pipe, so the output can be read back.
    Piped,
    /// A file of this name, created or truncated.
    ToFile { path: String },
}

/// The mathematical shape of a [`StdoutMode`].
pub enum StdoutModeV {
    Inherit,
    Piped,
    ToFile { path: Seq<char> },
}

impl View for StdoutMode {
    type V = StdoutModeV;

    open spec fn view(&self) -> StdoutModeV {
        match self {
            StdoutMode::Inherit => StdoutModeV::Inherit,
            StdoutMode::Piped => StdoutModeV::Piped,
            StdoutMode::ToFile { path } => StdoutModeV::ToFile { path: path@ },
        }
    }
}

/// One operating-system action the engine asks the driver to perform.
#[derive(Debug, PartialEq)]
pub enum Action {
    /// Spawn a process.  The driver answers with [`Event::SpawnOk`] holding
    /// the new process's id, or [`Event::SpawnErr`].
    Spawn { command: String, args: Vec<String>, stdin: StdinMode, stdout: StdoutMode },
    /// Wait for the process with this handle to exit.  Answered with
    /// [`Event::WaitDone`].
    Wait { handle: u32 },
    /// Wait for the process with this handle and collect its standard
    /// output.  Answered with [`Event::CaptureDone`].
    WaitCapture { handle: u32 },
    /// Change the shell process's working directory; a failure is printed by
    /// the driver and is not fatal.  Acknowledged with [`Event::Done`].
    ChangeDir { path: String },
    /// Mirror a variable assignment into the real process environment.
    /// Acknowledged with [`Event::Done`].
    ExportVar { key: String, value: String },
    /// Write text to standard output.  Acknowledged with [`Event::Done`].
    Print { text: String },
    /// Write text to standard error.  Acknowledged with [`Event::Done`].
    PrintErr { text: String },
    /// Ask the shell instance with this process id for its environment.
    /// Answered with [`Event::RemoteEnv`].
    FetchRemoteEnv { pid: u32 },
    /// List the names in the well-known runtime directory of per-process
    /// sockets.  Answered with [`Event::Shells`].
    ListShells,
    /// Ask the shell instance with this process id for its status.
    /// Answered with [`Event::StatusReply`].
    QueryStatus { pid: u32 },
    /// Forward the interrupt signal to the process with this id.
    ForwardSignal { pid: u32 },
    /// Terminate the shell process with status 0.  Never answered.
    Exit,
}

/// The mathematical shape of an [`Action`].
pub enum ActionV {
    Spawn { command: Seq<char>, args: Seq<Seq<char>>, stdin: StdinMode, stdout: StdoutModeV },
    Wait { handle: u32 },
    WaitCapture { handle: u32 },
    ChangeDir { path: Seq<char> },
    ExportVar { key: Seq<char>, value: Seq<char> },
    Print { text: Seq<char> },
    PrintErr { text: Seq<char> },
    FetchRemoteEnv { pid: u32 },
    ListShells,
    QueryStatus { pid: u32 },
    ForwardSignal { pid: u32 },
    Exit,
}

/// The views of a list of strings.
pub open spec fn view_strings(v: Seq<String>) -> Seq<Seq<char>> {
    Seq::new(v.len(), |i: int| v[i]@)
}

/// The views of a list of environment bindings.
pub open spec fn view_env_vars(v: Seq<EnvVar>) -> Seq<(Seq<char>, Seq<char>)> {
    Seq::new(v.len(), |i: int| v[i]@)
}

impl View for Action {
    type V = ActionV;

    open spec fn view(&self) -> ActionV {
        match self {
            Action::Spawn { command, args, stdin, stdout } => ActionV::Spawn {
                command: command@,
                args: view_strings(args@),
                stdin: *stdin,
                stdout: stdout@,
            },
            Action::Wait { handle } => ActionV::Wait { handle: *handle },
            Action::WaitCapture { handle } => ActionV::WaitCapture { handle: *handle },
            Action::ChangeDir { path } => ActionV::ChangeDir { path: path@ },
            Action::ExportVar { key, value } => ActionV::ExportVar { key: key@, value: value@ },
            Action::Print { text } => ActionV::Print { text: text@ },
            Action::PrintErr { text } => ActionV::PrintErr { text: text@ },
            Action::FetchRemoteEnv { pid } => ActionV::FetchRemoteEnv { pid: *pid },
            Action::ListShells => ActionV::ListShells,
            Action::QueryStatus { pid } => ActionV::QueryStatus { pid: *pid },
            Action::ForwardSignal { pid } => ActionV::ForwardSignal { pid: *pid },
            Action::Exit => ActionV::Exit,
        }
    }
}

/// The outcome of one action, as the driver reports it back.
#[derive(Debug, PartialEq)]
pub enum Event {
    /// A spawn succeeded; `pid` is the new process's id and handle.
    SpawnOk { pid: u32 },
    /// The operating system rejected a spawn.
    SpawnErr { message: String },
    /// A waited process exited; `success` says whether its status was zero.
    WaitDone { success: bool },
    /// A captured process exited; `text` is its standard output, decoded.
    CaptureDone { success: bool, text: String },
    /// A remote shell's environment, or `ok == false` if it could not be
    /// queried.
    RemoteEnv { ok: bool, vars: Vec<EnvVar> },
    /// The names found in the runtime directory, or `ok == false` if it
    /// could not be read.
    Shells { ok: bool, names: Vec<String> },
    /// A remote shell's status; `ok == false` stands for any failure and the
    /// entry is skipped.
    StatusReply { ok: bool, current_command: String, working_dir: String },
    /// A plain acknowledgement.
    Done,
}

/// The mathematical shape of an [`Event`].
pub enum EventV {
    SpawnOk { pid: u32 },
    SpawnErr { message: Seq<char> },
    WaitDone { success: bool },
    CaptureDone { success: bool, text: Seq<char> },
    RemoteEnv { ok: bool, vars: Seq<(Seq<char>, Seq<char>)> },
    Shells { ok: bool, names: Seq<Seq<char>> },
    StatusReply { ok: bool, current_command: Seq<char>, working_dir: Seq<char> },
    Done,
}

impl View for Event {
    type V = EventV;

    open spec fn view(&self) -> EventV {
        match self {
            Event::SpawnOk { pid } => EventV::SpawnOk { pid: *pid },
            Event::SpawnErr { message } => EventV::SpawnErr { message: message@ },
            Event::WaitDone { success } => EventV::WaitDone { success: *success },
            Event::CaptureDone { success, text } => EventV::CaptureDone {
                success: *success,
                text: text@,
            },
            Event::RemoteEnv { ok, vars } => EventV::RemoteEnv {
                ok: *ok,
                vars: view_env_vars(vars@),
            },
            Event::Shells { ok, names } => EventV::Shells { ok: *ok, names: view_strings(names@) },
            Event::StatusReply { ok, current_command, working_dir } => EventV::StatusReply {
                ok: *ok,
                current_command: current_command@,
                working_dir: working_dir@,
            },
            Event::Done => EventV::Done,
        }
    }
}

/// The views of an event log.
pub open spec fn view_events(log: Seq<Event>) -> Seq<EventV> {
    Seq::new(log.len(), |i: int| log[i]@)
}

/// What one call of [`Command::run`] comes back with: either the next action
/// the driver must perform, or the final result of the tree.
#[derive(Debug, PartialEq)]
pub enum RunStep {
    Need { action: Action },
    Done { result: Result<CommandResult, ShellError> },
}

/// The mathematical shape of a [`RunStep`].
pub enum RunStepV {
    Need { action: ActionV },
    Done { result: Result<CommandResult, ShellErrorV> },
}

impl View for RunStep {
    type V = RunStepV;

    open spec fn view(&self) -> RunStepV {
        match self {
            RunStep::Need { action } => RunStepV::Need { action: action@ },
            RunStep::Done { result } => RunStepV::Done {
                result: match result {
                    Result::Ok(res) => Result::Ok(*res),
                    Result::Err(e) => Result::Err(e@),
                },
            },
        }
    }
}

/// A run result that holds no process.
pub open spec fn sp_no_process() -> CommandResult {
    CommandResult { output: Option::None, stdout_taken: false }
}

/// Builds the no-process result.
pub fn no_process() -> (r: CommandResult)
    ensures
        r == sp_no_process(),
{
    CommandResult { output: Option::None, stdout_taken: false }
}

/// The index before which the trailing whitespace of `s[..e]` begins.
pub open spec fn sp_trim_end_idx(s: Seq<char>, e: int) -> int
    decreases e when 0 <= e <= s.len()
{
    if e > 0 && is_space(s[e - 1]) {
        sp_trim_end_idx(s, e - 1)
    } else {
        e
    }
}

/// `s` with its trailing whitespace removed; leading whitespace stays.
pub open spec fn sp_trim_end(s: Seq<char>) -> Seq<char> {
    s.subrange(0, sp_trim_end_idx(s, s.len() as int))
}

/// `s` with whitespace removed at both ends.
pub open spec fn sp_trim(s: Seq<char>) -> Seq<char> {
    let st = sp_skip_ws(s, 0);
    let e = sp_trim_end_idx(s, s.len() as int);
    if 0 <= st <= e <= s.len() {
        s.subrange(st, e)
    } else {
        Seq::empty()
    }
}

/// Removes trailing whitespace, as captured subcommand output asks for.
pub fn trim_end(s: &String) -> (r: String)
    ensures
        r@ == sp_trim_end(s@),
{
    let sl = s.as_str();
    let n = sl.unicode_len();
    let mut e = n;
    while e > 0 && crate::parser::is_space_e(sl.get_char(e - 1))
        invariant
            sl@ == s@,
            n == s@.len(),
            0 <= e <= n,
            sp_trim_end_idx(s@, n as int) == sp_trim_end_idx(s@, e as int),
        decreases e,
    {
        e -= 1;
    }
    String::from_str(sl.substring_char(0, e))
}

/// Removes whitespace at both ends, as the `set` builtin asks for.
pub fn trim(s: &String) -> (r: String)
    ensures
        r@ == sp_trim(s@),
{
    let sl = s.as_str();
    let n = sl.unicode_len();
    let mut e = n;
    while e > 0 && crate::parser::is_space_e(sl.get_char(e - 1))
        invariant
            sl@ == s@,
            n == s@.len(),
            0 <= e <= n,
            sp_trim_end_idx(s@, n as int) == sp_trim_end_idx(s@, e as int),
        decreases e,
    {
        e -= 1;
    }
    let st = crate::parser::skip_ws_e(sl, n, 0);
    if st <= e {
        String::from_str(sl.substring_char(st, e))
    } else {
        String::new()
    }
}

/// The numeric value of a digit string, most significant digit first.
pub open spec fn sp_digits_val(s: Seq<char>) -> nat
    decreases s.len(),
{
    if s.len() == 0 {
        0
    } else {
        (sp_digits_val(s.subrange(0, s.len() - 1)) * 10 + (s[s.len() - 1] as int - '0' as int)) as nat
    }
}

/// Whether every character of `s` is a decimal digit.
pub open spec fn sp_all_digits(s: Seq<char>) -> bool {
    forall|i: int| 0 <= i < s.len() ==> '0' <= #[trigger] s[i] && s[i] <= '9'
}

/// What a string parses to as a `u32`: digits only, no sign, value in
/// range.
pub open spec fn sp_parse_u32(s: Seq<char>) -> Option<u32> {
    if s.len() > 0 && sp_all_digits(s) && sp_digits_val(s) <= u32::MAX {
        Option::Some(sp_digits_val(s) as u32)
    } else {
        Option::None
    }
}

/// Of a digit string, a longer prefix never has a smaller value.
proof fn lemma_digits_val_monotone(s: Seq<char>, i: int, j: int)
    requires
        0 <= i <= j <= s.len(),
        forall|k: int| i <= k < j ==> '0' <= #[trigger] s[k] && s[k] <= '9',
    ensures
        sp_digits_val(s.subrange(0, i)) <= sp_digits_val(s.subrange(0, j)),
    decreases j - i,
{
    if i < j {
        lemma_digits_val_monotone(s, i, j - 1);
        assert(s.subrange(0, j).subrange(0, j - 1) =~= s.subrange(0, j - 1));
        let prev = sp_digits_val(s.subrange(0, j - 1));
        let d = s[j - 1] as int - '0' as int;
        assert(s.subrange(0, j)[j - 1] == s[j - 1]);
        assert(sp_digits_val(s.subrange(0, j)) == (prev * 10 + d) as nat);
        assert(0 <= d <= 9);
        assert(prev <= prev * 10 + d);
    }
}

/// Parses a decimal `u32`, exactly as [`sp_parse_u32`] describes.
pub fn parse_u32(s: &String) -> (r: Option<u32>)
    ensures
        r == sp_parse_u32(s@),
{
    let sl = s.as_str();
    let n = sl.unicode_len();
    if n == 0 {
        return Option::None;
    }
    let mut val: u64 = 0;
    let mut i: usize = 0;
    while i < n
        invariant
            sl@ == s@,
            n == s@.len(),
            0 <= i <= n,
            val <= u32::MAX,
            forall|k: int| 0 <= k < i ==> '0' <= #[trigger] s@[k] && s@[k] <= '9',
            val == sp_digits_val(s@.subrange(0, i as int)),
        decreases n - i,
    {
        let c = sl.get_char(i);
        if !('0' <= c && c <= '9') {
            return Option::None;
        }
        let d = (c as u64) - ('0' as u64);
        proof {
            assert(s@.subrange(0, i as int) =~= s@.subrange(0, (i + 1) as int).subrange(
                0,
                i as int,
            ));
        }
        val = val * 10 + d;
        i += 1;
        if val > (u32::MAX as u64) {
            // the value of the whole string can only be larger still
            proof {
                if sp_all_digits(s@) {
                    lemma_digits_val_monotone(s@, i as int, n as int);
                    assert(s@.subrange(0, n as int) =~= s@);
                }
            }
            return Option::None;
        }
    }
    proof {
        assert(s@.subrange(0, n as int) =~= s@);
    }
    Option::Some(val as u32)
}

/// `$NAME` substitution on an already evaluated string, as `cd` applies it:
/// a value beginning with `$` is replaced by the named variable's value, or
/// by the empty string if it is unset.
pub open spec fn sp_sub_var(env: Seq<(Seq<char>, Seq<char>)>, v: Seq<char>) -> Seq<char> {
    if v.len() > 0 && v[0] == '$' {
        match spec_lookup_env(env, v.subrange(1, v.len() as int)) {
            Option::Some(value) => value,
            Option::None => Seq::empty(),
        }
    } else {
        v
    }
}

/// Applies [`sp_sub_var`].
pub fn sub_var(env: &EnvTable, v: &String) -> (r: String)
    ensures
        r@ == sp_sub_var(env@, v@),
{
    let sl = v.as_str();
    let n = sl.unicode_len();
    if n > 0 && sl.get_char(0) == '$' {
        let key = String::from_str(sl.substring_char(1, n));
        match env.get(&key) {
            Option::Some(value) => value,
            Option::None => String::new(),
        }
    } else {
        v.clone()
    }
}

/// What alias resolution rewrites an invocation to: if the command name is
/// aliased, the target command with the alias's arguments prepended;
/// otherwise the invocation unchanged.  Exactly one substitution level is
/// applied: the result's command name is never looked up again.
pub open spec fn sp_resolve(aliases: Seq<AliasV>, name: Seq<char>, args: Seq<ArgV>) -> (
    Seq<char>,
    Seq<ArgV>,
) {
    match spec_lookup_alias(aliases, name) {
        Option::Some(a) => (a.command, a.args + args),
        Option::None => (name, args),
    }
}

/// Concatenates two argument lists, preserving views.
pub fn concat_args(a: &Vec<Arg>, b: &Vec<Arg>) -> (r: Vec<Arg>)
    ensures
        view_args(r@) == view_args(a@) + view_args(b@),
{
    let mut r = crate::state::clone_args(a);
    proof {
        crate::command::lemma_view_args_len(r@);
        crate::command::lemma_view_args_len(a@);
        assert forall|j: int| 0 <= j < a@.len() implies #[trigger] r@[j]@ == a@[j]@ by {
            crate::command::lemma_view_args_index(r@, j);
            crate::command::lemma_view_args_index(a@, j);
        }
    }
    let mut i: usize = 0;
    while i < b.len()
        invariant
            r@.len() == a@.len() + i,
            0 <= i <= b@.len(),
            forall|j: int| 0 <= j < a@.len() ==> #[trigger] r@[j]@ == a@[j]@,
            forall|j: int| 0 <= j < i ==> #[trigger] r@[a@.len() + j]@ == b@[j]@,
        decreases b@.len() - i,
    {
        let x = b[i].clone();
        r.push(x);
        i += 1;
    }
    proof {
        crate::command::lemma_view_args_len(r@);
        crate::command::lemma_view_args_len(a@);
        crate::command::lemma_view_args_len(b@);
        assert forall|j: int| 0 <= j < r@.len() implies view_args(r@)[j] == (view_args(a@)
            + view_args(b@))[j] by {
            crate::command::lemma_view_args_index(r@, j);
            if j < a@.len() {
                crate::command::lemma_view_args_index(a@, j);
                assert(r@[j]@ == a@[j]@);
            } else {
                crate::command::lemma_view_args_index(b@, j - a@.len());
                assert(r@[a@.len() + (j - a@.len())]@ == b@[j - a@.len()]@);
            }
        }
        assert(view_args(r@) =~= view_args(a@) + view_args(b@));
    }
    r
}

/// Deep-copies the arguments from position `from` on, preserving views.
pub fn args_suffix(args: &Vec<Arg>, from: usize) -> (r: Vec<Arg>)
    requires
        from <= args@.len(),
    ensures
        view_args(r@) == view_args(args@).subrange(from as int, args@.len() as int),
{
    let mut r: Vec<Arg> = Vec::new();
    let mut i: usize = from;
    while i < args.len()
        invariant
            from <= i <= args@.len(),
            r@.len() == i - from,
            forall|j: int| 0 <= j < i - from ==> #[trigger] r@[j]@ == args@[from + j]@,
        decreases args@.len() - i,
    {
        let x = args[i].clone();
        r.push(x);
        i += 1;
    }
    proof {
        crate::command::lemma_view_args_len(r@);
        crate::command::lemma_view_args_len(args@);
        assert forall|j: int| 0 <= j < r@.len() implies view_args(r@)[j] == view_args(
            args@,
        ).subrange(from as int, args@.len() as int)[j] by {
            crate::command::lemma_view_args_index(r@, j);
            crate::command::lemma_view_args_index(args@, from + j);
            assert(r@[j]@ == args@[from + j]@);
        }
        assert(view_args(r@) =~= view_args(args@).subrange(from as int, args@.len() as int));
    }
    r
}

/// Applies [`sp_resolve`]: the command and argument list actually spawned,
/// after at most one level of alias substitution.
pub fn resolve_alias(aliases: &AliasTable, command: &String, args: &Vec<Arg>) -> (r: (
    String,
    Vec<Arg>,
))
    ensures
        (r.0@, view_args(r.1@)) == sp_resolve(aliases@, command@, view_args(args@)),
{
    match aliases.lookup(command) {
        Option::Some(alias) => {
            let merged = concat_args(&alias.args, args);
            (alias.command, merged)
        },
        Option::None => (command.clone(), crate::state::clone_args(args)),
    }
}

/// Law: alias substitution is applied exactly once.  If `name` is aliased,
/// the rewritten invocation runs the alias's target command with the
/// alias's arguments prepended — and the target is taken as it stands, even
/// when the target's name is itself an alias of some further command.
pub proof fn lemma_alias_applied_once(
    aliases: Seq<AliasV>,
    name: Seq<char>,
    args: Seq<ArgV>,
    a: AliasV,
)
    requires
        spec_lookup_alias(aliases, name) == Option::Some(a),
    ensures
        sp_resolve(aliases, name, args) == (a.command, a.args + args),
        // in particular: the result names `a.command` no matter what that
        // name is in turn aliased to
        sp_resolve(aliases, name, args).0 == a.command,
{
}


/// What evaluating one argument comes to.
pub enum EvalOneV {
    Need { action: ActionV },
    Val { value: Seq<char> },
    Fail { error: ShellErrorV },
}

/// What evaluating an argument list comes to.
pub enum EvalArgsV {
    Need { action: ActionV },
    Vals { values: Seq<Seq<char>> },
    Fail { error: ShellErrorV },
}

/// What the builtin dispatch comes to: not a builtin at all, or a builtin's
/// next action or final result.
pub enum BuiltinV {
    NotBuiltin,
    Need { action: ActionV },
    Done { result: Result<CommandResult, ShellErrorV> },
}

/// What the peer-listing loop comes to.
pub enum PshlV {
    Need { action: ActionV },
    Text { text: Seq<char> },
    Fail { error: ShellErrorV },
}

/// Requesting an action that carries no data back: if the log already holds
/// its acknowledgement, consume it; otherwise the action must be performed.
pub open spec fn sp_emit(a: ActionV, log: Seq<EventV>, pos: int) -> (int, Option<ActionV>) {
    if pos < log.len() {
        (pos + 1, Option::None)
    } else {
        (pos, Option::Some(a))
    }
}

/// Spawning a resolved invocation: the command name is recorded as current
/// before the spawn; a successful spawn records the new process id and
/// yields it as the result's handle.
pub open spec fn sp_spawn_step(
    name: Seq<char>,
    argv: Seq<Seq<char>>,
    stdin: StdinMode,
    stdout: StdoutModeV,
    st: StateV,
    log: Seq<EventV>,
    pos: int,
) -> (StateV, int, RunStepV) {
    let st1 = StateV { current_command: Option::Some(name), ..st };
    if pos < log.len() {
        match log[pos] {
            EventV::SpawnOk { pid } => (
                StateV { running_pid: Option::Some(pid), ..st1 },
                pos + 1,
                RunStepV::Done {
                    result: Result::Ok(
                        CommandResult { output: Option::Some(pid), stdout_taken: false },
                    ),
                },
            ),
            EventV::SpawnErr { message } => (
                st1,
                pos + 1,
                RunStepV::Done { result: Result::Err(ShellErrorV::Spawn { message }) },
            ),
            _ => (st1, pos + 1, RunStepV::Done { result: Result::Err(ShellErrorV::Protocol) }),
        }
    } else {
        (
            st1,
            pos,
            RunStepV::Need {
                action: ActionV::Spawn { command: name, args: argv, stdin, stdout },
            },
        )
    }
}

/// The text the `alias` builtin prints: one line per definition, in the
/// order the table holds them.
pub open spec fn sp_alias_list_from(aliases: Seq<AliasV>, i: int) -> Seq<char>
    decreases aliases.len() - i when 0 <= i <= aliases.len()
{
    if i >= aliases.len() {
        Seq::empty()
    } else {
        sp_display_alias(aliases[i]) + "\n"@ + sp_alias_list_from(aliases, i + 1)
    }
}

/// The text `diffenv` prints: for each remote binding, how it differs from
/// the local environment.
pub open spec fn sp_env_diff_from(
    local: Seq<(Seq<char>, Seq<char>)>,
    vars: Seq<(Seq<char>, Seq<char>)>,
    i: int,
) -> Seq<char>
    decreases vars.len() - i when 0 <= i <= vars.len()
{
    if i >= vars.len() {
        Seq::empty()
    } else {
        let k = vars[i].0;
        let v = vars[i].1;
        (match spec_lookup_env(local, k) {
            Option::Some(lv) => if lv != v {
                " "@ + k + ":\n\tLocal:  "@ + lv + "\n\tTheirs: "@ + v + "\n"@
            } else {
                Seq::<char>::empty()
            },
            Option::None => "+"@ + k + ": "@ + v + "\n"@,
        }) + sp_env_diff_from(local, vars, i + 1)
    }
}

/// The peer-listing loop of `pshl`: each directory name that parses as a
/// process id other than the shell's own is asked for its status; failures
/// are skipped; the successful replies become one line each.
pub open spec fn sp_pshl_from(
    names: Seq<Seq<char>>,
    i: int,
    own: u32,
    log: Seq<EventV>,
    pos: int,
    acc: Seq<char>,
) -> (int, PshlV)
    decreases names.len() - i when 0 <= i <= names.len()
{
    if i >= names.len() {
        (pos, PshlV::Text { text: acc })
    } else {
        match sp_parse_u32(names[i]) {
            Option::None => sp_pshl_from(names, i + 1, own, log, pos, acc),
            Option::Some(pid) => if pid == own {
                sp_pshl_from(names, i + 1, own, log, pos, acc)
            } else if pos < log.len() {
                match log[pos] {
                    EventV::StatusReply { ok, current_command, working_dir } => if ok {
                        sp_pshl_from(
                            names,
                            i + 1,
                            own,
                            log,
                            pos + 1,
                            acc + names[i] + ": "@ + current_command + " ("@ + working_dir
                                + ")\n"@,
                        )
                    } else {
                        sp_pshl_from(names, i + 1, own, log, pos + 1, acc)
                    },
                    _ => (pos + 1, PshlV::Fail { error: ShellErrorV::Protocol }),
                }
            } else {
                (pos, PshlV::Need { action: ActionV::QueryStatus { pid } })
            },
        }
    }
}

/// Evaluating one argument: a literal is its text; a variable reference is
/// the variable's value, or `UnsetVariable`; a subcommand is run with null
/// input and captured output, must hold a process and exit successfully,
/// and its output loses its trailing whitespace.
pub open spec fn sp_eval_one(
    a: ArgV,
    st: StateV,
    log: Seq<EventV>,
    pos: int,
    fuel: nat,
) -> (StateV, int, EvalOneV)
    decreases fuel, size_arg(a), 0int,
{
    match a {
        ArgV::String { arg_string } => (st, pos, EvalOneV::Val { value: arg_string }),
        ArgV::Env { var_name } => match spec_lookup_env(st.env, var_name) {
            Option::Some(v) => (st, pos, EvalOneV::Val { value: v }),
            Option::None => (
                st,
                pos,
                EvalOneV::Fail { error: ShellErrorV::UnsetVariable { name: var_name } },
            ),
        },
        ArgV::Subcommand { command } => {
            let (st1, pos1, step) = sp_run(
                command,
                StdinMode::Null,
                StdoutModeV::Piped,
                st,
                log,
                pos,
                fuel,
            );
            match step {
                RunStepV::Need { action } => (st1, pos1, EvalOneV::Need { action }),
                RunStepV::Done { result } => match result {
                    Result::Err(e) => (st1, pos1, EvalOneV::Fail { error: e }),
                    Result::Ok(res) => match res.output {
                        Option::None => (
                            st1,
                            pos1,
                            EvalOneV::Fail { error: ShellErrorV::SubcommandFailed },
                        ),
                        Option::Some(h) => if pos1 < log.len() {
                            match log[pos1] {
                                EventV::CaptureDone { success, text } => if success {
                                    (st1, pos1 + 1, EvalOneV::Val { value: sp_trim_end(text) })
                                } else {
                                    (
                                        st1,
                                        pos1 + 1,
                                        EvalOneV::Fail { error: ShellErrorV::SubcommandFailed },
                                    )
                                },
                                _ => (
                                    st1,
                                    pos1 + 1,
                                    EvalOneV::Fail { error: ShellErrorV::Protocol },
                                ),
                            }
                        } else {
                            (
                                st1,
                                pos1,
                                EvalOneV::Need { action: ActionV::WaitCapture { handle: h } },
                            )
                        },
                    },
                },
            }
        },
    }
}

/// Evaluating an argument list, left to right: the first failure aborts the
/// list, so later arguments are not evaluated after an earlier one fails.
pub open spec fn sp_eval_args(
    args: Seq<ArgV>,
    st: StateV,
    log: Seq<EventV>,
    pos: int,
    fuel: nat,
    acc: Seq<Seq<char>>,
) -> (StateV, int, EvalArgsV)
    decreases fuel, size_args(args), 3int,
{
    if args.len() == 0 {
        (st, pos, EvalArgsV::Vals { values: acc })
    } else {
        proof {
            assert(size_arg(args[0]) >= 1);
        }
        let (st1, pos1, r1) = sp_eval_one(args[0], st, log, pos, fuel);
        match r1 {
            EvalOneV::Need { action } => (st1, pos1, EvalArgsV::Need { action }),
            EvalOneV::Fail { error } => (st1, pos1, EvalArgsV::Fail { error }),
            EvalOneV::Val { value } => sp_eval_args(
                args.subrange(1, args.len() as int),
                st1,
                log,
                pos1,
                fuel,
                acc.push(value),
            ),
        }
    }
}

/// The builtin dispatch: what a `Simple` invocation does when its name is
/// one of the builtins, which are checked before alias resolution and never
/// spawn a process of their own.
pub open spec fn sp_builtin(
    c: CommandV,
    st: StateV,
    log: Seq<EventV>,
    pos: int,
    fuel: nat,
) -> (StateV, int, BuiltinV)
    decreases fuel, size_command(c), 1int,
{
    match c {
        CommandV::Simple { command, args } => {
            proof {
                assert(args.subrange(0, args.len() as int) =~= args);
                if args.len() > 0 {
                    crate::command::lemma_size_args_split(args, 0);
                }
                if args.len() > 1 {
                    crate::command::lemma_size_args_split(args, 1);
                }
            }
            if command == "cd"@ {
                if args.len() > 0 {
                    let (st1, pos1, r1) = sp_eval_one(args[0], st, log, pos, fuel);
                    match r1 {
                        EvalOneV::Need { action } => (st1, pos1, BuiltinV::Need { action }),
                        EvalOneV::Fail { error } => (
                            st1,
                            pos1,
                            BuiltinV::Done { result: Result::Err(error) },
                        ),
                        EvalOneV::Val { value } => sp_cd_finish(value, st1, log, pos1),
                    }
                } else {
                    let v = match spec_lookup_env(st.env, "HOME"@) {
                        Option::Some(h) => h,
                        Option::None => "/"@,
                    };
                    sp_cd_finish(v, st, log, pos)
                }
            } else if command == "set"@ {
                if args.len() == 0 {
                    (
                        st,
                        pos,
                        BuiltinV::Done {
                            result: Result::Err(
                                ShellErrorV::BuiltinArg {
                                    message: "Set requires a key and value"@,
                                },
                            ),
                        },
                    )
                } else {
                    match args[0] {
                        ArgV::String { arg_string: key } => if args.len() < 2 {
                            (
                                st,
                                pos,
                                BuiltinV::Done {
                                    result: Result::Err(
                                        ShellErrorV::BuiltinArg {
                                            message: "Set requires a key and value"@,
                                        },
                                    ),
                                },
                            )
                        } else {
                            let (st1, pos1, r1) = sp_eval_one(args[1], st, log, pos, fuel);
                            match r1 {
                                EvalOneV::Need { action } => (
                                    st1,
                                    pos1,
                                    BuiltinV::Need { action },
                                ),
                                EvalOneV::Fail { error } => (
                                    st1,
                                    pos1,
                                    BuiltinV::Done { result: Result::Err(error) },
                                ),
                                EvalOneV::Val { value } => {
                                    let trimmed = sp_trim(value);
                                    let st2 = StateV {
                                        env: sp_env_set(st1.env, (key, trimmed)),
                                        ..st1
                                    };
                                    let (pos2, need) = sp_emit(
                                        ActionV::ExportVar { key, value: trimmed },
                                        log,
                                        pos1,
                                    );
                                    match need {
                                        Option::Some(a) => (st2, pos2, BuiltinV::Need { action: a }),
                                        Option::None => (
                                            st2,
                                            pos2,
                                            BuiltinV::Done {
                                                result: Result::Ok(sp_no_process()),
                                            },
                                        ),
                                    }
                                },
                            }
                        },
                        _ => (
                            st,
                            pos,
                            BuiltinV::Done {
                                result: Result::Err(
                                    ShellErrorV::BuiltinArg { message: "Key must be a string"@ },
                                ),
                            },
                        ),
                    }
                }
            } else if command == "alias"@ {
                if args.len() < 2 {
                    let text = sp_alias_list_from(st.aliases, 0);
                    let (pos1, need) = sp_emit(ActionV::Print { text }, log, pos);
                    match need {
                        Option::Some(a) => (st, pos1, BuiltinV::Need { action: a }),
                        Option::None => (
                            st,
                            pos1,
                            BuiltinV::Done { result: Result::Ok(sp_no_process()) },
                        ),
                    }
                } else {
                    let (st1, pos1, r1) = sp_eval_one(args[0], st, log, pos, fuel);
                    match r1 {
                        EvalOneV::Need { action } => (st1, pos1, BuiltinV::Need { action }),
                        EvalOneV::Fail { error } => (
                            st1,
                            pos1,
                            BuiltinV::Done { result: Result::Err(error) },
                        ),
                        EvalOneV::Val { value: name } => {
                            let (st2, pos2, r2) = sp_eval_one(args[1], st1, log, pos1, fuel);
                            match r2 {
                                EvalOneV::Need { action } => (st2, pos2, BuiltinV::Need { action }),
                                EvalOneV::Fail { error } => (
                                    st2,
                                    pos2,
                                    BuiltinV::Done { result: Result::Err(error) },
                                ),
                                EvalOneV::Val { value: target } => {
                                    let a = AliasV {
                                        alias: name,
                                        command: target,
                                        args: args.subrange(2, args.len() as int),
                                    };
                                    let st3 = StateV {
                                        aliases: sp_alias_insert(st2.aliases, a),
                                        ..st2
                                    };
                                    (st3, pos2, BuiltinV::Done { result: Result::Ok(sp_no_process()) })
                                },
                            }
                        },
                    }
                }
            } else if command == "exit"@ {
                (st, pos, BuiltinV::Need { action: ActionV::Exit })
            } else if command == "copyenv"@ {
                if args.len() != 2 {
                    let (pos1, need) = sp_emit(
                        ActionV::PrintErr { text: "copyenv takes a pid and a var name"@ },
                        log,
                        pos,
                    );
                    match need {
                        Option::Some(a) => (st, pos1, BuiltinV::Need { action: a }),
                        Option::None => (
                            st,
                            pos1,
                            BuiltinV::Done { result: Result::Ok(sp_no_process()) },
                        ),
                    }
                } else {
                    let (st1, pos1, r1) = sp_eval_one(args[0], st, log, pos, fuel);
                    match r1 {
                        EvalOneV::Need { action } => (st1, pos1, BuiltinV::Need { action }),
                        EvalOneV::Fail { error } => (
                            st1,
                            pos1,
                            BuiltinV::Done { result: Result::Err(error) },
                        ),
                        EvalOneV::Val { value: pid_s } => match sp_parse_u32(pid_s) {
                            Option::None => (
                                st1,
                                pos1,
                                BuiltinV::Done {
                                    result: Result::Err(
                                        ShellErrorV::BuiltinArg {
                                            message: "copyenv requires a numeric process id"@,
                                        },
                                    ),
                                },
                            ),
                            Option::Some(pid) => {
                                let (st2, pos2, r2) = sp_eval_one(args[1], st1, log, pos1, fuel);
                                match r2 {
                                    EvalOneV::Need { action } => (
                                        st2,
                                        pos2,
                                        BuiltinV::Need { action },
                                    ),
                                    EvalOneV::Fail { error } => (
                                        st2,
                                        pos2,
                                        BuiltinV::Done { result: Result::Err(error) },
                                    ),
                                    EvalOneV::Val { value: key } => if pos2 < log.len() {
                                        match log[pos2] {
                                            EventV::RemoteEnv { ok, vars } => if !ok {
                                                (
                                                    st2,
                                                    pos2 + 1,
                                                    BuiltinV::Done {
                                                        result: Result::Err(
                                                            ShellErrorV::Service {
                                                                message:
                                                                    "couldn't query the remote environment"@,
                                                            },
                                                        ),
                                                    },
                                                )
                                            } else {
                                                let value = match spec_lookup_env(vars, key) {
                                                    Option::Some(v) => v,
                                                    Option::None => Seq::<char>::empty(),
                                                };
                                                let st3 = StateV {
                                                    env: sp_env_set(st2.env, (key, value)),
                                                    ..st2
                                                };
                                                let (pos3, need) = sp_emit(
                                                    ActionV::ExportVar { key, value },
                                                    log,
                                                    pos2 + 1,
                                                );
                                                match need {
                                                    Option::Some(a) => (
                                                        st3,
                                                        pos3,
                                                        BuiltinV::Need { action: a },
                                                    ),
                                                    Option::None => (
                                                        st3,
                                                        pos3,
                                                        BuiltinV::Done {
                                                            result: Result::Ok(sp_no_process()),
                                                        },
                                                    ),
                                                }
                                            },
                                            _ => (
                                                st2,
                                                pos2 + 1,
                                                BuiltinV::Done {
                                                    result: Result::Err(ShellErrorV::Protocol),
                                                },
                                            ),
                                        }
                                    } else {
                                        (
                                            st2,
                                            pos2,
                                            BuiltinV::Need {
                                                action: ActionV::FetchRemoteEnv { pid },
                                            },
                                        )
                                    },
                                }
                            },
                        },
                    }
                }
            } else if command == "diffenv"@ {
                if args.len() != 1 {
                    let (pos1, need) = sp_emit(
                        ActionV::PrintErr { text: "diffenv requires a process id"@ },
                        log,
                        pos,
                    );
                    match need {
                        Option::Some(a) => (st, pos1, BuiltinV::Need { action: a }),
                        Option::None => (
                            st,
                            pos1,
                            BuiltinV::Done { result: Result::Ok(sp_no_process()) },
                        ),
                    }
                } else {
                    let (st1, pos1, r1) = sp_eval_one(args[0], st, log, pos, fuel);
                    match r1 {
                        EvalOneV::Need { action } => (st1, pos1, BuiltinV::Need { action }),
                        EvalOneV::Fail { error } => (
                            st1,
                            pos1,
                            BuiltinV::Done { result: Result::Err(error) },
                        ),
                        EvalOneV::Val { value: pid_s } => match sp_parse_u32(pid_s) {
                            Option::None => (
                                st1,
                                pos1,
                                BuiltinV::Done {
                                    result: Result::Err(
                                        ShellErrorV::BuiltinArg {
                                            message: "diffenv requires a numeric process id"@,
                                        },
                                    ),
                                },
                            ),
                            Option::Some(pid) => if pos1 < log.len() {
                                match log[pos1] {
                                    EventV::RemoteEnv { ok, vars } => if !ok {
                                        (
                                            st1,
                                            pos1 + 1,
                                            BuiltinV::Done {
                                                result: Result::Err(
                                                    ShellErrorV::Service {
                                                        message:
                                                            "couldn't query the remote environment"@,
                                                    },
                                                ),
                                            },
                                        )
                                    } else {
                                        let text = sp_env_diff_from(st1.env, vars, 0);
                                        let (pos2, need) = sp_emit(
                                            ActionV::Print { text },
                                            log,
                                            pos1 + 1,
                                        );
                                        match need {
                                            Option::Some(a) => (
                                                st1,
                                                pos2,
                                                BuiltinV::Need { action: a },
                                            ),
                                            Option::None => (
                                                st1,
                                                pos2,
                                                BuiltinV::Done {
                                                    result: Result::Ok(sp_no_process()),
                                                },
                                            ),
                                        }
                                    },
                                    _ => (
                                        st1,
                                        pos1 + 1,
                                        BuiltinV::Done {
                                            result: Result::Err(ShellErrorV::Protocol),
                                        },
                                    ),
                                }
                            } else {
                                (
                                    st1,
                                    pos1,
                                    BuiltinV::Need { action: ActionV::FetchRemoteEnv { pid } },
                                )
                            },
                        },
                    }
                }
            } else if command == "pshl"@ {
                if args.len() != 0 {
                    let (pos1, need) = sp_emit(
                        ActionV::PrintErr { text: "pshl doesn't take any args"@ },
                        log,
                        pos,
                    );
                    match need {
                        Option::Some(a) => (st, pos1, BuiltinV::Need { action: a }),
                        Option::None => (
                            st,
                            pos1,
                            BuiltinV::Done { result: Result::Ok(sp_no_process()) },
                        ),
                    }
                } else if pos < log.len() {
                    match log[pos] {
                        EventV::Shells { ok, names } => if !ok {
                            (
                                st,
                                pos + 1,
                                BuiltinV::Done {
                                    result: Result::Err(
                                        ShellErrorV::Service {
                                            message: "couldn't list the shell sockets"@,
                                        },
                                    ),
                                },
                            )
                        } else {
                            let (pos1, r1) = sp_pshl_from(
                                names,
                                0,
                                st.own_pid,
                                log,
                                pos + 1,
                                Seq::empty(),
                            );
                            match r1 {
                                PshlV::Need { action } => (st, pos1, BuiltinV::Need { action }),
                                PshlV::Fail { error } => (
                                    st,
                                    pos1,
                                    BuiltinV::Done { result: Result::Err(error) },
                                ),
                                PshlV::Text { text } => {
                                    let (pos2, need) = sp_emit(ActionV::Print { text }, log, pos1);
                                    match need {
                                        Option::Some(a) => (st, pos2, BuiltinV::Need { action: a }),
                                        Option::None => (
                                            st,
                                            pos2,
                                            BuiltinV::Done {
                                                result: Result::Ok(sp_no_process()),
                                            },
                                        ),
                                    }
                                },
                            }
                        },
                        _ => (
                            st,
                            pos + 1,
                            BuiltinV::Done { result: Result::Err(ShellErrorV::Protocol) },
                        ),
                    }
                } else {
                    (st, pos, BuiltinV::Need { action: ActionV::ListShells })
                }
            } else {
                (st, pos, BuiltinV::NotBuiltin)
            }
        },
        _ => (st, pos, BuiltinV::NotBuiltin),
    }
}

/// The end of `cd`: `$NAME` substitution on the chosen value, then the
/// directory change.
pub open spec fn sp_cd_finish(v: Seq<char>, st: StateV, log: Seq<EventV>, pos: int) -> (
    StateV,
    int,
    BuiltinV,
) {
    let path = sp_sub_var(st.env, v);
    let (pos1, need) = sp_emit(ActionV::ChangeDir { path }, log, pos);
    match need {
        Option::Some(a) => (st, pos1, BuiltinV::Need { action: a }),
        Option::None => (st, pos1, BuiltinV::Done { result: Result::Ok(sp_no_process()) }),
    }
}

/// Running one command tree against a log of outside outcomes: what the
/// engine decides, what state it leaves, and how much of the log it
/// consumed.
pub open spec fn sp_run(
    c: CommandV,
    stdin: StdinMode,
    stdout: StdoutModeV,
    st: StateV,
    log: Seq<EventV>,
    pos: int,
    fuel: nat,
) -> (StateV, int, RunStepV)
    decreases fuel, size_command(c), 2int,
{
    match c {
        CommandV::Simple { command, args } => {
            if command.len() == 0 {
                (st, pos, RunStepV::Done { result: Result::Ok(sp_no_process()) })
            } else {
                let (stb, posb, b) = sp_builtin(c, st, log, pos, fuel);
                match b {
                    BuiltinV::Need { action } => (stb, posb, RunStepV::Need { action }),
                    BuiltinV::Done { result } => (stb, posb, RunStepV::Done { result }),
                    BuiltinV::NotBuiltin => match spec_lookup_alias(st.aliases, command) {
                        Option::Some(al) => if fuel == 0 {
                            (
                                st,
                                pos,
                                RunStepV::Done { result: Result::Err(ShellErrorV::Recursion) },
                            )
                        } else {
                            let (st1, pos1, r1) = sp_eval_args(
                                al.args + args,
                                st,
                                log,
                                pos,
                                (fuel - 1) as nat,
                                Seq::empty(),
                            );
                            match r1 {
                                EvalArgsV::Need { action } => (st1, pos1, RunStepV::Need { action }),
                                EvalArgsV::Fail { error } => (
                                    st1,
                                    pos1,
                                    RunStepV::Done { result: Result::Err(error) },
                                ),
                                EvalArgsV::Vals { values } => sp_spawn_step(
                                    al.command,
                                    values,
                                    stdin,
                                    stdout,
                                    st1,
                                    log,
                                    pos1,
                                ),
                            }
                        },
                        Option::None => {
                            let (st1, pos1, r1) = sp_eval_args(
                                args,
                                st,
                                log,
                                pos,
                                fuel,
                                Seq::empty(),
                            );
                            match r1 {
                                EvalArgsV::Need { action } => (st1, pos1, RunStepV::Need { action }),
                                EvalArgsV::Fail { error } => (
                                    st1,
                                    pos1,
                                    RunStepV::Done { result: Result::Err(error) },
                                ),
                                EvalArgsV::Vals { values } => sp_spawn_step(
                                    command,
                                    values,
                                    stdin,
                                    stdout,
                                    st1,
                                    log,
                                    pos1,
                                ),
                            }
                        },
                    },
                }
            }
        },
        CommandV::Pipeline { steps, redirect } => {
            if steps.len() == 0 {
                (st, pos, RunStepV::Done { result: Result::Ok(sp_no_process()) })
            } else {
                sp_run_steps(steps, stdin, stdout, redirect, st, log, pos, fuel)
            }
        },
        CommandV::And { left, right } => {
            let (st1, pos1, step1) = sp_run(
                *left,
                stdin,
                StdoutModeV::Inherit,
                st,
                log,
                pos,
                fuel,
            );
            match step1 {
                RunStepV::Need { action } => (st1, pos1, RunStepV::Need { action }),
                RunStepV::Done { result } => match result {
                    Result::Err(e) => (st1, pos1, RunStepV::Done { result: Result::Err(e) }),
                    Result::Ok(res) => match res.output {
                        Option::None => sp_run(
                            *right,
                            StdinMode::Null,
                            StdoutModeV::Inherit,
                            st1,
                            log,
                            pos1,
                            fuel,
                        ),
                        Option::Some(h) => if pos1 < log.len() {
                            match log[pos1] {
                                EventV::WaitDone { success } => if success {
                                    sp_run(
                                        *right,
                                        StdinMode::Null,
                                        StdoutModeV::Inherit,
                                        st1,
                                        log,
                                        pos1 + 1,
                                        fuel,
                                    )
                                } else {
                                    (
                                        st1,
                                        pos1 + 1,
                                        RunStepV::Done { result: Result::Ok(res) },
                                    )
                                },
                                _ => (
                                    st1,
                                    pos1 + 1,
                                    RunStepV::Done { result: Result::Err(ShellErrorV::Protocol) },
                                ),
                            }
                        } else {
                            (st1, pos1, RunStepV::Need { action: ActionV::Wait { handle: h } })
                        },
                    },
                },
            }
        },
        CommandV::Or { left, right } => {
            let (st1, pos1, step1) = sp_run(
                *left,
                stdin,
                StdoutModeV::Inherit,
                st,
                log,
                pos,
                fuel,
            );
            match step1 {
                RunStepV::Need { action } => (st1, pos1, RunStepV::Need { action }),
                RunStepV::Done { result } => match result {
                    Result::Err(e) => (st1, pos1, RunStepV::Done { result: Result::Err(e) }),
                    Result::Ok(res) => match res.output {
                        Option::None => (st1, pos1, RunStepV::Done { result: Result::Ok(res) }),
                        Option::Some(h) => if pos1 < log.len() {
                            match log[pos1] {
                                EventV::WaitDone { success } => if success {
                                    (
                                        st1,
                                        pos1 + 1,
                                        RunStepV::Done { result: Result::Ok(res) },
                                    )
                                } else {
                                    sp_run(
                                        *right,
                                        StdinMode::Null,
                                        StdoutModeV::Inherit,
                                        st1,
                                        log,
                                        pos1 + 1,
                                        fuel,
                                    )
                                },
                                _ => (
                                    st1,
                                    pos1 + 1,
                                    RunStepV::Done { result: Result::Err(ShellErrorV::Protocol) },
                                ),
                            }
                        } else {
                            (st1, pos1, RunStepV::Need { action: ActionV::Wait { handle: h } })
                        },
                    },
                },
            }
        },
    }
}

/// Running the stages of a pipeline: every non-final stage is spawned with
/// a piped standard output whose read end becomes the next stage's standard
/// input (or null input when the stage produced no process); the final
/// stage receives the pipeline's own standard output, or the redirect file.
pub open spec fn sp_run_steps(
    steps: Seq<CommandV>,
    stdin: StdinMode,
    stdout: StdoutModeV,
    redirect: Option<Seq<char>>,
    st: StateV,
    log: Seq<EventV>,
    pos: int,
    fuel: nat,
) -> (StateV, int, RunStepV)
    decreases fuel, size_commands(steps), 3int,
{
    if steps.len() == 0 {
        (st, pos, RunStepV::Done { result: Result::Ok(sp_no_process()) })
    } else if steps.len() == 1 {
        let out = match redirect {
            Option::Some(p) => StdoutModeV::ToFile { path: p },
            Option::None => stdout,
        };
        sp_run(steps[0], stdin, out, st, log, pos, fuel)
    } else {
        proof {
            assert(size_command(steps[0]) >= 1);
        }
        let (st1, pos1, step1) = sp_run(steps[0], stdin, StdoutModeV::Piped, st, log, pos, fuel);
        match step1 {
            RunStepV::Need { action } => (st1, pos1, RunStepV::Need { action }),
            RunStepV::Done { result } => match result {
                Result::Err(e) => (st1, pos1, RunStepV::Done { result: Result::Err(e) }),
                Result::Ok(res) => {
                    // the stage's output stream is taken exactly once here
                    let next_stdin = match res.output {
                        Option::Some(h) => if !res.stdout_taken {
                            StdinMode::FromHandle { handle: h }
                        } else {
                            StdinMode::Null
                        },
                        Option::None => StdinMode::Null,
                    };
                    sp_run_steps(
                        steps.subrange(1, steps.len() as int),
                        next_stdin,
                        stdout,
                        redirect,
                        st1,
                        log,
                        pos1,
                        fuel,
                    )
                },
            },
        }
    }
}



/// The executable counterpart of [`EvalOneV`].
pub enum EvalOne {
    Need { action: Action },
    Val { value: String },
    Fail { error: ShellError },
}

impl View for EvalOne {
    type V = EvalOneV;

    open spec fn view(&self) -> EvalOneV {
        match self {
            EvalOne::Need { action } => EvalOneV::Need { action: action@ },
            EvalOne::Val { value } => EvalOneV::Val { value: value@ },
            EvalOne::Fail { error } => EvalOneV::Fail { error: error@ },
        }
    }
}

/// The executable counterpart of [`EvalArgsV`].
pub enum EvalArgs {
    Need { action: Action },
    Vals { values: Vec<String> },
    Fail { error: ShellError },
}

impl View for EvalArgs {
    type V = EvalArgsV;

    open spec fn view(&self) -> EvalArgsV {
        match self {
            EvalArgs::Need { action } => EvalArgsV::Need { action: action@ },
            EvalArgs::Vals { values } => EvalArgsV::Vals { values: view_strings(values@) },
            EvalArgs::Fail { error } => EvalArgsV::Fail { error: error@ },
        }
    }
}

/// The executable counterpart of [`BuiltinV`].
pub enum BuiltinOut {
    NotBuiltin,
    Need { action: Action },
    Done { result: Result<CommandResult, ShellError> },
}

impl View for BuiltinOut {
    type V = BuiltinV;

    open spec fn view(&self) -> BuiltinV {
        match self {
            BuiltinOut::NotBuiltin => BuiltinV::NotBuiltin,
            BuiltinOut::Need { action } => BuiltinV::Need { action: action@ },
            BuiltinOut::Done { result } => BuiltinV::Done {
                result: match result {
                    Result::Ok(res) => Result::Ok(*res),
                    Result::Err(e) => Result::Err(e@),
                },
            },
        }
    }
}

/// The executable counterpart of [`PshlV`].
pub enum PshlOut {
    Need { action: Action },
    Text { text: String },
    Fail { error: ShellError },
}

impl View for PshlOut {
    type V = PshlV;

    open spec fn view(&self) -> PshlV {
        match self {
            PshlOut::Need { action } => PshlV::Need { action: action@ },
            PshlOut::Text { text } => PshlV::Text { text: text@ },
            PshlOut::Fail { error } => PshlV::Fail { error: error@ },
        }
    }
}

/// Requests an action that carries no data back, as [`sp_emit`] describes.
fn emit(action: Action, log: &Vec<Event>, pos: &mut usize) -> (r: Option<Action>)
    requires
        *old(pos) <= log@.len(),
    ensures
        *old(pos) <= *final(pos) <= log@.len(),
        ({
            let (pos2, need) = sp_emit(action@, view_events(log@), *old(pos) as int);
            *final(pos) as int == pos2 && (match r {
                Option::Some(a) => need == Option::Some(a@),
                Option::None => need is None,
            })
        }),
{
    if *pos < log.len() {
        *pos += 1;
        Option::None
    } else {
        Option::Some(action)
    }
}

/// Records the command as current and spawns it, as [`sp_spawn_step`]
/// describes.
fn spawn_step(
    name: String,
    argv: Vec<String>,
    stdin: StdinMode,
    stdout: StdoutMode,
    state: &mut State,
    log: &Vec<Event>,
    pos: &mut usize,
) -> (r: RunStep)
    requires
        old(state).wf(),
        *old(pos) <= log@.len(),
    ensures
        final(state).wf(),
        *old(pos) <= *final(pos) <= log@.len(),
        ({
            let (st2, pos2, step) = sp_spawn_step(
                name@,
                view_strings(argv@),
                stdin,
                stdout@,
                old(state)@,
                view_events(log@),
                *old(pos) as int,
            );
            final(state)@ == st2 && *final(pos) as int == pos2 && r@ == step
        }),
{
    state.current_command = Option::Some(name.clone());
    if *pos < log.len() {
        let ev = &log[*pos];
        *pos += 1;
        match ev {
            Event::SpawnOk { pid } => {
                state.running_pid = Option::Some(*pid);
                RunStep::Done {
                    result: Result::Ok(
                        CommandResult { output: Option::Some(*pid), stdout_taken: false },
                    ),
                }
            },
            Event::SpawnErr { message } => RunStep::Done {
                result: Result::Err(ShellError::Spawn { message: message.clone() }),
            },
            _ => RunStep::Done { result: Result::Err(ShellError::Protocol) },
        }
    } else {
        RunStep::Need {
            action: Action::Spawn { command: name, args: argv, stdin, stdout },
        }
    }
}

/// Renders the alias listing from position `i` on, as
/// [`sp_alias_list_from`] describes.
fn alias_list_from(aliases: &AliasTable, i: usize) -> (r: String)
    requires
        i <= aliases@.len(),
    ensures
        r@ == sp_alias_list_from(aliases@, i as int),
    decreases aliases@.len() - i,
{
    if i < aliases.len() {
        let a = aliases.get_at(i);
        let mut s = a.display();
        s.append("\n");
        let rest = alias_list_from(aliases, i + 1);
        s.append(rest.as_str());
        s
    } else {
        String::new()
    }
}

/// Renders the environment difference from position `i` on, as
/// [`sp_env_diff_from`] describes.
fn env_diff_from(env: &EnvTable, vars: &Vec<EnvVar>, i: usize) -> (r: String)
    requires
        i <= vars@.len(),
    ensures
        r@ == sp_env_diff_from(env@, view_env_vars(vars@), i as int),
    decreases vars@.len() - i,
{
    if i < vars.len() {
        let k = &vars[i].key;
        let v = &vars[i].value;
        let mut s = match env.get(k) {
            Option::Some(lv) => {
                if !lv.eq(v) {
                    let mut t = String::from_str(" ");
                    t.append(k.as_str());
                    t.append(":\n\tLocal:  ");
                    t.append(lv.as_str());
                    t.append("\n\tTheirs: ");
                    t.append(v.as_str());
                    t.append("\n");
                    t
                } else {
                    String::new()
                }
            },
            Option::None => {
                let mut t = String::from_str("+");
                t.append(k.as_str());
                t.append(": ");
                t.append(v.as_str());
                t.append("\n");
                t
            },
        };
        let rest = env_diff_from(env, vars, i + 1);
        s.append(rest.as_str());
        s
    } else {
        String::new()
    }
}

/// Walks the peer list from position `i` on, as [`sp_pshl_from`]
/// describes.
fn pshl_from(
    names: &Vec<String>,
    i: usize,
    own: u32,
    log: &Vec<Event>,
    pos: &mut usize,
    acc: String,
) -> (r: PshlOut)
    requires
        i <= names@.len(),
        *old(pos) <= log@.len(),
    ensures
        *old(pos) <= *final(pos) <= log@.len(),
        ({
            let (pos2, rv) = sp_pshl_from(
                view_strings(names@),
                i as int,
                own,
                view_events(log@),
                *old(pos) as int,
                acc@,
            );
            *final(pos) as int == pos2 && r@ == rv
        }),
    decreases names@.len() - i,
{
    if i < names.len() {
        match parse_u32(&names[i]) {
            Option::None => pshl_from(names, i + 1, own, log, pos, acc),
            Option::Some(pid) => {
                if pid == own {
                    pshl_from(names, i + 1, own, log, pos, acc)
                } else if *pos < log.len() {
                    let ev = &log[*pos];
                    *pos += 1;
                    match ev {
                        Event::StatusReply { ok, current_command, working_dir } => {
                            if *ok {
                                let mut acc2 = acc;
                                acc2.append(names[i].as_str());
                                acc2.append(": ");
                                acc2.append(current_command.as_str());
                                acc2.append(" (");
                                acc2.append(working_dir.as_str());
                                acc2.append(")\n");
                                pshl_from(names, i + 1, own, log, pos, acc2)
                            } else {
                                pshl_from(names, i + 1, own, log, pos, acc)
                            }
                        },
                        _ => PshlOut::Fail { error: ShellError::Protocol },
                    }
                } else {
                    PshlOut::Need { action: Action::QueryStatus { pid } }
                }
            },
        }
    } else {
        PshlOut::Text { text: acc }
    }
}

/// Finishes `cd`, as [`sp_cd_finish`] describes.
fn cd_finish(v: &String, state: &State, log: &Vec<Event>, pos: &mut usize) -> (r: BuiltinOut)
    requires
        *old(pos) <= log@.len(),
    ensures
        *old(pos) <= *final(pos) <= log@.len(),
        ({
            let (st2, pos2, b) = sp_cd_finish(v@, state@, view_events(log@), *old(pos) as int);
            st2 == state@ && *final(pos) as int == pos2 && r@ == b
        }),
{
    let path = sub_var(&state.env, v);
    match emit(Action::ChangeDir { path }, log, pos) {
        Option::Some(a) => BuiltinOut::Need { action: a },
        Option::None => BuiltinOut::Done { result: Result::Ok(no_process()) },
    }
}



/// Evaluates one argument, as [`sp_eval_one`] describes.
fn eval_one(
    arg: &Arg,
    state: &mut State,
    log: &Vec<Event>,
    pos: &mut usize,
    fuel: u32,
) -> (r: EvalOne)
    requires
        old(state).wf(),
        *old(pos) <= log@.len(),
    ensures
        final(state).wf(),
        *old(pos) <= *final(pos) <= log@.len(),
        ({
            let (st2, pos2, rv) = sp_eval_one(
                arg@,
                old(state)@,
                view_events(log@),
                *old(pos) as int,
                fuel as nat,
            );
            final(state)@ == st2 && *final(pos) as int == pos2 && r@ == rv
        }),
    decreases fuel, size_arg(arg@), 0int,
{
    match arg {
        Arg::String { arg_string } => EvalOne::Val { value: arg_string.clone() },
        Arg::Env { var_name } => match state.env.get(var_name) {
            Option::Some(v) => EvalOne::Val { value: v },
            Option::None => EvalOne::Fail {
                error: ShellError::UnsetVariable { name: var_name.clone() },
            },
        },
        Arg::Subcommand { command } => {
            match command.run_fueled(StdinMode::Null, StdoutMode::Piped, state, log, pos, fuel) {
                RunStep::Need { action } => EvalOne::Need { action },
                RunStep::Done { result } => match result {
                    Result::Err(e) => EvalOne::Fail { error: e },
                    Result::Ok(res) => match res.output {
                        Option::None => EvalOne::Fail { error: ShellError::SubcommandFailed },
                        Option::Some(h) => {
                            if *pos < log.len() {
                                let ev = &log[*pos];
                                *pos += 1;
                                match ev {
                                    Event::CaptureDone { success, text } => {
                                        if *success {
                                            EvalOne::Val { value: trim_end(text) }
                                        } else {
                                            EvalOne::Fail {
                                                error: ShellError::SubcommandFailed,
                                            }
                                        }
                                    },
                                    _ => EvalOne::Fail { error: ShellError::Protocol },
                                }
                            } else {
                                EvalOne::Need { action: Action::WaitCapture { handle: h } }
                            }
                        },
                    },
                },
            }
        },
    }
}

/// Evaluates the arguments from position `i` on, left to right, as
/// [`sp_eval_args`] describes.
fn eval_args(
    args: &Vec<Arg>,
    i: usize,
    state: &mut State,
    log: &Vec<Event>,
    pos: &mut usize,
    fuel: u32,
    acc: Vec<String>,
) -> (r: EvalArgs)
    requires
        i <= args@.len(),
        old(state).wf(),
        *old(pos) <= log@.len(),
    ensures
        final(state).wf(),
        *old(pos) <= *final(pos) <= log@.len(),
        ({
            let (st2, pos2, rv) = sp_eval_args(
                view_args(args@).subrange(i as int, args@.len() as int),
                old(state)@,
                view_events(log@),
                *old(pos) as int,
                fuel as nat,
                view_strings(acc@),
            );
            final(state)@ == st2 && *final(pos) as int == pos2 && r@ == rv
        }),
    decreases fuel, size_args(view_args(args@).subrange(i as int, args@.len() as int)), 3int,
{
    let ghost av = view_args(args@);
    proof {
        crate::command::lemma_view_args_len(args@);
    }
    if i < args.len() {
        proof {
            crate::command::lemma_view_args_index(args@, i as int);
            crate::command::lemma_size_args_split(av, i as int);
            assert(size_arg(av[i as int]) >= 1);
            assert(av.subrange(i as int, av.len() as int)[0] == av[i as int]);
            assert(av.subrange(i as int, av.len() as int).subrange(
                1,
                av.len() - i as int,
            ) =~= av.subrange(i + 1, av.len() as int));
        }
        match eval_one(&args[i], state, log, pos, fuel) {
            EvalOne::Need { action } => EvalArgs::Need { action },
            EvalOne::Fail { error } => EvalArgs::Fail { error },
            EvalOne::Val { value } => {
                let ghost accv = view_strings(acc@);
                let ghost valv = value@;
                let mut acc2 = acc;
                acc2.push(value);
                proof {
                    assert(view_strings(acc2@) =~= accv.push(valv));
                }
                eval_args(args, i + 1, state, log, pos, fuel, acc2)
            },
        }
    } else {
        proof {
            assert(av.subrange(i as int, av.len() as int) =~= Seq::<ArgV>::empty());
        }
        EvalArgs::Vals { values: acc }
    }
}

/// The builtin dispatch, as [`sp_builtin`] describes: `cd`, `set`, `alias`,
/// `exit`, `copyenv`, `diffenv` and `pshl` are intercepted before alias
/// resolution and never spawn a process of their own.
pub fn run_builtin(
    cmd: &Command,
    state: &mut State,
    log: &Vec<Event>,
    pos: &mut usize,
    fuel: u32,
) -> (r: BuiltinOut)
    requires
        old(state).wf(),
        *old(pos) <= log@.len(),
    ensures
        final(state).wf(),
        *old(pos) <= *final(pos) <= log@.len(),
        ({
            let (st2, pos2, b) = sp_builtin(
                cmd@,
                old(state)@,
                view_events(log@),
                *old(pos) as int,
                fuel as nat,
            );
            final(state)@ == st2 && *final(pos) as int == pos2 && r@ == b
        }),
    decreases fuel, size_command(cmd@), 1int,
{
    match cmd {
        Command::Simple { command, args } => {
            proof {
                let av = view_args(args@);
                crate::command::lemma_view_args_len(args@);
                assert(av.subrange(0, av.len() as int) =~= av);
                if args@.len() > 0 {
                    crate::command::lemma_view_args_index(args@, 0);
                    crate::command::lemma_size_args_split(av, 0);
                }
                if args@.len() > 1 {
                    crate::command::lemma_view_args_index(args@, 1);
                    crate::command::lemma_size_args_split(av, 1);
                }
            }
            let which = crate::builtins::classify_builtin(command);
            if which == Option::Some(crate::builtins::Builtin::Cd) {
                if args.len() > 0 {
                    match eval_one(&args[0], state, log, pos, fuel) {
                        EvalOne::Need { action } => BuiltinOut::Need { action },
                        EvalOne::Fail { error } => BuiltinOut::Done {
                            result: Result::Err(error),
                        },
                        EvalOne::Val { value } => cd_finish(&value, state, log, pos),
                    }
                } else {
                    let home = String::from_str("HOME");
                    let v = match state.env.get(&home) {
                        Option::Some(h) => h,
                        Option::None => String::from_str("/"),
                    };
                    cd_finish(&v, state, log, pos)
                }
            } else if which == Option::Some(crate::builtins::Builtin::SetVar) {
                if args.len() == 0 {
                    BuiltinOut::Done {
                        result: Result::Err(
                            ShellError::BuiltinArg {
                                message: String::from_str("Set requires a key and value"),
                            },
                        ),
                    }
                } else {
                    match &args[0] {
                        Arg::String { arg_string } => {
                            if args.len() < 2 {
                                BuiltinOut::Done {
                                    result: Result::Err(
                                        ShellError::BuiltinArg {
                                            message: String::from_str(
                                                "Set requires a key and value",
                                            ),
                                        },
                                    ),
                                }
                            } else {
                                match eval_one(&args[1], state, log, pos, fuel) {
                                    EvalOne::Need { action } => BuiltinOut::Need { action },
                                    EvalOne::Fail { error } => BuiltinOut::Done {
                                        result: Result::Err(error),
                                    },
                                    EvalOne::Val { value } => {
                                        let key = arg_string.clone();
                                        let trimmed = trim(&value);
                                        state.env.set(key.clone(), trimmed.clone());
                                        match emit(
                                            Action::ExportVar { key, value: trimmed },
                                            log,
                                            pos,
                                        ) {
                                            Option::Some(a) => BuiltinOut::Need { action: a },
                                            Option::None => BuiltinOut::Done {
                                                result: Result::Ok(no_process()),
                                            },
                                        }
                                    },
                                }
                            }
                        },
                        _ => BuiltinOut::Done {
                            result: Result::Err(
                                ShellError::BuiltinArg {
                                    message: String::from_str("Key must be a string"),
                                },
                            ),
                        },
                    }
                }
            } else if which == Option::Some(crate::builtins::Builtin::Alias) {
                if args.len() < 2 {
                    let text = alias_list_from(&state.aliases, 0);
                    match emit(Action::Print { text }, log, pos) {
                        Option::Some(a) => BuiltinOut::Need { action: a },
                        Option::None => BuiltinOut::Done { result: Result::Ok(no_process()) },
                    }
                } else {
                    match eval_one(&args[0], state, log, pos, fuel) {
                        EvalOne::Need { action } => BuiltinOut::Need { action },
                        EvalOne::Fail { error } => BuiltinOut::Done {
                            result: Result::Err(error),
                        },
                        EvalOne::Val { value: name } => {
                            match eval_one(&args[1], state, log, pos, fuel) {
                                EvalOne::Need { action } => BuiltinOut::Need { action },
                                EvalOne::Fail { error } => BuiltinOut::Done {
                                    result: Result::Err(error),
                                },
                                EvalOne::Val { value: target } => {
                                    let rest = args_suffix(args, 2);
                                    let a = Alias {
                                        alias: name,
                                        command: target,
                                        args: rest,
                                    };
                                    state.aliases.insert(a);
                                    BuiltinOut::Done { result: Result::Ok(no_process()) }
                                },
                            }
                        },
                    }
                }
            } else if which == Option::Some(crate::builtins::Builtin::Exit) {
                BuiltinOut::Need { action: Action::Exit }
            } else if which == Option::Some(crate::builtins::Builtin::Copyenv) {
                if args.len() != 2 {
                    match emit(
                        Action::PrintErr {
                            text: String::from_str("copyenv takes a pid and a var name"),
                        },
                        log,
                        pos,
                    ) {
                        Option::Some(a) => BuiltinOut::Need { action: a },
                        Option::None => BuiltinOut::Done { result: Result::Ok(no_process()) },
                    }
                } else {
                    match eval_one(&args[0], state, log, pos, fuel) {
                        EvalOne::Need { action } => BuiltinOut::Need { action },
                        EvalOne::Fail { error } => BuiltinOut::Done {
                            result: Result::Err(error),
                        },
                        EvalOne::Val { value: pid_s } => match parse_u32(&pid_s) {
                            Option::None => BuiltinOut::Done {
                                result: Result::Err(
                                    ShellError::BuiltinArg {
                                        message: String::from_str(
                                            "copyenv requires a numeric process id",
                                        ),
                                    },
                                ),
                            },
                            Option::Some(pid) => {
                                match eval_one(&args[1], state, log, pos, fuel) {
                                    EvalOne::Need { action } => BuiltinOut::Need { action },
                                    EvalOne::Fail { error } => BuiltinOut::Done {
                                        result: Result::Err(error),
                                    },
                                    EvalOne::Val { value: key } => {
                                        if *pos < log.len() {
                                            let ev = &log[*pos];
                                            *pos += 1;
                                            match ev {
                                                Event::RemoteEnv { ok, vars } => {
                                                    if !*ok {
                                                        BuiltinOut::Done {
                                                            result: Result::Err(
                                                                ShellError::Service {
                                                                    message: String::from_str(
                                                                        "couldn't query the remote environment",
                                                                    ),
                                                                },
                                                            ),
                                                        }
                                                    } else {
                                                        let value = lookup_vars(vars, &key);
                                                        state.env.set(
                                                            key.clone(),
                                                            value.clone(),
                                                        );
                                                        match emit(
                                                            Action::ExportVar { key, value },
                                                            log,
                                                            pos,
                                                        ) {
                                                            Option::Some(a) => BuiltinOut::Need {
                                                                action: a,
                                                            },
                                                            Option::None => BuiltinOut::Done {
                                                                result: Result::Ok(no_process()),
                                                            },
                                                        }
                                                    }
                                                },
                                                _ => BuiltinOut::Done {
                                                    result: Result::Err(ShellError::Protocol),
                                                },
                                            }
                                        } else {
                                            BuiltinOut::Need {
                                                action: Action::FetchRemoteEnv { pid },
                                            }
                                        }
                                    },
                                }
                            },
                        },
                    }
                }
            } else if which == Option::Some(crate::builtins::Builtin::Diffenv) {
                if args.len() != 1 {
                    match emit(
                        Action::PrintErr {
                            text: String::from_str("diffenv requires a process id"),
                        },
                        log,
                        pos,
                    ) {
                        Option::Some(a) => BuiltinOut::Need { action: a },
                        Option::None => BuiltinOut::Done { result: Result::Ok(no_process()) },
                    }
                } else {
                    match eval_one(&args[0], state, log, pos, fuel) {
                        EvalOne::Need { action } => BuiltinOut::Need { action },
                        EvalOne::Fail { error } => BuiltinOut::Done {
                            result: Result::Err(error),
                        },
                        EvalOne::Val { value: pid_s } => match parse_u32(&pid_s) {
                            Option::None => BuiltinOut::Done {
                                result: Result::Err(
                                    ShellError::BuiltinArg {
                                        message: String::from_str(
                                            "diffenv requires a numeric process id",
                                        ),
                                    },
                                ),
                            },
                            Option::Some(pid) => {
                                if *pos < log.len() {
                                    let ev = &log[*pos];
                                    *pos += 1;
                                    match ev {
                                        Event::RemoteEnv { ok, vars } => {
                                            if !*ok {
                                                BuiltinOut::Done {
                                                    result: Result::Err(
                                                        ShellError::Service {
                                                            message: String::from_str(
                                                                "couldn't query the remote environment",
                                                            ),
                                                        },
                                                    ),
                                                }
                                            } else {
                                                let text = env_diff_from(&state.env, vars, 0);
                                                match emit(Action::Print { text }, log, pos) {
                                                    Option::Some(a) => BuiltinOut::Need {
                                                        action: a,
                                                    },
                                                    Option::None => BuiltinOut::Done {
                                                        result: Result::Ok(no_process()),
                                                    },
                                                }
                                            }
                                        },
                                        _ => BuiltinOut::Done {
                                            result: Result::Err(ShellError::Protocol),
                                        },
                                    }
                                } else {
                                    BuiltinOut::Need { action: Action::FetchRemoteEnv { pid } }
                                }
                            },
                        },
                    }
                }
            } else if which == Option::Some(crate::builtins::Builtin::Pshl) {
                if args.len() != 0 {
                    match emit(
                        Action::PrintErr { text: String::from_str("pshl doesn't take any args") },
                        log,
                        pos,
                    ) {
                        Option::Some(a) => BuiltinOut::Need { action: a },
                        Option::None => BuiltinOut::Done { result: Result::Ok(no_process()) },
                    }
                } else if *pos < log.len() {
                    let ev = &log[*pos];
                    *pos += 1;
                    match ev {
                        Event::Shells { ok, names } => {
                            if !*ok {
                                BuiltinOut::Done {
                                    result: Result::Err(
                                        ShellError::Service {
                                            message: String::from_str(
                                                "couldn't list the shell sockets",
                                            ),
                                        },
                                    ),
                                }
                            } else {
                                match pshl_from(
                                    names,
                                    0,
                                    state.own_pid,
                                    log,
                                    pos,
                                    String::new(),
                                ) {
                                    PshlOut::Need { action } => BuiltinOut::Need { action },
                                    PshlOut::Fail { error } => BuiltinOut::Done {
                                        result: Result::Err(error),
                                    },
                                    PshlOut::Text { text } => {
                                        match emit(Action::Print { text }, log, pos) {
                                            Option::Some(a) => BuiltinOut::Need { action: a },
                                            Option::None => BuiltinOut::Done {
                                                result: Result::Ok(no_process()),
                                            },
                                        }
                                    },
                                }
                            }
                        },
                        _ => BuiltinOut::Done { result: Result::Err(ShellError::Protocol) },
                    }
                } else {
                    BuiltinOut::Need { action: Action::ListShells }
                }
            } else {
                BuiltinOut::NotBuiltin
            }
        },
        _ => BuiltinOut::NotBuiltin,
    }
}

/// Looks a key up in a list of bindings, first match first, the empty
/// string if absent.
fn lookup_vars(vars: &Vec<EnvVar>, key: &String) -> (r: String)
    ensures
        r@ == (match spec_lookup_env(view_env_vars(vars@), key@) {
            Option::Some(v) => v,
            Option::None => Seq::<char>::empty(),
        }),
{
    let n = vars.len();
    proof {
        assert(view_env_vars(vars@).subrange(0, n as int) =~= view_env_vars(vars@));
    }
    let mut i: usize = 0;
    while i < n
        invariant
            n == vars@.len(),
            i <= n,
            spec_lookup_env(view_env_vars(vars@), key@) == spec_lookup_env(
                view_env_vars(vars@).subrange(i as int, n as int),
                key@,
            ),
        decreases n - i,
    {
        proof {
            assert(view_env_vars(vars@).subrange(i as int, n as int)[0] == view_env_vars(
                vars@,
            )[i as int]);
        }
        if vars[i].key.eq(key) {
            return vars[i].value.clone();
        }
        proof {
            assert(view_env_vars(vars@).subrange(i as int, n as int).subrange(
                1,
                (n - i) as int,
            ) =~= view_env_vars(vars@).subrange(i + 1, n as int));
        }
        i += 1;
    }
    proof {
        assert(view_env_vars(vars@).subrange(n as int, n as int) =~= Seq::<
            (Seq<char>, Seq<char>),
        >::empty());
    }
    String::new()
}

/// Runs the pipeline stages from position `i` on, as [`sp_run_steps`]
/// describes.
fn run_steps(
    steps: &Vec<Command>,
    i: usize,
    stdin: StdinMode,
    stdout: StdoutMode,
    redirect: &Option<String>,
    state: &mut State,
    log: &Vec<Event>,
    pos: &mut usize,
    fuel: u32,
) -> (r: RunStep)
    requires
        i <= steps@.len(),
        old(state).wf(),
        *old(pos) <= log@.len(),
    ensures
        final(state).wf(),
        *old(pos) <= *final(pos) <= log@.len(),
        ({
            let (st2, pos2, step) = sp_run_steps(
                view_commands(steps@).subrange(i as int, steps@.len() as int),
                stdin,
                stdout@,
                view_opt_string(*redirect),
                old(state)@,
                view_events(log@),
                *old(pos) as int,
                fuel as nat,
            );
            final(state)@ == st2 && *final(pos) as int == pos2 && r@ == step
        }),
    decreases fuel, size_commands(view_commands(steps@).subrange(i as int, steps@.len() as int)), 3int,
{
    let ghost sv = view_commands(steps@);
    proof {
        crate::command::lemma_view_commands_len(steps@);
    }
    if i >= steps.len() {
        proof {
            assert(sv.subrange(i as int, sv.len() as int) =~= Seq::<CommandV>::empty());
        }
        RunStep::Done { result: Result::Ok(no_process()) }
    } else {
        proof {
            crate::command::lemma_view_commands_index(steps@, i as int);
            crate::command::lemma_size_commands_split(sv, i as int);
            assert(size_command(sv[i as int]) >= 1);
            assert(sv.subrange(i as int, sv.len() as int)[0] == sv[i as int]);
            assert(sv.subrange(i as int, sv.len() as int).subrange(
                1,
                sv.len() - i as int,
            ) =~= sv.subrange(i + 1, sv.len() as int));
        }
        if i + 1 == steps.len() {
            let out = match redirect {
                Option::Some(p) => StdoutMode::ToFile { path: p.clone() },
                Option::None => stdout,
            };
            steps[i].run_fueled(stdin, out, state, log, pos, fuel)
        } else {
            match steps[i].run_fueled(stdin, StdoutMode::Piped, state, log, pos, fuel) {
                RunStep::Need { action } => RunStep::Need { action },
                RunStep::Done { result } => match result {
                    Result::Err(e) => RunStep::Done { result: Result::Err(e) },
                    Result::Ok(mut res) => {
                        let next_stdin = match res.stdout() {
                            Option::Some(h) => StdinMode::FromHandle { handle: h },
                            Option::None => StdinMode::Null,
                        };
                        run_steps(steps, i + 1, next_stdin, stdout, redirect, state, log, pos, fuel)
                    },
                },
            }
        }
    }
}

impl Command {
    /// Runs this tree with the engine's default alias-expansion bound.  See
    /// [`Command::run_fueled`].
    pub fn run(
        &self,
        stdin: StdinMode,
        stdout: StdoutMode,
        state: &mut State,
        log: &Vec<Event>,
        pos: &mut usize,
    ) -> (r: RunStep)
        requires
            old(state).wf(),
            *old(pos) <= log@.len(),
        ensures
            final(state).wf(),
            *old(pos) <= *final(pos) <= log@.len(),
            ({
                let (st2, pos2, step) = sp_run(
                    self@,
                    stdin,
                    stdout@,
                    old(state)@,
                    view_events(log@),
                    *old(pos) as int,
                    ALIAS_DEPTH_LIMIT as nat,
                );
                final(state)@ == st2 && *final(pos) as int == pos2 && r@ == step
            }),
    {
        self.run_fueled(stdin, stdout, state, log, pos, ALIAS_DEPTH_LIMIT)
    }

    /// Runs this tree against the log of outside outcomes, exactly as
    /// [`sp_run`] describes: the returned step, the state left behind and
    /// the log position all equal the mirror's.
    pub fn run_fueled(
        &self,
        stdin: StdinMode,
        stdout: StdoutMode,
        state: &mut State,
        log: &Vec<Event>,
        pos: &mut usize,
        fuel: u32,
    ) -> (r: RunStep)
        requires
            old(state).wf(),
            *old(pos) <= log@.len(),
        ensures
            final(state).wf(),
            *old(pos) <= *final(pos) <= log@.len(),
            ({
                let (st2, pos2, step) = sp_run(
                    self@,
                    stdin,
                    stdout@,
                    old(state)@,
                    view_events(log@),
                    *old(pos) as int,
                    fuel as nat,
                );
                final(state)@ == st2 && *final(pos) as int == pos2 && r@ == step
            }),
        decreases fuel, size_command(self@), 2int,
    {
        match self {
            Command::Simple { command, args } => {
                proof {
                    let av = view_args(args@);
                    crate::command::lemma_view_args_len(args@);
                    assert(av.subrange(0, av.len() as int) =~= av);
                }
                if command.as_str().unicode_len() == 0 {
                    RunStep::Done { result: Result::Ok(no_process()) }
                } else {
                    match run_builtin(self, state, log, pos, fuel) {
                        BuiltinOut::Need { action } => RunStep::Need { action },
                        BuiltinOut::Done { result } => RunStep::Done { result },
                        BuiltinOut::NotBuiltin => {
                            match state.aliases.lookup(command) {
                                Option::Some(al) => {
                                    if fuel == 0 {
                                        RunStep::Done {
                                            result: Result::Err(ShellError::Recursion),
                                        }
                                    } else {
                                        let merged = concat_args(&al.args, args);
                                        proof {
                                            let mv = view_args(merged@);
                                            crate::command::lemma_view_args_len(merged@);
                                            assert(mv.subrange(0, mv.len() as int) =~= mv);
                                            assert(view_strings(Seq::<String>::empty()) =~= Seq::<
                                                Seq<char>,
                                            >::empty());
                                        }
                                        match eval_args(
                                            &merged,
                                            0,
                                            state,
                                            log,
                                            pos,
                                            fuel - 1,
                                            Vec::new(),
                                        ) {
                                            EvalArgs::Need { action } => RunStep::Need { action },
                                            EvalArgs::Fail { error } => RunStep::Done {
                                                result: Result::Err(error),
                                            },
                                            EvalArgs::Vals { values } => spawn_step(
                                                al.command,
                                                values,
                                                stdin,
                                                stdout,
                                                state,
                                                log,
                                                pos,
                                            ),
                                        }
                                    }
                                },
                                Option::None => {
                                    proof {
                                        assert(view_strings(Seq::<String>::empty()) =~= Seq::<
                                            Seq<char>,
                                        >::empty());
                                    }
                                    match eval_args(args, 0, state, log, pos, fuel, Vec::new()) {
                                        EvalArgs::Need { action } => RunStep::Need { action },
                                        EvalArgs::Fail { error } => RunStep::Done {
                                            result: Result::Err(error),
                                        },
                                        EvalArgs::Vals { values } => spawn_step(
                                            command.clone(),
                                            values,
                                            stdin,
                                            stdout,
                                            state,
                                            log,
                                            pos,
                                        ),
                                    }
                                },
                            }
                        },
                    }
                }
            },
            Command::Pipeline { steps, redirect } => {
                proof {
                    let sv = view_commands(steps@);
                    crate::command::lemma_view_commands_len(steps@);
                    assert(sv.subrange(0, sv.len() as int) =~= sv);
                }
                if steps.len() == 0 {
                    RunStep::Done { result: Result::Ok(no_process()) }
                } else {
                    run_steps(steps, 0, stdin, stdout, redirect, state, log, pos, fuel)
                }
            },
            Command::And { left, right } => {
                match left.run_fueled(stdin, StdoutMode::Inherit, state, log, pos, fuel) {
                    RunStep::Need { action } => RunStep::Need { action },
                    RunStep::Done { result } => match result {
                        Result::Err(e) => RunStep::Done { result: Result::Err(e) },
                        Result::Ok(res) => match res.output {
                            Option::None => right.run_fueled(
                                StdinMode::Null,
                                StdoutMode::Inherit,
                                state,
                                log,
                                pos,
                                fuel,
                            ),
                            Option::Some(h) => {
                                if *pos < log.len() {
                                    let ev = &log[*pos];
                                    *pos += 1;
                                    match ev {
                                        Event::WaitDone { success } => {
                                            if *success {
                                                right.run_fueled(
                                                    StdinMode::Null,
                                                    StdoutMode::Inherit,
                                                    state,
                                                    log,
                                                    pos,
                                                    fuel,
                                                )
                                            } else {
                                                RunStep::Done { result: Result::Ok(res) }
                                            }
                                        },
                                        _ => RunStep::Done {
                                            result: Result::Err(ShellError::Protocol),
                                        },
                                    }
                                } else {
                                    RunStep::Need { action: Action::Wait { handle: h } }
                                }
                            },
                        },
                    },
                }
            },
            Command::Or { left, right } => {
                match left.run_fueled(stdin, StdoutMode::Inherit, state, log, pos, fuel) {
                    RunStep::Need { action } => RunStep::Need { action },
                    RunStep::Done { result } => match result {
                        Result::Err(e) => RunStep::Done { result: Result::Err(e) },
                        Result::Ok(res) => match res.output {
                            Option::None => RunStep::Done { result: Result::Ok(res) },
                            Option::Some(h) => {
                                if *pos < log.len() {
                                    let ev = &log[*pos];
                                    *pos += 1;
                                    match ev {
                                        Event::WaitDone { success } => {
                                            if *success {
                                                RunStep::Done { result: Result::Ok(res) }
                                            } else {
                                                right.run_fueled(
                                                    StdinMode::Null,
                                                    StdoutMode::Inherit,
                                                    state,
                                                    log,
                                                    pos,
                                                    fuel,
                                                )
                                            }
                                        },
                                        _ => RunStep::Done {
                                            result: Result::Err(ShellError::Protocol),
                                        },
                                    }
                                } else {
                                    RunStep::Need { action: Action::Wait { handle: h } }
                                }
                            },
                        },
                    },
                }
            },
        }
    }
}




/// Law: arguments are evaluated left to right, and evaluation of a later
/// argument happens only after the earlier ones succeed.  When the first
/// argument's evaluation fails, the whole list fails right there with that
/// error, and the outcome does not depend on what the remaining arguments
/// are.
pub proof fn lemma_eval_stops_at_first_failure(
    args1: Seq<ArgV>,
    args2: Seq<ArgV>,
    st: StateV,
    log: Seq<EventV>,
    pos: int,
    fuel: nat,
    acc: Seq<Seq<char>>,
    st1: StateV,
    pos1: int,
    e: ShellErrorV,
)
    requires
        args1.len() > 0,
        args2.len() > 0,
        args1[0] == args2[0],
        sp_eval_one(args1[0], st, log, pos, fuel) == (st1, pos1, EvalOneV::Fail { error: e }),
    ensures
        sp_eval_args(args1, st, log, pos, fuel, acc) == (
            st1,
            pos1,
            EvalArgsV::Fail { error: e },
        ),
        sp_eval_args(args1, st, log, pos, fuel, acc) == sp_eval_args(
            args2,
            st,
            log,
            pos,
            fuel,
            acc,
        ),
{
}

/// Law: `And` short-circuits on a failing left operand.  When the left
/// operand's run completes with a process whose wait reports failure, the
/// whole `And` completes right there with the left operand's own result —
/// and the right operand never runs: the outcome does not depend on what
/// stands on the right, so no action of the right operand (in particular no
/// spawn) is ever requested.
pub proof fn lemma_and_short_circuit(
    left: CommandV,
    right1: CommandV,
    right2: CommandV,
    stdin: StdinMode,
    stdout: StdoutModeV,
    st: StateV,
    log: Seq<EventV>,
    pos: int,
    fuel: nat,
    st1: StateV,
    pos1: int,
    res: CommandResult,
    h: u32,
)
    requires
        sp_run(left, stdin, StdoutModeV::Inherit, st, log, pos, fuel) == (
            st1,
            pos1,
            RunStepV::Done { result: Result::<CommandResult, ShellErrorV>::Ok(res) },
        ),
        res.output == Option::Some(h),
        0 <= pos1 < log.len(),
        log[pos1] == (EventV::WaitDone { success: false }),
    ensures
        sp_run(
            CommandV::And { left: Box::new(left), right: Box::new(right1) },
            stdin,
            stdout,
            st,
            log,
            pos,
            fuel,
        ) == (st1, pos1 + 1, RunStepV::Done { result: Result::<CommandResult, ShellErrorV>::Ok(res) }),
        sp_run(
            CommandV::And { left: Box::new(left), right: Box::new(right1) },
            stdin,
            stdout,
            st,
            log,
            pos,
            fuel,
        ) == sp_run(
            CommandV::And { left: Box::new(left), right: Box::new(right2) },
            stdin,
            stdout,
            st,
            log,
            pos,
            fuel,
        ),
{
}

/// Law: `Or` short-circuits on a succeeding left operand.  When the left
/// operand's run completes with a process whose wait reports success, the
/// whole `Or` completes right there with the left operand's own result, and
/// the right operand never runs: the outcome does not depend on what stands
/// on the right.
pub proof fn lemma_or_short_circuit(
    left: CommandV,
    right1: CommandV,
    right2: CommandV,
    stdin: StdinMode,
    stdout: StdoutModeV,
    st: StateV,
    log: Seq<EventV>,
    pos: int,
    fuel: nat,
    st1: StateV,
    pos1: int,
    res: CommandResult,
    h: u32,
)
    requires
        sp_run(left, stdin, StdoutModeV::Inherit, st, log, pos, fuel) == (
            st1,
            pos1,
            RunStepV::Done { result: Result::<CommandResult, ShellErrorV>::Ok(res) },
        ),
        res.output == Option::Some(h),
        0 <= pos1 < log.len(),
        log[pos1] == (EventV::WaitDone { success: true }),
    ensures
        sp_run(
            CommandV::Or { left: Box::new(left), right: Box::new(right1) },
            stdin,
            stdout,
            st,
            log,
            pos,
            fuel,
        ) == (st1, pos1 + 1, RunStepV::Done { result: Result::<CommandResult, ShellErrorV>::Ok(res) }),
        sp_run(
            CommandV::Or { left: Box::new(left), right: Box::new(right1) },
            stdin,
            stdout,
            st,
            log,
            pos,
            fuel,
        ) == sp_run(
            CommandV::Or { left: Box::new(left), right: Box::new(right2) },
            stdin,
            stdout,
            st,
            log,
            pos,
            fuel,
        ),
{
}

/// Law: adjacent pipeline stages are connected by the producing stage's own
/// pipe.  In a two-stage pipeline whose first stage produced a process, the
/// rest of the pipeline is exactly the second stage run with its standard
/// input drawn from that process's output handle: no other source, and
/// nothing in between.  The bytes the consumer reads are therefore exactly
/// the bytes the producer wrote, whatever their volume: both ends are the
/// one pipe the handle names.
pub proof fn lemma_pipeline_connects_stages(
    a: CommandV,
    b: CommandV,
    stdin: StdinMode,
    stdout: StdoutModeV,
    st: StateV,
    log: Seq<EventV>,
    pos: int,
    fuel: nat,
    st1: StateV,
    pos1: int,
    res: CommandResult,
    h: u32,
)
    requires
        sp_run(a, stdin, StdoutModeV::Piped, st, log, pos, fuel) == (
            st1,
            pos1,
            RunStepV::Done { result: Result::<CommandResult, ShellErrorV>::Ok(res) },
        ),
        res.output == Option::Some(h),
        !res.stdout_taken,
    ensures
        sp_run(
            CommandV::Pipeline { steps: seq![a, b], redirect: Option::None },
            stdin,
            stdout,
            st,
            log,
            pos,
            fuel,
        ) == sp_run(b, StdinMode::FromHandle { handle: h }, stdout, st1, log, pos1, fuel),
{
    let steps = seq![a, b];
    assert(steps[0] == a);
    assert(steps.subrange(1, 2) =~= seq![b]);
    assert(size_command(steps[0]) >= 1);
    assert(sp_run_steps(steps, stdin, stdout, Option::None, st, log, pos, fuel)
        == sp_run_steps(seq![b], StdinMode::FromHandle { handle: h }, stdout, Option::None, st1, log, pos1, fuel));
    assert(seq![b][0] == b);
}

/// Law: a failing subcommand argument aborts the whole invocation before
/// any process is spawned.  For an invocation that is no builtin and no
/// alias and whose first argument is a subcommand: when the subcommand's
/// run yields a process whose capture reports a non-zero exit, the whole
/// invocation completes right there with `SubcommandFailed` — no further
/// argument is evaluated, and no spawn of the invocation itself is ever
/// requested.
pub proof fn lemma_subcommand_failure_aborts(
    name: Seq<char>,
    args: Seq<ArgV>,
    sub: CommandV,
    stdin: StdinMode,
    stdout: StdoutModeV,
    st: StateV,
    log: Seq<EventV>,
    pos: int,
    fuel: nat,
    st1: StateV,
    pos1: int,
    res: CommandResult,
    h: u32,
)
    requires
        name.len() > 0,
        name != "cd"@ && name != "set"@ && name != "alias"@ && name != "exit"@,
        name != "copyenv"@ && name != "diffenv"@ && name != "pshl"@,
        spec_lookup_alias(st.aliases, name) is None,
        args.len() > 0,
        args[0] == (ArgV::Subcommand { command: sub }),
        sp_run(sub, StdinMode::Null, StdoutModeV::Piped, st, log, pos, fuel) == (
            st1,
            pos1,
            RunStepV::Done { result: Result::<CommandResult, ShellErrorV>::Ok(res) },
        ),
        res.output == Option::Some(h),
        0 <= pos1 < log.len(),
        log[pos1] matches EventV::CaptureDone { success: false, text: _ },
    ensures
        sp_run(
            CommandV::Simple { command: name, args },
            stdin,
            stdout,
            st,
            log,
            pos,
            fuel,
        ) == (
            st1,
            pos1 + 1,
            RunStepV::Done {
                result: Result::<CommandResult, ShellErrorV>::Err(ShellErrorV::SubcommandFailed),
            },
        ),
{
    let c = CommandV::Simple { command: name, args };
    assert(sp_builtin(c, st, log, pos, fuel) == (st, pos, BuiltinV::NotBuiltin));
    assert(sp_eval_one(args[0], st, log, pos, fuel) == (
        st1,
        pos1 + 1,
        EvalOneV::Fail { error: ShellErrorV::SubcommandFailed },
    ));
    assert(sp_eval_args(args, st, log, pos, fuel, Seq::empty()) == (
        st1,
        pos1 + 1,
        EvalArgsV::Fail { error: ShellErrorV::SubcommandFailed },
    ));
}


} // verus!
