//! The command tree: the abstract syntax produced by the parser and walked by
//! the execution engine, together with its mathematical view.

use vstd::prelude::*;

verus! {

/// One argument of an invocation, before evaluation.
#[derive(Debug)]
pub enum Arg {
    /// Fixed text: a bare word or the content of a quoted literal.
    String { arg_string: String },
    /// A `$NAME` reference, resolved against the environment at evaluation
    /// time.
    Env { var_name: String },
    /// A nested `$(...)` command whose captured standard output becomes the
    /// argument's value.
    Subcommand { command: Command },
}

/// A parsed command tree.
#[derive(Debug)]
pub enum Command {
    /// A single invocation: a command name and its arguments.
    Simple { command: String, args: Vec<Arg> },
    /// Ordered stages joined by `|`; `redirect` optionally names a file that
    /// captures the final stage's standard output.
    Pipeline { steps: Vec<Command>, redirect: Option<String> },
    /// Conditional composition: `right` runs only if `left` succeeds.
    And { left: Box<Command>, right: Box<Command> },
    /// Conditional composition: `right` runs only if `left` fails.
    Or { left: Box<Command>, right: Box<Command> },
}

/// The mathematical shape of an [`Arg`].
pub enum ArgV {
    String { arg_string: Seq<char> },
    Env { var_name: Seq<char> },
    Subcommand { command: CommandV },
}

/// The mathematical shape of a [`Command`].
pub enum CommandV {
    Simple { command: Seq<char>, args: Seq<ArgV> },
    Pipeline { steps: Seq<CommandV>, redirect: Option<Seq<char>> },
    And { left: Box<CommandV>, right: Box<CommandV> },
    Or { left: Box<CommandV>, right: Box<CommandV> },
}

pub open spec fn view_arg(a: Arg) -> ArgV
    decreases a,
{
    match a {
        Arg::String { arg_string } => ArgV::String { arg_string: arg_string@ },
        Arg::Env { var_name } => ArgV::Env { var_name: var_name@ },
        Arg::Subcommand { command } => ArgV::Subcommand { command: view_command(command) },
    }
}

pub open spec fn view_args(args: Seq<Arg>) -> Seq<ArgV>
    decreases args,
{
    if args.len() == 0 {
        Seq::empty()
    } else {
        seq![view_arg(args[0])] + view_args(args.subrange(1, args.len() as int))
    }
}

pub open spec fn view_commands(cs: Seq<Command>) -> Seq<CommandV>
    decreases cs,
{
    if cs.len() == 0 {
        Seq::empty()
    } else {
        seq![view_command(cs[0])] + view_commands(cs.subrange(1, cs.len() as int))
    }
}

pub open spec fn view_opt_string(o: Option<String>) -> Option<Seq<char>> {
    match o {
        Option::Some(s) => Option::Some(s@),
        Option::None => Option::None,
    }
}

pub open spec fn view_command(c: Command) -> CommandV
    decreases c,
{
    match c {
        Command::Simple { command, args } => CommandV::Simple {
            command: command@,
            args: view_args(args@),
        },
        Command::Pipeline { steps, redirect } => CommandV::Pipeline {
            steps: view_commands(steps@),
            redirect: view_opt_string(redirect),
        },
        Command::And { left, right } => CommandV::And {
            left: Box::new(view_command(*left)),
            right: Box::new(view_command(*right)),
        },
        Command::Or { left, right } => CommandV::Or {
            left: Box::new(view_command(*left)),
            right: Box::new(view_command(*right)),
        },
    }
}

impl View for Arg {
    type V = ArgV;

    open spec fn view(&self) -> ArgV {
        view_arg(*self)
    }
}

impl View for Command {
    type V = CommandV;

    open spec fn view(&self) -> CommandV {
        view_command(*self)
    }
}

pub broadcast proof fn lemma_view_args_index(args: Seq<Arg>, i: int)
    requires
        0 <= i < args.len(),
    ensures
        view_args(args).len() == args.len(),
        #[trigger] view_args(args)[i] == view_arg(args[i]),
    decreases args,
{
    if i > 0 {
        lemma_view_args_index(args.subrange(1, args.len() as int), i - 1);
    } else {
        lemma_view_args_len(args.subrange(1, args.len() as int));
    }
}

pub proof fn lemma_view_args_len(args: Seq<Arg>)
    ensures
        view_args(args).len() == args.len(),
    decreases args,
{
    if args.len() > 0 {
        lemma_view_args_len(args.subrange(1, args.len() as int));
    }
}

pub broadcast proof fn lemma_view_commands_index(cs: Seq<Command>, i: int)
    requires
        0 <= i < cs.len(),
    ensures
        view_commands(cs).len() == cs.len(),
        #[trigger] view_commands(cs)[i] == view_command(cs[i]),
    decreases cs,
{
    if i > 0 {
        lemma_view_commands_index(cs.subrange(1, cs.len() as int), i - 1);
    } else {
        lemma_view_commands_len(cs.subrange(1, cs.len() as int));
    }
}

pub proof fn lemma_view_commands_len(cs: Seq<Command>)
    ensures
        view_commands(cs).len() == cs.len(),
    decreases cs,
{
    if cs.len() > 0 {
        lemma_view_commands_len(cs.subrange(1, cs.len() as int));
    }
}

/// Appending an argument appends its view.
pub proof fn lemma_view_args_push(args: Seq<Arg>, a: Arg)
    ensures
        view_args(args.push(a)) == view_args(args).push(view_arg(a)),
{
    let pushed = args.push(a);
    lemma_view_args_len(pushed);
    lemma_view_args_len(args);
    assert forall|i: int| 0 <= i < pushed.len() implies view_args(pushed)[i] == view_args(
        args,
    ).push(view_arg(a))[i] by {
        lemma_view_args_index(pushed, i);
        if i < args.len() {
            lemma_view_args_index(args, i);
            assert(pushed[i] == args[i]);
        } else {
            assert(pushed[i] == a);
        }
    }
    assert(view_args(pushed) =~= view_args(args).push(view_arg(a)));
}

/// Appending a stage appends its view.
pub proof fn lemma_view_commands_push(cs: Seq<Command>, c: Command)
    ensures
        view_commands(cs.push(c)) == view_commands(cs).push(view_command(c)),
{
    let pushed = cs.push(c);
    lemma_view_commands_len(pushed);
    lemma_view_commands_len(cs);
    assert forall|i: int| 0 <= i < pushed.len() implies view_commands(pushed)[i] == view_commands(
        cs,
    ).push(view_command(c))[i] by {
        lemma_view_commands_index(pushed, i);
        if i < cs.len() {
            lemma_view_commands_index(cs, i);
            assert(pushed[i] == cs[i]);
        } else {
            assert(pushed[i] == c);
        }
    }
    assert(view_commands(pushed) =~= view_commands(cs).push(view_command(c)));
}

/// The size of a command view: a termination measure for every function that
/// walks a tree, including walks that pass through subcommand arguments.
pub open spec fn size_command(c: CommandV) -> nat
    decreases c,
{
    match c {
        CommandV::Simple { command, args } => 1 + size_args(args),
        CommandV::Pipeline { steps, redirect } => 1 + size_commands(steps),
        CommandV::And { left, right } => 1 + size_command(*left) + size_command(*right),
        CommandV::Or { left, right } => 1 + size_command(*left) + size_command(*right),
    }
}

pub open spec fn size_arg(a: ArgV) -> nat
    decreases a,
{
    match a {
        ArgV::String { .. } => 1,
        ArgV::Env { .. } => 1,
        ArgV::Subcommand { command } => 1 + size_command(command),
    }
}

pub open spec fn size_args(args: Seq<ArgV>) -> nat
    decreases args,
{
    if args.len() == 0 {
        0
    } else {
        size_arg(args[0]) + size_args(args.subrange(1, args.len() as int))
    }
}

pub open spec fn size_commands(cs: Seq<CommandV>) -> nat
    decreases cs,
{
    if cs.len() == 0 {
        0
    } else {
        size_command(cs[0]) + size_commands(cs.subrange(1, cs.len() as int))
    }
}

/// Splitting a sequence of arguments at any point splits its size.
pub proof fn lemma_size_args_split(args: Seq<ArgV>, i: int)
    requires
        0 <= i < args.len(),
    ensures
        size_args(args.subrange(i, args.len() as int)) == size_arg(args[i]) + size_args(
            args.subrange(i + 1, args.len() as int),
        ),
    decreases i,
{
    if i == 0 {
        assert(args.subrange(0, args.len() as int) == args);
        assert(args.subrange(0, args.len() as int)[0] == args[0]);
    } else {
        let tail = args.subrange(1, args.len() as int);
        lemma_size_args_split(tail, i - 1);
        assert(args.subrange(i, args.len() as int) == tail.subrange(i - 1, tail.len() as int));
        assert(args.subrange(i + 1, args.len() as int) == tail.subrange(i, tail.len() as int));
        assert(tail[i - 1] == args[i]);
    }
}

/// Splitting a sequence of pipeline stages at any point splits its size.
pub proof fn lemma_size_commands_split(cs: Seq<CommandV>, i: int)
    requires
        0 <= i < cs.len(),
    ensures
        size_commands(cs.subrange(i, cs.len() as int)) == size_command(cs[i]) + size_commands(
            cs.subrange(i + 1, cs.len() as int),
        ),
    decreases i,
{
    if i == 0 {
        assert(cs.subrange(0, cs.len() as int) == cs);
        assert(cs.subrange(0, cs.len() as int)[0] == cs[0]);
    } else {
        let tail = cs.subrange(1, cs.len() as int);
        lemma_size_commands_split(tail, i - 1);
        assert(cs.subrange(i, cs.len() as int) == tail.subrange(i - 1, tail.len() as int));
        assert(cs.subrange(i + 1, cs.len() as int) == tail.subrange(i, tail.len() as int));
        assert(tail[i - 1] == cs[i]);
    }
}

impl Clone for Arg {
    /// A deep copy whose view is the view of the original.
    fn clone(&self) -> (res: Self)
        ensures
            res@ == self@,
        decreases size_arg(self@),
    {
        match self {
            Arg::String { arg_string } => Arg::String { arg_string: arg_string.clone() },
            Arg::Env { var_name } => Arg::Env { var_name: var_name.clone() },
            Arg::Subcommand { command } => Arg::Subcommand { command: command.clone() },
        }
    }
}

impl Clone for Command {
    /// A deep copy whose view is the view of the original.
    fn clone(&self) -> (res: Self)
        ensures
            res@ == self@,
        decreases size_command(self@),
    {
        match self {
            Command::Simple { command, args } => {
                let mut args2: Vec<Arg> = Vec::new();
                let ghost args0 = args@;
                let n = args.len();
                let mut i: usize = 0;
                while i < n
                    invariant
                        n == args0.len(),
                        args@ == args0,
                        i <= n,
                        args2@.len() == i,
                        forall|j: int| 0 <= j < i ==> #[trigger] args2@[j]@ == args0[j]@,
                        *self == (Command::Simple { command: *command, args: *args }),
                    decreases n - i,
                {
                    proof {
                        let av = view_args(args0);
                        lemma_view_args_index(args0, i as int);
                        lemma_size_args_split(av, i as int);
                        lemma_size_args_prefix(av, i as int);
                    }
                    let a = args[i].clone();
                    args2.push(a);
                    i += 1;
                }
                proof {
                    assert(view_args(args2@) =~= view_args(args0)) by {
                        lemma_view_args_len(args2@);
                        lemma_view_args_len(args0);
                        assert forall|j: int| 0 <= j < args0.len() implies view_args(args2@)[j]
                            == view_args(args0)[j] by {
                            lemma_view_args_index(args2@, j);
                            lemma_view_args_index(args0, j);
                            assert(args2@[j]@ == args0[j]@);
                        }
                    }
                }
                Command::Simple { command: command.clone(), args: args2 }
            },
            Command::Pipeline { steps, redirect } => {
                let mut steps2: Vec<Command> = Vec::new();
                let ghost steps0 = steps@;
                let n = steps.len();
                let mut i: usize = 0;
                while i < n
                    invariant
                        n == steps0.len(),
                        steps@ == steps0,
                        i <= n,
                        steps2@.len() == i,
                        forall|j: int| 0 <= j < i ==> #[trigger] steps2@[j]@ == steps0[j]@,
                        *self == (Command::Pipeline { steps: *steps, redirect: *redirect }),
                    decreases n - i,
                {
                    proof {
                        let sv = view_commands(steps0);
                        lemma_view_commands_index(steps0, i as int);
                        lemma_size_commands_split(sv, i as int);
                        lemma_size_commands_prefix(sv, i as int);
                    }
                    let c = steps[i].clone();
                    steps2.push(c);
                    i += 1;
                }
                proof {
                    assert(view_commands(steps2@) =~= view_commands(steps0)) by {
                        lemma_view_commands_len(steps2@);
                        lemma_view_commands_len(steps0);
                        assert forall|j: int| 0 <= j < steps0.len() implies view_commands(
                            steps2@,
                        )[j] == view_commands(steps0)[j] by {
                            lemma_view_commands_index(steps2@, j);
                            lemma_view_commands_index(steps0, j);
                            assert(steps2@[j]@ == steps0[j]@);
                        }
                    }
                }
                let redirect2 = match redirect {
                    Option::Some(r) => Option::Some(r.clone()),
                    Option::None => Option::None,
                };
                Command::Pipeline { steps: steps2, redirect: redirect2 }
            },
            Command::And { left, right } => Command::And {
                left: Box::new((**left).clone()),
                right: Box::new((**right).clone()),
            },
            Command::Or { left, right } => Command::Or {
                left: Box::new((**left).clone()),
                right: Box::new((**right).clone()),
            },
        }
    }
}

/// The size of a suffix of an argument list never exceeds the whole list's.
pub proof fn lemma_size_args_prefix(args: Seq<ArgV>, i: int)
    requires
        0 <= i <= args.len(),
    ensures
        size_args(args.subrange(i, args.len() as int)) <= size_args(args),
    decreases i,
{
    if i > 0 {
        lemma_size_args_split(args, i - 1);
        lemma_size_args_prefix(args, i - 1);
    } else {
        assert(args.subrange(0, args.len() as int) == args);
    }
}

/// The size of a suffix of a stage list never exceeds the whole list's.
pub proof fn lemma_size_commands_prefix(cs: Seq<CommandV>, i: int)
    requires
        0 <= i <= cs.len(),
    ensures
        size_commands(cs.subrange(i, cs.len() as int)) <= size_commands(cs),
    decreases i,
{
    if i > 0 {
        lemma_size_commands_split(cs, i - 1);
        lemma_size_commands_prefix(cs, i - 1);
    } else {
        assert(cs.subrange(0, cs.len() as int) == cs);
    }
}


/// The textual rendering of an argument, as the alias listing shows it: a
/// literal as its text, a variable reference as `$NAME`, a subcommand as
/// `$(...)`.
pub open spec fn sp_render_arg(a: ArgV) -> Seq<char>
    decreases a,
{
    match a {
        ArgV::String { arg_string } => arg_string,
        ArgV::Env { var_name } => seq!['$'] + var_name,
        ArgV::Subcommand { command } => "$("@ + sp_render_command(command) + ")"@,
    }
}

/// The rendering of an argument list: one space before each argument.
pub open spec fn sp_render_args(args: Seq<ArgV>) -> Seq<char>
    decreases args,
{
    if args.len() == 0 {
        Seq::empty()
    } else {
        seq![' '] + sp_render_arg(args[0]) + sp_render_args(args.subrange(1, args.len() as int))
    }
}

/// The rendering of pipeline stages, joined by ` | `.
pub open spec fn sp_render_steps(steps: Seq<CommandV>) -> Seq<char>
    decreases steps,
{
    if steps.len() == 0 {
        Seq::empty()
    } else if steps.len() == 1 {
        sp_render_command(steps[0])
    } else {
        sp_render_command(steps[0]) + " | "@ + sp_render_steps(
            steps.subrange(1, steps.len() as int),
        )
    }
}

/// The textual rendering of a command tree, in the grammar's own notation.
pub open spec fn sp_render_command(c: CommandV) -> Seq<char>
    decreases c,
{
    match c {
        CommandV::Simple { command, args } => command + sp_render_args(args),
        CommandV::Pipeline { steps, redirect } => sp_render_steps(steps) + (match redirect {
            Option::Some(p) => " > "@ + p,
            Option::None => Seq::<char>::empty(),
        }),
        CommandV::And { left, right } => sp_render_command(*left) + " && "@ + sp_render_command(
            *right,
        ),
        CommandV::Or { left, right } => sp_render_command(*left) + " || "@ + sp_render_command(
            *right,
        ),
    }
}

impl Arg {
    /// Renders the argument as [`sp_render_arg`] describes.
    pub fn render(&self) -> (r: String)
        ensures
            r@ == sp_render_arg(self@),
        decreases size_arg(self@), 0int,
    {
        match self {
            Arg::String { arg_string } => arg_string.clone(),
            Arg::Env { var_name } => {
                let mut s = String::from_str("$");
                s.append(var_name.as_str());
                proof {
                    reveal_strlit("$");
                    assert(s@ =~= seq!['$'] + var_name@);
                }
                s
            },
            Arg::Subcommand { command } => {
                let mut s = String::from_str("$(");
                let inner = command.render();
                s.append(inner.as_str());
                s.append(")");
                s
            },
        }
    }
}

/// Renders ` arg ...` for each argument of `args` from position `i` on.
pub(crate) fn render_args_from(args: &Vec<Arg>, i: usize) -> (r: String)
    requires
        i <= args@.len(),
    ensures
        r@ == sp_render_args(view_args(args@).subrange(i as int, args@.len() as int)),
    decreases size_args(view_args(args@).subrange(i as int, args@.len() as int)), 3int,
{
    let ghost av = view_args(args@);
    proof {
        lemma_view_args_len(args@);
    }
    if i < args.len() {
        proof {
            lemma_view_args_index(args@, i as int);
            lemma_size_args_split(av, i as int);
            assert(size_arg(av[i as int]) >= 1);
        }
        let mut s = String::from_str(" ");
        let a = args[i].render();
        s.append(a.as_str());
        let rest = render_args_from(args, i + 1);
        s.append(rest.as_str());
        proof {
            reveal_strlit(" ");
            let sub = av.subrange(i as int, av.len() as int);
            assert(sub[0] == av[i as int]);
            assert(sub.subrange(1, sub.len() as int) =~= av.subrange(i + 1, av.len() as int));
            assert(s@ =~= sp_render_args(sub));
        }
        s
    } else {
        proof {
            assert(av.subrange(i as int, av.len() as int) =~= Seq::<ArgV>::empty());
        }
        String::new()
    }
}

/// Renders `stage | stage | ...` for the stages of `steps` from `i` on.
fn render_steps_from(steps: &Vec<Command>, i: usize) -> (r: String)
    requires
        i <= steps@.len(),
    ensures
        r@ == sp_render_steps(view_commands(steps@).subrange(i as int, steps@.len() as int)),
    decreases size_commands(view_commands(steps@).subrange(i as int, steps@.len() as int)), 3int,
{
    let ghost sv = view_commands(steps@);
    proof {
        lemma_view_commands_len(steps@);
    }
    if i < steps.len() {
        proof {
            lemma_view_commands_index(steps@, i as int);
            lemma_size_commands_split(sv, i as int);
            assert(size_command(sv[i as int]) >= 1);
        }
        let ghost sub = sv.subrange(i as int, sv.len() as int);
        let mut s = steps[i].render();
        if i + 1 < steps.len() {
            s.append(" | ");
            let rest = render_steps_from(steps, i + 1);
            s.append(rest.as_str());
            proof {
                assert(sub[0] == sv[i as int]);
                assert(sub.subrange(1, sub.len() as int) =~= sv.subrange(i + 1, sv.len() as int));
                assert(s@ =~= sp_render_steps(sub));
            }
        } else {
            proof {
                assert(sub.len() == 1);
                assert(sub[0] == sv[i as int]);
            }
        }
        s
    } else {
        proof {
            assert(sv.subrange(i as int, sv.len() as int) =~= Seq::<CommandV>::empty());
        }
        String::new()
    }
}

impl Command {
    /// Renders the tree as [`sp_render_command`] describes: the line one
    /// would type to obtain it, up to whitespace.
    pub fn render(&self) -> (r: String)
        ensures
            r@ == sp_render_command(self@),
        decreases size_command(self@), 2int,
    {
        match self {
            Command::Simple { command, args } => {
                let mut s = command.clone();
                proof {
                    let av = view_args(args@);
                    assert(av.subrange(0, av.len() as int) =~= av);
                    lemma_view_args_len(args@);
                }
                let rest = render_args_from(args, 0);
                s.append(rest.as_str());
                s
            },
            Command::Pipeline { steps, redirect } => {
                proof {
                    let sv = view_commands(steps@);
                    assert(sv.subrange(0, sv.len() as int) =~= sv);
                    lemma_view_commands_len(steps@);
                }
                let mut s = render_steps_from(steps, 0);
                match redirect {
                    Option::Some(p) => {
                        s.append(" > ");
                        s.append(p.as_str());
                    },
                    Option::None => {},
                }
                s
            },
            Command::And { left, right } => {
                let mut s = left.render();
                s.append(" && ");
                let r2 = right.render();
                s.append(r2.as_str());
                s
            },
            Command::Or { left, right } => {
                let mut s = left.render();
                s.append(" || ");
                let r2 = right.render();
                s.append(r2.as_str());
                s
            },
        }
    }
}

/// The result of running one command tree: the handle of the process whose
/// exit the caller must await, if the run produced one.  Builtins and empty
/// pipelines produce no process.
///
/// The standard-output end of the process's pipe can be taken exactly once,
/// which enforces single-ownership transfer of the pipe end between adjacent
/// pipeline stages.
#[derive(Debug, Clone, Copy, PartialEq, Eq, Structural)]
pub struct CommandResult {
    /// The handle of the spawned process, if any.
    pub output: Option<u32>,
    /// Whether the output stream has already been taken.
    pub stdout_taken: bool,
}

impl CommandResult {
    /// Removes and returns the process's output stream exactly once: a second
    /// call, or a call on a result that holds no process, returns `None`.
    pub fn stdout(&mut self) -> (r: Option<u32>)
        ensures
            r == (if old(self).output is Some && !old(self).stdout_taken {
                old(self).output
            } else {
                Option::<u32>::None
            }),
            final(self).output == old(self).output,
            final(self).stdout_taken == (old(self).stdout_taken || old(self).output is Some),
    {
        match self.output {
            Option::Some(h) => {
                if self.stdout_taken {
                    Option::None
                } else {
                    self.stdout_taken = true;
                    Option::Some(h)
                }
            },
            Option::None => Option::None,
        }
    }
}

} // verus!
