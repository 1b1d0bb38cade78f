//! The grammar and the parser: one input line becomes a [`Command`] tree.
//!
//! The grammar, tightest binding first:
//!
//! - an *invocation* is a command word followed by argument tokens: a bare
//!   word, a quoted literal (`"..."`, escape-unaware), a variable reference
//!   (`$NAME`), or a subcommand (`$(...)`, optionally wrapped in quotes as
//!   `"$(...)"`);
//! - a *pipeline* is one or more invocations joined by `|`, optionally ended
//!   by a redirection `> path` that attaches to the pipeline as a whole;
//! - a *chain* is one or more pipelines joined by `&&` or `||`, grouped to
//!   the right: `a && b || c` parses as `a && (b || c)`.
//!
//! Whitespace may stand between any two tokens; trailing whitespace is
//! consumed; any other unconsumed suffix is a syntax error.
//!
//! Every parsing function is mirrored by a specification function over the
//! line's character sequence, and returns exactly what its mirror denotes.
//! The mirrors carry index sanity guards (`if j <= i { ... }`) so that their
//! recursion visibly terminates; the guarded branches are never taken, as the
//! executable parser's contracts show.

use vstd::prelude::*;

use crate::command::{
    lemma_view_args_push, lemma_view_commands_push, view_args, view_commands, Arg, ArgV, Command,
    CommandV,
};
use crate::errors::ShellError;
use crate::state::{Alias, AliasV};

verus! {

/// Characters that separate tokens.
pub open spec fn is_space(c: char) -> bool {
    c == ' ' || c == '\t' || c == '\r' || c == '\n'
}

/// Characters a bare word may consist of: anything except whitespace and the
/// grammar's delimiters.
pub open spec fn is_word_char(c: char) -> bool {
    !is_space(c) && c != '"' && c != '$' && c != '&' && c != '(' && c != ')' && c != '|' && c
        != '>'
}

/// Characters a variable name may consist of.
pub open spec fn is_name_char(c: char) -> bool {
    ('a' <= c && c <= 'z') || ('A' <= c && c <= 'Z') || ('0' <= c && c <= '9') || c == '_'
}

/// The first position at or after `i` that does not hold whitespace.
pub open spec fn sp_skip_ws(s: Seq<char>, i: int) -> int
    decreases s.len() - i when 0 <= i <= s.len()
{
    if i < s.len() && is_space(s[i]) {
        sp_skip_ws(s, i + 1)
    } else {
        i
    }
}

/// The first position at or after `i` that does not hold a word character.
pub open spec fn sp_word_end(s: Seq<char>, i: int) -> int
    decreases s.len() - i when 0 <= i <= s.len()
{
    if i < s.len() && is_word_char(s[i]) {
        sp_word_end(s, i + 1)
    } else {
        i
    }
}

/// The first position at or after `i` that does not hold a name character.
pub open spec fn sp_name_end(s: Seq<char>, i: int) -> int
    decreases s.len() - i when 0 <= i <= s.len()
{
    if i < s.len() && is_name_char(s[i]) {
        sp_name_end(s, i + 1)
    } else {
        i
    }
}

/// The position of the first `"` at or after `i`, or the length if none.
pub open spec fn sp_quote_end(s: Seq<char>, i: int) -> int
    decreases s.len() - i when 0 <= i <= s.len()
{
    if i < s.len() && s[i] != '"' {
        sp_quote_end(s, i + 1)
    } else {
        i
    }
}

/// A bare word at `i`: its text and the position after it.  Empty words do
/// not parse.
pub open spec fn sp_word(s: Seq<char>, i: int) -> Option<(Seq<char>, int)> {
    let j = sp_word_end(s, i);
    if j > i {
        Option::Some((s.subrange(i, j), j))
    } else {
        Option::None
    }
}

/// One argument token at `i` (no leading whitespace): a subcommand, a
/// variable reference, a quoted literal, or a bare word.
pub open spec fn sp_arg(s: Seq<char>, i: int) -> Option<(ArgV, int)>
    decreases s.len() - i, 1int when 0 <= i <= s.len()
{
    if i < s.len() && s[i] == '$' {
        if i + 1 < s.len() && s[i + 1] == '(' {
            match sp_bin(s, i + 2) {
                Option::Some((c, j)) => if j <= i + 2 || j > s.len() {
                    Option::None  // unreachable: parsing always advances
                } else {
                    let k = sp_skip_ws(s, j);
                    if k < j || k > s.len() {
                        Option::None  // unreachable
                    } else if k < s.len() && s[k] == ')' {
                        Option::Some((ArgV::Subcommand { command: c }, k + 1))
                    } else {
                        Option::None
                    }
                },
                Option::None => Option::None,
            }
        } else {
            let j = sp_name_end(s, i + 1);
            if j > i + 1 {
                Option::Some((ArgV::Env { var_name: s.subrange(i + 1, j) }, j))
            } else {
                Option::None
            }
        }
    } else if i < s.len() && s[i] == '"' {
        if i + 1 < s.len() && s[i + 1] == '$' && i + 2 < s.len() && s[i + 2] == '(' {
            match sp_bin(s, i + 3) {
                Option::Some((c, j)) => if j <= i + 3 || j > s.len() {
                    Option::None  // unreachable
                } else {
                    let k = sp_skip_ws(s, j);
                    if k < j || k > s.len() {
                        Option::None  // unreachable
                    } else if k < s.len() && s[k] == ')' && k + 1 < s.len() && s[k + 1] == '"' {
                        Option::Some((ArgV::Subcommand { command: c }, k + 2))
                    } else {
                        Option::None
                    }
                },
                Option::None => Option::None,
            }
        } else {
            let j = sp_quote_end(s, i + 1);
            if j < s.len() {
                Option::Some((ArgV::String { arg_string: s.subrange(i + 1, j) }, j + 1))
            } else {
                Option::None
            }
        }
    } else {
        match sp_word(s, i) {
            Option::Some((w, j)) => Option::Some((ArgV::String { arg_string: w }, j)),
            Option::None => Option::None,
        }
    }
}

/// The argument tokens after a command word: `acc` holds those already
/// parsed.  Stops, without consuming, at the first position whose token
/// cannot begin an argument.
pub open spec fn sp_args(s: Seq<char>, i: int, command: Seq<char>, acc: Seq<ArgV>) -> Option<
    (CommandV, int),
>
    decreases s.len() - i, 2int when 0 <= i <= s.len()
{
    let k = sp_skip_ws(s, i);
    if k < i || k > s.len() {
        Option::None  // unreachable
    } else if k < s.len() && (is_word_char(s[k]) || s[k] == '"' || s[k] == '$') {
        match sp_arg(s, k) {
            Option::Some((a, j)) => if j <= k || j > s.len() {
                Option::None  // unreachable
            } else {
                sp_args(s, j, command, acc.push(a))
            },
            Option::None => Option::None,
        }
    } else {
        Option::Some((CommandV::Simple { command, args: acc }, i))
    }
}

/// An invocation: leading whitespace, a command word, then arguments.
pub open spec fn sp_invocation(s: Seq<char>, i: int) -> Option<(CommandV, int)>
    decreases s.len() - i, 4int when 0 <= i <= s.len()
{
    let k = sp_skip_ws(s, i);
    if k < i || k > s.len() {
        Option::None  // unreachable
    } else {
        match sp_word(s, k) {
            Option::Some((w, j)) => if j <= k || j > s.len() {
                Option::None  // unreachable
            } else {
                sp_args(s, j, w, Seq::empty())
            },
            Option::None => Option::None,
        }
    }
}

/// The rest of a pipeline after its stages in `steps`: further `|` stages,
/// then an optional `> path` redirection.
pub open spec fn sp_pipe_rest(s: Seq<char>, i: int, steps: Seq<CommandV>) -> Option<
    (CommandV, int),
>
    decreases s.len() - i, 3int when 0 <= i <= s.len()
{
    let k = sp_skip_ws(s, i);
    if k < i || k > s.len() {
        Option::None  // unreachable
    } else if k < s.len() && s[k] == '|' && !(k + 1 < s.len() && s[k + 1] == '|') {
        match sp_invocation(s, k + 1) {
            Option::Some((inv, j)) => if j <= k + 1 || j > s.len() {
                Option::None  // unreachable
            } else {
                sp_pipe_rest(s, j, steps.push(inv))
            },
            Option::None => Option::None,
        }
    } else if k < s.len() && s[k] == '>' {
        let m = sp_skip_ws(s, k + 1);
        if m < k + 1 || m > s.len() {
            Option::None  // unreachable
        } else {
            match sp_word(s, m) {
                Option::Some((w, j)) => Option::Some(
                    (CommandV::Pipeline { steps, redirect: Option::Some(w) }, j),
                ),
                Option::None => Option::None,
            }
        }
    } else {
        Option::Some((CommandV::Pipeline { steps, redirect: Option::None }, i))
    }
}

/// A pipeline: one or more invocations joined by `|`, with an optional
/// trailing redirection.
pub open spec fn sp_pipeline(s: Seq<char>, i: int) -> Option<(CommandV, int)>
    decreases s.len() - i, 5int when 0 <= i <= s.len()
{
    match sp_invocation(s, i) {
        Option::Some((inv, j)) => if j <= i || j > s.len() {
            Option::None  // unreachable
        } else {
            sp_pipe_rest(s, j, seq![inv])
        },
        Option::None => Option::None,
    }
}

/// A conditional chain: pipelines joined by `&&` or `||`.  The chain is
/// right-associative: the whole rest of the chain becomes the right operand
/// of the first operator.
pub open spec fn sp_bin(s: Seq<char>, i: int) -> Option<(CommandV, int)>
    decreases s.len() - i, 6int when 0 <= i <= s.len()
{
    match sp_pipeline(s, i) {
        Option::Some((p, j)) => if j <= i || j > s.len() {
            Option::None  // unreachable
        } else {
            let k = sp_skip_ws(s, j);
            if k < j || k > s.len() {
                Option::None  // unreachable
            } else if k < s.len() && s[k] == '&' && k + 1 < s.len() && s[k + 1] == '&' {
                match sp_bin(s, k + 2) {
                    Option::Some((rest, j2)) => Option::Some(
                        (CommandV::And { left: Box::new(p), right: Box::new(rest) }, j2),
                    ),
                    Option::None => Option::None,
                }
            } else if k < s.len() && s[k] == '|' && k + 1 < s.len() && s[k + 1] == '|' {
                match sp_bin(s, k + 2) {
                    Option::Some((rest, j2)) => Option::Some(
                        (CommandV::Or { left: Box::new(p), right: Box::new(rest) }, j2),
                    ),
                    Option::None => Option::None,
                }
            } else {
                Option::Some((p, j))
            }
        },
        Option::None => Option::None,
    }
}

/// What a whole line parses to: a chain that consumes the line up to
/// trailing whitespace, or nothing.
pub open spec fn sp_parse(s: Seq<char>) -> Option<CommandV> {
    match sp_bin(s, 0) {
        Option::Some((c, j)) => if 0 <= j <= s.len() && sp_skip_ws(s, j) == s.len() {
            Option::Some(c)
        } else {
            Option::None
        },
        Option::None => Option::None,
    }
}

/// What one line of the alias-definition file parses to: the form
/// `name -> command arg...`, consuming the whole line.
pub open spec fn sp_parse_aliasdef(s: Seq<char>) -> Option<AliasV> {
    let k = sp_skip_ws(s, 0);
    if k < 0 || k > s.len() {
        Option::None  // unreachable
    } else {
        match sp_word(s, k) {
            Option::Some((name, j)) => if j <= k || j > s.len() {
                Option::None  // unreachable
            } else {
                let k2 = sp_skip_ws(s, j);
                if k2 < j || k2 > s.len() {
                    Option::None  // unreachable
                } else if k2 < s.len() && s[k2] == '-' && k2 + 1 < s.len() && s[k2 + 1] == '>' {
                    match sp_invocation(s, k2 + 2) {
                        Option::Some((c, j2)) => if j2 < 0 || j2 > s.len() {
                            Option::None  // unreachable
                        } else if sp_skip_ws(s, j2) == s.len() {
                            match c {
                                CommandV::Simple { command, args } => Option::Some(
                                    AliasV { alias: name, command, args },
                                ),
                                _ => Option::None,
                            }
                        } else {
                            Option::None
                        },
                        Option::None => Option::None,
                    }
                } else {
                    Option::None
                }
            },
            Option::None => Option::None,
        }
    }
}

pub(crate) fn is_space_e(c: char) -> (b: bool)
    ensures
        b == is_space(c),
{
    c == ' ' || c == '\t' || c == '\r' || c == '\n'
}

fn is_word_char_e(c: char) -> (b: bool)
    ensures
        b == is_word_char(c),
{
    !(c == ' ' || c == '\t' || c == '\r' || c == '\n') && c != '"' && c != '$' && c != '&' && c
        != '(' && c != ')' && c != '|' && c != '>'
}

fn is_name_char_e(c: char) -> (b: bool)
    ensures
        b == is_name_char(c),
{
    ('a' <= c && c <= 'z') || ('A' <= c && c <= 'Z') || ('0' <= c && c <= '9') || c == '_'
}

pub(crate) fn skip_ws_e(s: &str, n: usize, i: usize) -> (r: usize)
    requires
        n == s@.len(),
        i <= n,
    ensures
        r as int == sp_skip_ws(s@, i as int),
        i <= r <= n,
{
    let mut j = i;
    while j < n && is_space_e(s.get_char(j))
        invariant
            n == s@.len(),
            i <= j <= n,
            sp_skip_ws(s@, i as int) == sp_skip_ws(s@, j as int),
        decreases n - j,
    {
        j += 1;
    }
    j
}

fn word_end_e(s: &str, n: usize, i: usize) -> (r: usize)
    requires
        n == s@.len(),
        i <= n,
    ensures
        r as int == sp_word_end(s@, i as int),
        i <= r <= n,
{
    let mut j = i;
    while j < n && is_word_char_e(s.get_char(j))
        invariant
            n == s@.len(),
            i <= j <= n,
            sp_word_end(s@, i as int) == sp_word_end(s@, j as int),
        decreases n - j,
    {
        j += 1;
    }
    j
}

fn name_end_e(s: &str, n: usize, i: usize) -> (r: usize)
    requires
        n == s@.len(),
        i <= n,
    ensures
        r as int == sp_name_end(s@, i as int),
        i <= r <= n,
{
    let mut j = i;
    while j < n && is_name_char_e(s.get_char(j))
        invariant
            n == s@.len(),
            i <= j <= n,
            sp_name_end(s@, i as int) == sp_name_end(s@, j as int),
        decreases n - j,
    {
        j += 1;
    }
    j
}

fn quote_end_e(s: &str, n: usize, i: usize) -> (r: usize)
    requires
        n == s@.len(),
        i <= n,
    ensures
        r as int == sp_quote_end(s@, i as int),
        i <= r <= n,
{
    let mut j = i;
    while j < n && s.get_char(j) != '"'
        invariant
            n == s@.len(),
            i <= j <= n,
            sp_quote_end(s@, i as int) == sp_quote_end(s@, j as int),
        decreases n - j,
    {
        j += 1;
    }
    j
}

fn p_word(s: &str, n: usize, i: usize) -> (r: Option<(String, usize)>)
    requires
        n == s@.len(),
        i <= n,
    ensures
        match r {
            Option::Some(p) => sp_word(s@, i as int) == Option::Some((p.0@, p.1 as int)) && i
                < p.1 <= n,
            Option::None => sp_word(s@, i as int) is None,
        },
{
    let j = word_end_e(s, n, i);
    if j > i {
        let w = String::from_str(s.substring_char(i, j));
        Option::Some((w, j))
    } else {
        Option::None
    }
}

fn p_arg(s: &str, n: usize, i: usize) -> (r: Option<(Arg, usize)>)
    requires
        n == s@.len(),
        i <= n,
    ensures
        match r {
            Option::Some(p) => sp_arg(s@, i as int) == Option::Some((p.0@, p.1 as int)) && i < p.1
                <= n,
            Option::None => sp_arg(s@, i as int) is None,
        },
    decreases n - i, 1int,
{
    if i < n && s.get_char(i) == '$' {
        if i + 1 < n && s.get_char(i + 1) == '(' {
            match p_bin(s, n, i + 2) {
                Option::Some((c, j)) => {
                    let k = skip_ws_e(s, n, j);
                    if k < n && s.get_char(k) == ')' {
                        Option::Some((Arg::Subcommand { command: c }, k + 1))
                    } else {
                        Option::None
                    }
                },
                Option::None => Option::None,
            }
        } else {
            let j = name_end_e(s, n, i + 1);
            if j > i + 1 {
                let name = String::from_str(s.substring_char(i + 1, j));
                Option::Some((Arg::Env { var_name: name }, j))
            } else {
                Option::None
            }
        }
    } else if i < n && s.get_char(i) == '"' {
        if i + 1 < n && s.get_char(i + 1) == '$' && i + 2 < n && s.get_char(i + 2) == '(' {
            match p_bin(s, n, i + 3) {
                Option::Some((c, j)) => {
                    let k = skip_ws_e(s, n, j);
                    if k < n && s.get_char(k) == ')' && k + 1 < n && s.get_char(k + 1) == '"' {
                        Option::Some((Arg::Subcommand { command: c }, k + 2))
                    } else {
                        Option::None
                    }
                },
                Option::None => Option::None,
            }
        } else {
            let j = quote_end_e(s, n, i + 1);
            if j < n {
                let content = String::from_str(s.substring_char(i + 1, j));
                Option::Some((Arg::String { arg_string: content }, j + 1))
            } else {
                Option::None
            }
        }
    } else {
        match p_word(s, n, i) {
            Option::Some((w, j)) => Option::Some((Arg::String { arg_string: w }, j)),
            Option::None => Option::None,
        }
    }
}

fn p_args(s: &str, n: usize, i: usize, command: String, acc: Vec<Arg>) -> (r: Option<
    (Command, usize),
>)
    requires
        n == s@.len(),
        i <= n,
    ensures
        match r {
            Option::Some(p) => sp_args(s@, i as int, command@, view_args(acc@)) == Option::Some(
                (p.0@, p.1 as int),
            ) && i <= p.1 <= n,
            Option::None => sp_args(s@, i as int, command@, view_args(acc@)) is None,
        },
    decreases n - i, 2int,
{
    let k = skip_ws_e(s, n, i);
    let start = if k < n {
        let c = s.get_char(k);
        is_word_char_e(c) || c == '"' || c == '$'
    } else {
        false
    };
    if start {
        match p_arg(s, n, k) {
            Option::Some((a, j)) => {
                let ghost accv = view_args(acc@);
                let mut acc2 = acc;
                proof {
                    lemma_view_args_push(acc2@, a);
                }
                acc2.push(a);
                p_args(s, n, j, command, acc2)
            },
            Option::None => Option::None,
        }
    } else {
        Option::Some((Command::Simple { command, args: acc }, i))
    }
}

fn p_invocation(s: &str, n: usize, i: usize) -> (r: Option<(Command, usize)>)
    requires
        n == s@.len(),
        i <= n,
    ensures
        match r {
            Option::Some(p) => sp_invocation(s@, i as int) == Option::Some((p.0@, p.1 as int)) && i
                < p.1 <= n,
            Option::None => sp_invocation(s@, i as int) is None,
        },
    decreases n - i, 4int,
{
    let k = skip_ws_e(s, n, i);
    match p_word(s, n, k) {
        Option::Some((w, j)) => {
            proof {
                assert(view_args(Seq::<Arg>::empty()) =~= Seq::<ArgV>::empty());
            }
            p_args(s, n, j, w, Vec::new())
        },
        Option::None => Option::None,
    }
}

fn p_pipe_rest(s: &str, n: usize, i: usize, steps: Vec<Command>) -> (r: Option<(Command, usize)>)
    requires
        n == s@.len(),
        i <= n,
    ensures
        match r {
            Option::Some(p) => sp_pipe_rest(s@, i as int, view_commands(steps@)) == Option::Some(
                (p.0@, p.1 as int),
            ) && i <= p.1 <= n,
            Option::None => sp_pipe_rest(s@, i as int, view_commands(steps@)) is None,
        },
    decreases n - i, 3int,
{
    let k = skip_ws_e(s, n, i);
    if k < n && s.get_char(k) == '|' && !(k + 1 < n && s.get_char(k + 1) == '|') {
        match p_invocation(s, n, k + 1) {
            Option::Some((inv, j)) => {
                let mut steps2 = steps;
                proof {
                    lemma_view_commands_push(steps2@, inv);
                }
                steps2.push(inv);
                p_pipe_rest(s, n, j, steps2)
            },
            Option::None => Option::None,
        }
    } else if k < n && s.get_char(k) == '>' {
        let m = skip_ws_e(s, n, k + 1);
        match p_word(s, n, m) {
            Option::Some((w, j)) => Option::Some(
                (Command::Pipeline { steps, redirect: Option::Some(w) }, j),
            ),
            Option::None => Option::None,
        }
    } else {
        Option::Some((Command::Pipeline { steps, redirect: Option::None }, i))
    }
}

fn p_pipeline(s: &str, n: usize, i: usize) -> (r: Option<(Command, usize)>)
    requires
        n == s@.len(),
        i <= n,
    ensures
        match r {
            Option::Some(p) => sp_pipeline(s@, i as int) == Option::Some((p.0@, p.1 as int)) && i
                < p.1 <= n,
            Option::None => sp_pipeline(s@, i as int) is None,
        },
    decreases n - i, 5int,
{
    match p_invocation(s, n, i) {
        Option::Some((inv, j)) => {
            let mut steps: Vec<Command> = Vec::new();
            proof {
                assert(view_commands(Seq::<Command>::empty()) =~= Seq::<CommandV>::empty());
                lemma_view_commands_push(steps@, inv);
                assert(Seq::<CommandV>::empty().push(inv@) =~= seq![inv@]);
            }
            steps.push(inv);
            p_pipe_rest(s, n, j, steps)
        },
        Option::None => Option::None,
    }
}

fn p_bin(s: &str, n: usize, i: usize) -> (r: Option<(Command, usize)>)
    requires
        n == s@.len(),
        i <= n,
    ensures
        match r {
            Option::Some(p) => sp_bin(s@, i as int) == Option::Some((p.0@, p.1 as int)) && i < p.1
                <= n,
            Option::None => sp_bin(s@, i as int) is None,
        },
    decreases n - i, 6int,
{
    match p_pipeline(s, n, i) {
        Option::Some((p, j)) => {
            let k = skip_ws_e(s, n, j);
            if k < n && s.get_char(k) == '&' && k + 1 < n && s.get_char(k + 1) == '&' {
                match p_bin(s, n, k + 2) {
                    Option::Some((rest, j2)) => Option::Some(
                        (Command::And { left: Box::new(p), right: Box::new(rest) }, j2),
                    ),
                    Option::None => Option::None,
                }
            } else if k < n && s.get_char(k) == '|' && k + 1 < n && s.get_char(k + 1) == '|' {
                match p_bin(s, n, k + 2) {
                    Option::Some((rest, j2)) => Option::Some(
                        (Command::Or { left: Box::new(p), right: Box::new(rest) }, j2),
                    ),
                    Option::None => Option::None,
                }
            } else {
                Option::Some((p, j))
            }
        },
        Option::None => Option::None,
    }
}

/// Parses one input line into a command tree.
///
/// Returns `Ok` exactly when the grammar derives a chain that consumes the
/// whole line (trailing whitespace aside); any line with trailing unconsumed
/// characters, an unterminated quote, or a missing command name is rejected
/// with [`ShellError::Syntax`], and that is the only error this function
/// returns.
pub fn parse_pest(input_line: &str) -> (r: Result<Command, ShellError>)
    ensures
        match r {
            Result::Ok(c) => sp_parse(input_line@) == Option::Some(c@),
            Result::Err(e) => sp_parse(input_line@) is None && e == ShellError::Syntax,
        },
{
    let n = input_line.unicode_len();
    match p_bin(input_line, n, 0) {
        Option::Some((c, j)) => {
            let k = skip_ws_e(input_line, n, j);
            if k == n {
                Result::Ok(c)
            } else {
                Result::Err(ShellError::Syntax)
            }
        },
        Option::None => Result::Err(ShellError::Syntax),
    }
}

/// Parses one line of the alias-definition file: `name -> command arg...`.
///
/// Returns `Ok` exactly when the line has that shape and is consumed whole;
/// every other line is rejected with [`ShellError::Syntax`].
pub fn parse_alias(alias_line: &str) -> (r: Result<Alias, ShellError>)
    ensures
        match r {
            Result::Ok(a) => sp_parse_aliasdef(alias_line@) == Option::Some(a@),
            Result::Err(e) => sp_parse_aliasdef(alias_line@) is None && e == ShellError::Syntax,
        },
{
    let n = alias_line.unicode_len();
    let k = skip_ws_e(alias_line, n, 0);
    match p_word(alias_line, n, k) {
        Option::Some((name, j)) => {
            let k2 = skip_ws_e(alias_line, n, j);
            if k2 < n && alias_line.get_char(k2) == '-' && k2 + 1 < n && alias_line.get_char(
                k2 + 1,
            ) == '>' {
                match p_invocation(alias_line, n, k2 + 2) {
                    Option::Some((c, j2)) => {
                        if skip_ws_e(alias_line, n, j2) == n {
                            match c {
                                Command::Simple { command, args } => Result::Ok(
                                    Alias { alias: name, command, args },
                                ),
                                _ => Result::Err(ShellError::Syntax),
                            }
                        } else {
                            Result::Err(ShellError::Syntax)
                        }
                    },
                    Option::None => Result::Err(ShellError::Syntax),
                }
            } else {
                Result::Err(ShellError::Syntax)
            }
        },
        Option::None => Result::Err(ShellError::Syntax),
    }
}

/// Law: a line with trailing unconsumed characters does not parse, no matter
/// how much of its prefix would parse on its own: if the chain grammar
/// derives a tree from a proper prefix and what follows is not all
/// whitespace, the line as a whole parses to nothing, and `parse_pest`
/// therefore rejects it with a syntax error.
pub proof fn lemma_trailing_text_rejected(s: Seq<char>, c: CommandV, j: int)
    requires
        sp_bin(s, 0) == Option::Some((c, j)),
        0 <= j <= s.len(),
        sp_skip_ws(s, j) != s.len(),
    ensures
        sp_parse(s) is None,
{
}

/// Law: conditional chains group to the right.  Whenever a pipeline is
/// followed by `&&`, the whole remaining chain becomes the right operand of
/// that one `And` node; so `a && b || c` parses as `And(a, Or(b, c))` and
/// never as `Or(And(a, b), c)`.
pub proof fn lemma_chain_right_associative_and(
    s: Seq<char>,
    i: int,
    p: CommandV,
    j: int,
    rest: CommandV,
    j2: int,
)
    requires
        0 <= i <= s.len(),
        sp_pipeline(s, i) == Option::Some((p, j)),
        i < j <= s.len(),
        sp_skip_ws(s, j) >= j,
        sp_skip_ws(s, j) + 1 < s.len(),
        s[sp_skip_ws(s, j)] == '&',
        s[sp_skip_ws(s, j) + 1] == '&',
        sp_bin(s, sp_skip_ws(s, j) + 2) == Option::Some((rest, j2)),
    ensures
        sp_bin(s, i) == Option::Some(
            (CommandV::And { left: Box::new(p), right: Box::new(rest) }, j2),
        ),
{
}

/// Law: the same, for `||`: the whole remaining chain becomes the right
/// operand of the one `Or` node.
pub proof fn lemma_chain_right_associative_or(
    s: Seq<char>,
    i: int,
    p: CommandV,
    j: int,
    rest: CommandV,
    j2: int,
)
    requires
        0 <= i <= s.len(),
        sp_pipeline(s, i) == Option::Some((p, j)),
        i < j <= s.len(),
        sp_skip_ws(s, j) >= j,
        sp_skip_ws(s, j) + 1 < s.len(),
        s[sp_skip_ws(s, j)] == '|',
        s[sp_skip_ws(s, j) + 1] == '|',
        sp_bin(s, sp_skip_ws(s, j) + 2) == Option::Some((rest, j2)),
    ensures
        sp_bin(s, i) == Option::Some(
            (CommandV::Or { left: Box::new(p), right: Box::new(rest) }, j2),
        ),
{
}

} // verus!
