//! What the interactive loop computes between reading a line and printing
//! the next prompt: loading the startup state from the alias-definition
//! file's lines, rendering the working-directory prompt segment, and
//! rendering the failure marker shown after a command exits non-zero.
//!
//! The reading of files and of the terminal stays outside; these functions
//! take the line contents and environment as plain values.

use owo_colors::OwoColorize;
use vstd::prelude::*;

use crate::errors::ShellError;
use crate::parser::{parse_alias, sp_parse_aliasdef};
use crate::sock::{sp_u32_digits, u32_to_string};
use crate::state::{
    sp_alias_insert, sp_env_set, AliasTable, AliasV, EnvTable, EnvVar, State, StateV,
};

verus! {

/// The alias table that a list of definition lines builds up, each line
/// parsed with the alias-definition grammar and inserted in order; nothing
/// if some line does not parse.
pub open spec fn sp_load_aliases_from(
    lines: Seq<Seq<char>>,
    i: int,
    acc: Seq<AliasV>,
) -> Option<Seq<AliasV>>
    decreases lines.len() - i when 0 <= i <= lines.len()
{
    if i >= lines.len() {
        Option::Some(acc)
    } else {
        match sp_parse_aliasdef(lines[i]) {
            Option::Some(a) => sp_load_aliases_from(lines, i + 1, sp_alias_insert(acc, a)),
            Option::None => Option::None,
        }
    }
}

/// The environment that a list of bindings builds up, set in order, a later
/// binding of a key overriding an earlier one.
pub open spec fn sp_load_env_from(
    pairs: Seq<(Seq<char>, Seq<char>)>,
    i: int,
    acc: Seq<(Seq<char>, Seq<char>)>,
) -> Seq<(Seq<char>, Seq<char>)>
    decreases pairs.len() - i when 0 <= i <= pairs.len()
{
    if i >= pairs.len() {
        acc
    } else {
        sp_load_env_from(pairs, i + 1, sp_env_set(acc, pairs[i]))
    }
}

/// Builds the shell's startup state: the aliases from the definition
/// file's lines, the environment from the process's bindings, and the
/// identity fields.  Fails with a syntax error exactly when some alias
/// line does not parse.
pub fn load_state(
    alias_lines: &Vec<String>,
    env_pairs: &Vec<EnvVar>,
    history_path: String,
    own_pid: u32,
) -> (r: Result<State, ShellError>)
    ensures
        match r {
            Result::Ok(st) => st.wf() && sp_load_aliases_from(
                crate::engine::view_strings(alias_lines@),
                0,
                Seq::empty(),
            ) == Option::Some(st@.aliases) && st@.env == sp_load_env_from(
                crate::engine::view_env_vars(env_pairs@),
                0,
                Seq::empty(),
            ) && st@.history_path == history_path@ && st@.current_command is None
                && st@.running_pid is None && st@.own_pid == own_pid,
            Result::Err(e) => e == ShellError::Syntax && sp_load_aliases_from(
                crate::engine::view_strings(alias_lines@),
                0,
                Seq::empty(),
            ) is None,
        },
{
    let ghost linesv = crate::engine::view_strings(alias_lines@);
    let mut aliases = AliasTable::new();
    let mut i: usize = 0;
    while i < alias_lines.len()
        invariant
            linesv == crate::engine::view_strings(alias_lines@),
            0 <= i <= alias_lines@.len(),
            aliases.wf(),
            sp_load_aliases_from(linesv, 0, Seq::empty()) == sp_load_aliases_from(
                linesv,
                i as int,
                aliases@,
            ),
        decreases alias_lines@.len() - i,
    {
        match parse_alias(alias_lines[i].as_str()) {
            Result::Ok(a) => {
                aliases.insert(a);
            },
            Result::Err(_) => {
                return Result::Err(ShellError::Syntax);
            },
        }
        i += 1;
    }
    let ghost pairsv = crate::engine::view_env_vars(env_pairs@);
    let mut env = EnvTable::new();
    let mut j: usize = 0;
    while j < env_pairs.len()
        invariant
            pairsv == crate::engine::view_env_vars(env_pairs@),
            0 <= j <= env_pairs@.len(),
            env.wf(),
            sp_load_env_from(pairsv, 0, Seq::empty()) == sp_load_env_from(
                pairsv,
                j as int,
                env@,
            ),
        decreases env_pairs@.len() - j,
    {
        let key = env_pairs[j].key.clone();
        let value = env_pairs[j].value.clone();
        env.set(key, value);
        j += 1;
    }
    Result::Ok(
        State {
            aliases,
            env,
            history_path,
            current_command: Option::None,
            running_pid: Option::None,
            own_pid,
        },
    )
}

/// The ANSI rendering of text in yellow.
pub open spec fn sp_yellow(s: Seq<char>) -> Seq<char> {
    "\u{1b}[33m"@ + s + "\u{1b}[39m"@
}

/// The ANSI rendering of text in bright blue.
pub open spec fn sp_bright_blue(s: Seq<char>) -> Seq<char> {
    "\u{1b}[94m"@ + s + "\u{1b}[39m"@
}

/// The ANSI rendering of white text on a red background: the combined
/// foreground-and-background escape, the text, and the full reset.
pub open spec fn sp_white_on_red(s: Seq<char>) -> Seq<char> {
    "\u{1b}[37;41m"@ + s + "\u{1b}[0m"@
}

/// Relies on owo_colors' `OwoColorize::yellow`: displaying the styled value
/// writes the yellow foreground escape, the text, and the foreground reset.
#[verifier::external_body]
fn fg_yellow(s: &str) -> (r: String)
    ensures
        r@ == sp_yellow(s@),
{
    format!("{}", s.yellow())
}

/// Relies on owo_colors' `OwoColorize::bright_blue`: displaying the styled
/// value writes the bright-blue foreground escape, the text, and the
/// foreground reset.
#[verifier::external_body]
fn fg_bright_blue(s: &str) -> (r: String)
    ensures
        r@ == sp_bright_blue(s@),
{
    format!("{}", s.bright_blue())
}

/// Relies on owo_colors' `OwoColorize::white` and `OwoColorize::on_red`:
/// the chained styles display as one combined escape naming both colors,
/// the text, and the full style reset.
#[verifier::external_body]
fn fg_white_on_red(s: &str) -> (r: String)
    ensures
        r@ == sp_white_on_red(s@),
{
    format!("{}", s.white().on_red())
}

/// Whether the working directory lies under the home directory: it is the
/// home directory itself, or continues it at a path-component boundary.
pub open spec fn sp_under_home(pwd: Seq<char>, home: Seq<char>) -> bool {
    pwd == home || (pwd.len() > home.len() && pwd.subrange(0, home.len() as int) == home && pwd[home.len() as int]
        == '/')
}

/// The part of the working directory below the home directory.
pub open spec fn sp_home_rest(pwd: Seq<char>, home: Seq<char>) -> Seq<char> {
    if pwd == home {
        Seq::empty()
    } else {
        pwd.subrange(home.len() as int + 1, pwd.len() as int)
    }
}

/// The prompt's working-directory segment: `~/rest` with the rest in
/// yellow when the directory lies under home, the whole path in bright
/// blue otherwise.
pub open spec fn sp_path_prompt(pwd: Seq<char>, home: Seq<char>) -> Seq<char> {
    if sp_under_home(pwd, home) {
        "~/"@ + sp_yellow(sp_home_rest(pwd, home))
    } else {
        sp_bright_blue(pwd)
    }
}

/// Renders the prompt's working-directory segment, as [`sp_path_prompt`]
/// describes.
pub fn path_prompt(pwd: &String, home: &String) -> (r: String)
    ensures
        r@ == sp_path_prompt(pwd@, home@),
{
    let ps = pwd.as_str();
    let hs = home.as_str();
    let pn = ps.unicode_len();
    let hn = hs.unicode_len();
    let under = if pwd.eq(home) {
        true
    } else if pn > hn {
        let prefix = ps.substring_char(0, hn);
        let prefix_owned = String::from_str(prefix);
        prefix_owned.eq(home) && ps.get_char(hn) == '/'
    } else {
        false
    };
    if under {
        let rest = if pwd.eq(home) {
            String::new()
        } else {
            String::from_str(ps.substring_char(hn + 1, pn))
        };
        let mut s = String::from_str("~/");
        let colored = fg_yellow(rest.as_str());
        s.append(colored.as_str());
        s
    } else {
        fg_bright_blue(ps)
    }
}

/// The prompt marker that follows a command: empty after success, the exit
/// code on a red field followed by `>` after a failure.
pub open spec fn sp_status_marker(success: bool, code: nat) -> Seq<char> {
    if success {
        Seq::empty()
    } else {
        sp_white_on_red(sp_u32_digits(code)) + ">"@
    }
}

/// Renders the prompt marker for the last command's exit, as
/// [`sp_status_marker`] describes.
pub fn status_marker(success: bool, code: u32) -> (r: String)
    ensures
        r@ == sp_status_marker(success, code as nat),
{
    if success {
        String::new()
    } else {
        let num = u32_to_string(code);
        let mut s = fg_white_on_red(num.as_str());
        s.append(">");
        s
    }
}

/// The report printed for a startup-file line that failed: its number and
/// the failure's description.
pub open spec fn sp_rc_line_error(num: nat, message: Seq<char>) -> Seq<char> {
    "Error on line "@ + sp_u32_digits(num) + " of rc file: "@ + message
}

/// Renders the report for a failed startup-file line, as
/// [`sp_rc_line_error`] describes.
pub fn rc_line_error(num: u32, message: &String) -> (r: String)
    ensures
        r@ == sp_rc_line_error(num as nat, message@),
{
    let mut s = String::from_str("Error on line ");
    let n = u32_to_string(num);
    s.append(n.as_str());
    s.append(" of rc file: ");
    s.append(message.as_str());
    s
}

} // verus!
