//! The per-process socket path convention: every shell instance is
//! reachable under a well-known runtime directory at a path derived from
//! its process id, which is how instances discover one another.

use vstd::prelude::*;

verus! {

/// The decimal digit character of a value below ten.
pub open spec fn sp_digit(d: nat) -> char {
    if d == 0 {
        '0'
    } else if d == 1 {
        '1'
    } else if d == 2 {
        '2'
    } else if d == 3 {
        '3'
    } else if d == 4 {
        '4'
    } else if d == 5 {
        '5'
    } else if d == 6 {
        '6'
    } else if d == 7 {
        '7'
    } else if d == 8 {
        '8'
    } else {
        '9'
    }
}

/// The decimal rendering of a number, most significant digit first, no
/// leading zeroes (a single `0` for zero).
pub open spec fn sp_u32_digits(n: nat) -> Seq<char>
    decreases n,
{
    if n < 10 {
        seq![sp_digit(n)]
    } else {
        proof {
            vstd::arithmetic::div_mod::lemma_div_is_strictly_smaller(n as int, 10);
        }
        sp_u32_digits(n / 10) + seq![sp_digit(n % 10)]
    }
}

fn digit_str(d: u32) -> (r: String)
    requires
        d < 10,
    ensures
        r@ == seq![sp_digit(d as nat)],
{
    proof {
        reveal_strlit("0");
        reveal_strlit("1");
        reveal_strlit("2");
        reveal_strlit("3");
        reveal_strlit("4");
        reveal_strlit("5");
        reveal_strlit("6");
        reveal_strlit("7");
        reveal_strlit("8");
        reveal_strlit("9");
    }
    let r = if d == 0 {
        String::from_str("0")
    } else if d == 1 {
        String::from_str("1")
    } else if d == 2 {
        String::from_str("2")
    } else if d == 3 {
        String::from_str("3")
    } else if d == 4 {
        String::from_str("4")
    } else if d == 5 {
        String::from_str("5")
    } else if d == 6 {
        String::from_str("6")
    } else if d == 7 {
        String::from_str("7")
    } else if d == 8 {
        String::from_str("8")
    } else {
        String::from_str("9")
    };
    proof {
        assert(r@ =~= seq![sp_digit(d as nat)]);
    }
    r
}

/// Renders a number in decimal, as [`sp_u32_digits`] describes.
pub fn u32_to_string(n: u32) -> (r: String)
    ensures
        r@ == sp_u32_digits(n as nat),
    decreases n,
{
    if n < 10 {
        digit_str(n)
    } else {
        proof {
            vstd::arithmetic::div_mod::lemma_div_is_strictly_smaller(n as int, 10);
        }
        let mut s = u32_to_string(n / 10);
        let d = digit_str(n % 10);
        s.append(d.as_str());
        s
    }
}

/// The socket path of the shell instance with the given process id.
pub open spec fn sp_sock_path(pid: nat) -> Seq<char> {
    "/tmp/psh/"@ + sp_u32_digits(pid) + "/service.sock"@
}

/// Builds the socket path of the shell instance with the given process id,
/// as [`sp_sock_path`] describes.
pub fn sock_path_from_pid(pid: u32) -> (r: String)
    ensures
        r@ == sp_sock_path(pid as nat),
{
    let mut s = String::from_str("/tmp/psh/");
    let num = u32_to_string(pid);
    s.append(num.as_str());
    s.append("/service.sock");
    s
}

} // verus!
