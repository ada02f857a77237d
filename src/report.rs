//! Framed context lines for diagnostics.

use vstd::prelude::*;
use vstd::string::*;

verus! {

/// The decimal digit `d` as a character.
pub open spec fn digit_char(d: nat) -> char {
    if d == 0 {
        '0'
    } else if d == 1 {
        '1'
    } else if d == 2 {
        '2'
    } else if d == 3 {
        '3'
    } else if d == 4 {
        '4'
    } else if d == 5 {
        '5'
    } else if d == 6 {
        '6'
    } else if d == 7 {
        '7'
    } else if d == 8 {
        '8'
    } else {
        '9'
    }
}

/// `n` written in decimal, without leading zeros.
pub open spec fn decimal(n: nat) -> Seq<char>
    decreases n,
{
    if n < 10 {
        seq![digit_char(n)]
    } else {
        decimal(n / 10) + seq![digit_char(n % 10)]
    }
}

/// The framed text that [`here`] returns.
pub open spec fn here_spec(ctx: Seq<char>, line: u32, col: u32) -> Seq<char> {
    "~~~~~~~~~~~~~~~~~~~ \n \n "@ + ctx + " \n line "@ + decimal(line as nat) + " | column "@
        + decimal(col as nat) + " \n ________________________"@
}

fn digit_str(d: u32) -> (r: &'static str)
    requires
        d < 10,
    ensures
        r@ == seq![digit_char(d as nat)],
{
    proof {
        reveal_strlit("0");
        reveal_strlit("1");
        reveal_strlit("2");
        reveal_strlit("3");
        reveal_strlit("4");
        reveal_strlit("5");
        reveal_strlit("6");
        reveal_strlit("7");
        reveal_strlit("8");
        reveal_strlit("9");
    }
    let r = match d {
        0 => "0",
        1 => "1",
        2 => "2",
        3 => "3",
        4 => "4",
        5 => "5",
        6 => "6",
        7 => "7",
        8 => "8",
        _ => "9",
    };
    assert(r@ =~= seq![digit_char(d as nat)]);
    r
}

fn push_decimal(s: &mut String, n: u32)
    ensures
        final(s)@ == old(s)@ + decimal(n as nat),
    decreases n,
{
    if n >= 10 {
        push_decimal(s, n / 10);
    }
    s.append(digit_str(n % 10));
    assert(s@ =~= old(s)@ + decimal(n as nat));
}

/// Frames `ctx` with the source position `line` and `col` for a diagnostic.
pub fn here(ctx: &str, line: u32, col: u32) -> (r: String)
    ensures
        r@ == here_spec(ctx@, line, col),
{
    let mut s = String::new();
    s.append("~~~~~~~~~~~~~~~~~~~ \n \n ");
    s.append(ctx);
    s.append(" \n line ");
    push_decimal(&mut s, line);
    s.append(" | column ");
    push_decimal(&mut s, col);
    s.append(" \n ________________________");
    assert(s@ =~= here_spec(ctx@, line, col));
    s
}

} // verus!
