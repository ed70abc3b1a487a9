//! The text that a verbose run prints.
use vstd::prelude::*;
use crate::runcmd::{OutputModel, RunCmdOutput};

verus! {

/// The character of a decimal digit.
pub open spec fn digit_char(d: nat) -> char {
    if d == 0 {
        '0'
    } else if d == 1 {
        '1'
    } else if d == 2 {
        '2'
    } else if d == 3 {
        '3'
    } else if d == 4 {
        '4'
    } else if d == 5 {
        '5'
    } else if d == 6 {
        '6'
    } else if d == 7 {
        '7'
    } else if d == 8 {
        '8'
    } else {
        '9'
    }
}

/// The decimal digits of `n`, most significant first, without leading zeros.
pub open spec fn digits(n: nat) -> Seq<char>
    decreases n,
{
    if n < 10 {
        seq![digit_char(n)]
    } else {
        digits(n / 10).push(digit_char(n % 10))
    }
}

/// `n` written in decimal, with a leading '-' when negative.
pub open spec fn decimal(n: int) -> Seq<char> {
    if n < 0 {
        seq!['-'] + digits((-n) as nat)
    } else {
        digits(n as nat)
    }
}

/// The report of one run: the command, both streams and the exit code, each
/// block followed by a blank line.
pub open spec fn report_text(m: OutputModel) -> Seq<char> {
    "cmd:\n '"@ + m.cmd + "'\n\n"@ + "stdout:\n '"@ + m.stdout + "'\n\n"@ + "stderr:\n '"@
        + m.stderr + "'\n\n"@ + "exitcode: '"@ + decimal(m.exitcode as int) + "'\n\n"@
}

fn digit_str(d: u32) -> (r: &'static str)
    requires
        d < 10,
    ensures
        r@ == seq![digit_char(d as nat)],
{
    proof {
        reveal_strlit("0");
        reveal_strlit("1");
        reveal_strlit("2");
        reveal_strlit("3");
        reveal_strlit("4");
        reveal_strlit("5");
        reveal_strlit("6");
        reveal_strlit("7");
        reveal_strlit("8");
        reveal_strlit("9");
    }
    match d {
        0 => "0",
        1 => "1",
        2 => "2",
        3 => "3",
        4 => "4",
        5 => "5",
        6 => "6",
        7 => "7",
        8 => "8",
        _ => "9",
    }
}

fn push_digits(s: &mut String, n: u32)
    ensures
        final(s)@ == old(s)@ + digits(n as nat),
    decreases n,
{
    if n >= 10 {
        push_digits(s, n / 10);
    }
    s.append(digit_str(n % 10));
    assert(final(s)@ =~= old(s)@ + digits(n as nat));
}

/// Append `n` in decimal to `s`.
pub fn push_decimal(s: &mut String, n: i32)
    ensures
        final(s)@ == old(s)@ + decimal(n as int),
{
    if n < 0 {
        s.append("-");
        proof {
            reveal_strlit("-");
        }
        let magnitude: u32 = (-(n as i64)) as u32;
        push_digits(s, magnitude);
        assert(final(s)@ =~= old(s)@ + decimal(n as int));
    } else {
        push_digits(s, n as u32);
    }
}

/// The report text of one run result.
pub fn report_of(o: &RunCmdOutput) -> (r: String)
    ensures
        r@ == report_text(o@),
{
    let mut s = String::new();
    s.append("cmd:\n '");
    s.append(o.cmd.as_str());
    s.append("'\n\n");
    s.append("stdout:\n '");
    s.append(o.stdout.as_str());
    s.append("'\n\n");
    s.append("stderr:\n '");
    s.append(o.stderr.as_str());
    s.append("'\n\n");
    s.append("exitcode: '");
    push_decimal(&mut s, o.exitcode);
    s.append("'\n\n");
    assert(s@ =~= report_text(o@));
    s
}

} // verus!
