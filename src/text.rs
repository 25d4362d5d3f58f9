//! Decimal notation of integers, and indentation of multi-line text.
use vstd::prelude::*;
use vstd::string::*;

verus! {

/// The character of decimal digit `d`.
pub open spec fn digit_char(d: nat) -> char {
    if d == 0 {
        '0'
    } else if d == 1 {
        '1'
    } else if d == 2 {
        '2'
    } else if d == 3 {
        '3'
    } else if d == 4 {
        '4'
    } else if d == 5 {
        '5'
    } else if d == 6 {
        '6'
    } else if d == 7 {
        '7'
    } else if d == 8 {
        '8'
    } else {
        '9'
    }
}

/// The decimal notation of `n`, without leading zeros.
pub open spec fn decimal(n: nat) -> Seq<char>
    decreases n,
{
    if n < 10 {
        seq![digit_char(n)]
    } else {
        decimal(n / 10) + seq![digit_char(n % 10)]
    }
}

fn digit_str(d: u64) -> (r: &'static str)
    requires
        d < 10,
    ensures
        r@ == seq![digit_char(d as nat)],
{
    proof {
        reveal_strlit("0");
        reveal_strlit("1");
        reveal_strlit("2");
        reveal_strlit("3");
        reveal_strlit("4");
        reveal_strlit("5");
        reveal_strlit("6");
        reveal_strlit("7");
        reveal_strlit("8");
        reveal_strlit("9");
    }
    match d {
        0 => "0",
        1 => "1",
        2 => "2",
        3 => "3",
        4 => "4",
        5 => "5",
        6 => "6",
        7 => "7",
        8 => "8",
        _ => "9",
    }
}

/// Appends the decimal notation of `n` to `out`.
pub fn push_decimal(out: &mut String, n: u64)
    ensures
        final(out)@ == old(out)@ + decimal(n as nat),
    decreases n,
{
    if n < 10 {
        out.append(digit_str(n));
    } else {
        push_decimal(out, n / 10);
        out.append(digit_str(n % 10));
        assert(out@ =~= old(out)@ + decimal(n as nat));
    }
}

/// `text` with `indentation` inserted at the start of each non-empty line; `at_line_start` tells
/// whether the first character starts a line.
pub open spec fn indent_lines(text: Seq<char>, indentation: Seq<char>, at_line_start: bool) -> Seq<
    char,
>
    decreases text.len(),
{
    if text.len() == 0 {
        Seq::empty()
    } else if text[0] == '\n' {
        seq!['\n'] + indent_lines(text.drop_first(), indentation, true)
    } else if at_line_start {
        indentation + seq![text[0]] + indent_lines(text.drop_first(), indentation, false)
    } else {
        seq![text[0]] + indent_lines(text.drop_first(), indentation, false)
    }
}

/// Relies on `indenter::indented(..).with_str(indentation)`: written through it, text comes out
/// with `indentation` before each non-empty line, the first line included.
#[verifier::external_body]
pub fn indent_text(text: &str, indentation: &'static str) -> (r: String)
    ensures
        r@ == indent_lines(text@, indentation@, true),
{
    let mut out = String::new();
    let mut writer = indenter::indented(&mut out).with_str(indentation);
    let _ = std::fmt::Write::write_str(&mut writer, text);
    out
}

} // verus!
