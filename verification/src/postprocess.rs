use crate::words::{push_char, word_views};
use vstd::prelude::*;

verus! {

/// The character of one decimal digit.
pub open spec fn digit(d: nat) -> char {
    if d == 0 {
        '0'
    } else if d == 1 {
        '1'
    } else if d == 2 {
        '2'
    } else if d == 3 {
        '3'
    } else if d == 4 {
        '4'
    } else if d == 5 {
        '5'
    } else if d == 6 {
        '6'
    } else if d == 7 {
        '7'
    } else if d == 8 {
        '8'
    } else {
        '9'
    }
}

/// A number written in decimal, without sign or leading zeros.
pub open spec fn decimal(n: nat) -> Seq<char>
    decreases n,
{
    if n < 10 {
        seq![digit(n)]
    } else {
        decimal(n / 10).push(digit(n % 10))
    }
}

/// The arguments handed to the image tool: trim `raw` to its content, reset
/// the canvas offset, add a white border of `border` pixels, write `output`.
pub open spec fn tool_arguments(raw: Seq<char>, output: Seq<char>, border: u32) -> Seq<Seq<char>> {
    seq![
        raw,
        "-trim"@,
        "+repage"@,
        "-border"@,
        decimal(border as nat),
        "-bordercolor"@,
        "white"@,
        output,
    ]
}

fn digit_char(d: u32) -> (ch: char)
    requires
        d < 10,
    ensures
        ch == digit(d as nat),
{
    if d == 0 {
        '0'
    } else if d == 1 {
        '1'
    } else if d == 2 {
        '2'
    } else if d == 3 {
        '3'
    } else if d == 4 {
        '4'
    } else if d == 5 {
        '5'
    } else if d == 6 {
        '6'
    } else if d == 7 {
        '7'
    } else if d == 8 {
        '8'
    } else {
        '9'
    }
}

fn push_decimal(text: &mut String, n: u32)
    ensures
        final(text)@ == old(text)@ + decimal(n as nat),
    decreases n,
{
    if n >= 10 {
        push_decimal(text, n / 10);
    }
    push_char(text, digit_char(n % 10));
    assert(final(text)@ =~= old(text)@ + decimal(n as nat));
}

/// Writes a number in decimal.
pub fn decimal_string(n: u32) -> (text: String)
    ensures
        text@ == decimal(n as nat),
{
    let mut text = String::new();
    push_decimal(&mut text, n);
    assert(Seq::<char>::empty() + decimal(n as nat) =~= decimal(n as nat));
    text
}

/// Lists the arguments for the image tool, in the order in which it takes them.
pub fn post_process_arguments(raw: &str, output: &str, border: u32) -> (arguments: Vec<String>)
    ensures
        word_views(arguments@) == tool_arguments(raw@, output@, border),
{
    let mut arguments: Vec<String> = Vec::new();
    arguments.push(raw.to_owned());
    arguments.push("-trim".to_owned());
    arguments.push("+repage".to_owned());
    arguments.push("-border".to_owned());
    arguments.push(decimal_string(border));
    arguments.push("-bordercolor".to_owned());
    arguments.push("white".to_owned());
    arguments.push(output.to_owned());
    assert(word_views(arguments@) =~= tool_arguments(raw@, output@, border));
    arguments
}

} // verus!
