//! Text primitives the renderer is specified over: decimal numbers, blank
//! detection, and line indentation.
use vstd::prelude::*;
use vstd::string::StringExecFns;
use vstd::string::StrSliceExecFns;

verus! {

/// Relies on `String::push`: appends exactly the given character.
pub assume_specification[ String::push ](s: &mut String, c: char)
    ensures
        final(s)@ == old(s)@ + seq![c],
;

/// The decimal digit character for `d` in 0..=9, as a one-character string.
pub open spec fn dec_digit(d: int) -> Seq<char> {
    if d == 0 {
        "0"@
    } else if d == 1 {
        "1"@
    } else if d == 2 {
        "2"@
    } else if d == 3 {
        "3"@
    } else if d == 4 {
        "4"@
    } else if d == 5 {
        "5"@
    } else if d == 6 {
        "6"@
    } else if d == 7 {
        "7"@
    } else if d == 8 {
        "8"@
    } else {
        "9"@
    }
}

/// The decimal representation of a non-negative integer, most significant
/// digit first.
pub open spec fn dec(n: int) -> Seq<char>
    recommends
        n >= 0,
    decreases n,
{
    if n <= 9 {
        dec_digit(n)
    } else {
        dec(n / 10) + dec_digit(n % 10)
    }
}

fn dec_digit_str(d: u64) -> (r: &'static str)
    requires
        d <= 9,
    ensures
        r@ == dec_digit(d as int),
{
    match d {
        0 => "0",
        1 => "1",
        2 => "2",
        3 => "3",
        4 => "4",
        5 => "5",
        6 => "6",
        7 => "7",
        8 => "8",
        _ => "9",
    }
}

/// Appends the decimal representation of `n` to `out`.
pub fn append_dec(out: &mut String, n: u64)
    ensures
        final(out)@ == old(out)@ + dec(n as int),
    decreases n,
{
    if n <= 9 {
        out.append(dec_digit_str(n));
    } else {
        append_dec(out, n / 10);
        out.append(dec_digit_str(n % 10));
    }
}

/// A whitespace character, for the purpose of blank-section suppression.
pub open spec fn is_space(c: char) -> bool {
    c == ' ' || c == '\t' || c == '\n' || c == '\r'
}

/// A string is blank when every character is whitespace; the empty string is
/// blank.
pub open spec fn is_blank(s: Seq<char>) -> bool {
    forall|i: int| 0 <= i < s.len() ==> is_space(#[trigger] s[i])
}

/// True exactly when `s` is empty or all whitespace.
pub fn check_blank(s: &str) -> (r: bool)
    ensures
        r == is_blank(s@),
{
    let len = s.unicode_len();
    let mut i: usize = 0;
    while i < len
        invariant
            i <= len,
            len == s@.len(),
            forall|j: int| 0 <= j < i ==> is_space(#[trigger] s@[j]),
        decreases len - i,
    {
        let c = s.get_char(i);
        if !(c == ' ' || c == '\t' || c == '\n' || c == '\r') {
            return false;
        }
        i += 1;
    }
    true
}

/// What one character of a section body contributes to its indented form: a
/// newline brings three spaces of indentation with it.
pub open spec fn char_indented(c: char) -> Seq<char> {
    if c == '\n' {
        "\n   "@
    } else {
        seq![c]
    }
}

/// The indented form of the first `n` characters of `s`.
pub open spec fn indented_upto(s: Seq<char>, n: int) -> Seq<char>
    decreases n,
{
    if n <= 0 {
        Seq::empty()
    } else {
        indented_upto(s, n - 1) + char_indented(s[n - 1])
    }
}

/// A body with each of its lines indented by three spaces (the leading three
/// spaces of the first line are supplied by the caller).
pub open spec fn indented(s: Seq<char>) -> Seq<char> {
    indented_upto(s, s.len() as int)
}

/// Appends the indented form of `body` to `out`.
pub fn append_indented(out: &mut String, body: &str)
    ensures
        final(out)@ == old(out)@ + indented(body@),
{
    let len = body.unicode_len();
    let mut i: usize = 0;
    while i < len
        invariant
            i <= len,
            len == body@.len(),
            out@ == old(out)@ + indented_upto(body@, i as int),
        decreases len - i,
    {
        let c = body.get_char(i);
        if c == '\n' {
            out.append("\n   ");
        } else {
            out.push(c);
        }
        i += 1;
    }
}

} // verus!
