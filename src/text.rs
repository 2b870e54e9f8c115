//! Lines of text written by the callbacks: decimal rendering of a byte and
//! the message of the plain function callback.

use vstd::prelude::*;
use vstd::string::StringExecFns;

verus! {

/// The text of each line of `lines`.
pub open spec fn texts(lines: Seq<String>) -> Seq<Seq<char>> {
    lines.map_values(|l: String| l@)
}

/// The output of a callback that writes the single line `t`.
pub open spec fn one_line(t: Seq<char>) -> Seq<Seq<char>> {
    seq![t]
}

/// The character of one decimal digit.
pub open spec fn digit_char(d: nat) -> char {
    if d == 0 {
        '0'
    } else if d == 1 {
        '1'
    } else if d == 2 {
        '2'
    } else if d == 3 {
        '3'
    } else if d == 4 {
        '4'
    } else if d == 5 {
        '5'
    } else if d == 6 {
        '6'
    } else if d == 7 {
        '7'
    } else if d == 8 {
        '8'
    } else {
        '9'
    }
}

/// The decimal notation of `n`, most significant digit first, no leading zeros.
pub open spec fn decimal(n: nat) -> Seq<char>
    decreases n,
{
    if n < 10 {
        seq![digit_char(n)]
    } else {
        decimal(n / 10).push(digit_char(n % 10))
    }
}

/// A line made of a label followed by the decimal notation of a value.
pub open spec fn labelled(label: Seq<char>, v: u8) -> Seq<char> {
    label + decimal(v as nat)
}

fn digit_str(d: u8) -> (s: &'static str)
    requires
        d < 10,
    ensures
        s@ == seq![digit_char(d as nat)],
{
    proof {
        reveal_strlit("0");
        reveal_strlit("1");
        reveal_strlit("2");
        reveal_strlit("3");
        reveal_strlit("4");
        reveal_strlit("5");
        reveal_strlit("6");
        reveal_strlit("7");
        reveal_strlit("8");
        reveal_strlit("9");
    }
    match d {
        0 => "0",
        1 => "1",
        2 => "2",
        3 => "3",
        4 => "4",
        5 => "5",
        6 => "6",
        7 => "7",
        8 => "8",
        _ => "9",
    }
}

/// Appends the decimal notation of `v` to `s`.
pub fn push_decimal(s: &mut String, v: u8)
    ensures
        final(s)@ == old(s)@ + decimal(v as nat),
{
    if v >= 100 {
        s.append(digit_str(v / 100));
    }
    if v >= 10 {
        s.append(digit_str((v / 10) % 10));
    }
    s.append(digit_str(v % 10));
    proof {
        let n = v as nat;
        if n >= 100 {
            assert(decimal(n / 100) == seq![digit_char(n / 100)]);
            assert((n / 10) / 10 == n / 100);
            assert(decimal(n / 10) == decimal(n / 100).push(digit_char((n / 10) % 10)));
        } else if n >= 10 {
            assert(decimal(n / 10) == seq![digit_char(n / 10)]);
        }
        assert(final(s)@ =~= old(s)@ + decimal(n));
    }
}

/// `label` followed by the decimal notation of `v`.
pub fn labelled_line(label: &str, v: u8) -> (r: String)
    ensures
        r@ == labelled(label@, v),
{
    let mut r = String::from_str(label);
    push_decimal(&mut r, v);
    r
}

/// The output of a callback that writes `label` and the value it got.
pub fn message(label: &str, v: u8) -> (lines: Vec<String>)
    ensures
        texts(lines@) == one_line(labelled(label@, v)),
{
    let mut lines: Vec<String> = Vec::new();
    lines.push(labelled_line(label, v));
    proof {
        assert(texts(lines@) =~= one_line(labelled(label@, v)));
    }
    lines
}

/// The plain function callback: one line naming it and the value it got.
pub fn callback_function(v: u8) -> (lines: Vec<String>)
    ensures
        texts(lines@) == one_line(labelled("Fn callback_function: "@, v)),
{
    message("Fn callback_function: ", v)
}

} // verus!
