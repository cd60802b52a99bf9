//! Decimal digits and the placeholder shown for a missing fact.
use vstd::prelude::*;

verus! {

/// The character of a decimal digit.
pub open spec fn digit_char(d: nat) -> char
    recommends
        d < 10,
{
    if d == 0 {
        '0'
    } else if d == 1 {
        '1'
    } else if d == 2 {
        '2'
    } else if d == 3 {
        '3'
    } else if d == 4 {
        '4'
    } else if d == 5 {
        '5'
    } else if d == 6 {
        '6'
    } else if d == 7 {
        '7'
    } else if d == 8 {
        '8'
    } else {
        '9'
    }
}

/// The decimal notation of `n`: no sign, no leading zeros, "0" for zero.
pub open spec fn decimal(n: nat) -> Seq<char>
    decreases n,
{
    if n < 10 {
        seq![digit_char(n)]
    } else {
        decimal(n / 10).push(digit_char(n % 10))
    }
}

/// The text shown in place of a fact that the platform did not report.
pub open spec fn placeholder() -> Seq<char> {
    seq!['N', '/', 'A']
}

/// A reported text as it is shown: the text itself, or the placeholder.
pub open spec fn text_or_placeholder(v: Option<String>) -> Seq<char> {
    match v {
        Some(s) => s@,
        None => placeholder(),
    }
}

/// A reported count as it is shown: its decimal notation, or the placeholder.
pub open spec fn count_or_placeholder(v: Option<usize>) -> Seq<char> {
    match v {
        Some(n) => decimal(n as nat),
        None => placeholder(),
    }
}

pub(crate) fn digit_str(d: u64) -> (r: &'static str)
    requires
        d < 10,
    ensures
        r@ == seq![digit_char(d as nat)],
{
    if d == 0 {
        proof { reveal_strlit("0"); }
        "0"
    } else if d == 1 {
        proof { reveal_strlit("1"); }
        "1"
    } else if d == 2 {
        proof { reveal_strlit("2"); }
        "2"
    } else if d == 3 {
        proof { reveal_strlit("3"); }
        "3"
    } else if d == 4 {
        proof { reveal_strlit("4"); }
        "4"
    } else if d == 5 {
        proof { reveal_strlit("5"); }
        "5"
    } else if d == 6 {
        proof { reveal_strlit("6"); }
        "6"
    } else if d == 7 {
        proof { reveal_strlit("7"); }
        "7"
    } else if d == 8 {
        proof { reveal_strlit("8"); }
        "8"
    } else {
        proof { reveal_strlit("9"); }
        "9"
    }
}

/// Appends the decimal notation of `n` to `out`.
pub fn push_decimal(out: &mut String, n: u64)
    ensures
        final(out)@ == old(out)@ + decimal(n as nat),
    decreases n,
{
    if n >= 10 {
        push_decimal(out, n / 10);
    }
    out.append(digit_str(n % 10));
    proof {
        if n >= 10 {
            assert(old(out)@ + decimal((n / 10) as nat) + seq![digit_char((n % 10) as nat)]
                =~= old(out)@ + decimal(n as nat));
        } else {
            assert(old(out)@ + seq![digit_char((n % 10) as nat)] =~= old(out)@ + decimal(n as nat));
        }
    }
}

/// The decimal notation of `n` as a new string.
pub fn decimal_string(n: u64) -> (r: String)
    ensures
        r@ == decimal(n as nat),
{
    let mut out = String::new();
    push_decimal(&mut out, n);
    assert(out@ =~= decimal(n as nat));
    out
}

/// The placeholder as a new string.
pub fn placeholder_string() -> (r: String)
    ensures
        r@ == placeholder(),
{
    proof { reveal_strlit("N/A"); }
    let r = String::from_str("N/A");
    assert(r@ =~= placeholder());
    r
}

/// A reported text, or the placeholder where none was reported.
pub fn or_placeholder(v: Option<String>) -> (r: String)
    ensures
        r@ == text_or_placeholder(v),
{
    match v {
        Some(s) => s,
        None => placeholder_string(),
    }
}

/// A reported count in decimal, or the placeholder where none was reported.
pub fn count_text(v: Option<usize>) -> (r: String)
    ensures
        r@ == count_or_placeholder(v),
{
    match v {
        Some(n) => decimal_string(n as u64),
        None => placeholder_string(),
    }
}

} // verus!
