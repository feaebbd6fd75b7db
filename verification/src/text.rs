//! Small text building blocks: decimal numerals, lines and the divider.

use vstd::prelude::*;
use vstd::string::*;

verus! {

/// The character that writes the digit `d` (0 to 9).
pub open spec fn digit_char(d: int) -> char {
    if d == 0 {
        '0'
    } else if d == 1 {
        '1'
    } else if d == 2 {
        '2'
    } else if d == 3 {
        '3'
    } else if d == 4 {
        '4'
    } else if d == 5 {
        '5'
    } else if d == 6 {
        '6'
    } else if d == 7 {
        '7'
    } else if d == 8 {
        '8'
    } else {
        '9'
    }
}

/// The decimal numeral of `n`, without sign or leading zeros.
pub open spec fn decimal(n: nat) -> Seq<char>
    decreases n,
{
    if n < 10 {
        seq![digit_char(n as int)]
    } else {
        decimal(n / 10).push(digit_char((n % 10) as int))
    }
}

/// Width of the divider line.
pub const DIVIDER_WIDTH: usize = 50;

/// The divider: fifty hyphens.
pub open spec fn divider() -> Seq<char> {
    Seq::new(DIVIDER_WIDTH as nat, |i: int| '-')
}

/// A piece of text followed by a line feed.
pub open spec fn line(s: Seq<char>) -> Seq<char> {
    s.push('\n')
}

/// The one-character text of a digit.
pub fn digit_str(d: u64) -> (r: &'static str)
    requires
        d < 10,
    ensures
        r@ == seq![digit_char(d as int)],
{
    proof {
        reveal_strlit("0");
        reveal_strlit("1");
        reveal_strlit("2");
        reveal_strlit("3");
        reveal_strlit("4");
        reveal_strlit("5");
        reveal_strlit("6");
        reveal_strlit("7");
        reveal_strlit("8");
        reveal_strlit("9");
    }
    let r = if d == 0 {
        "0"
    } else if d == 1 {
        "1"
    } else if d == 2 {
        "2"
    } else if d == 3 {
        "3"
    } else if d == 4 {
        "4"
    } else if d == 5 {
        "5"
    } else if d == 6 {
        "6"
    } else if d == 7 {
        "7"
    } else if d == 8 {
        "8"
    } else {
        "9"
    };
    assert(r@ =~= seq![digit_char(d as int)]);
    r
}

/// Writes `n` in decimal.
pub fn decimal_string(n: u64) -> (r: String)
    ensures
        r@ == decimal(n as nat),
    decreases n,
{
    if n < 10 {
        String::from_str(digit_str(n))
    } else {
        let mut s = decimal_string(n / 10);
        s.append(digit_str(n % 10));
        assert(s@ =~= decimal((n / 10) as nat).push(digit_char((n % 10) as int)));
        s
    }
}

/// Appends `s` and a line feed to `out`.
pub fn push_line(out: &mut String, s: &str)
    ensures
        final(out)@ == old(out)@ + line(s@),
{
    out.append(s);
    out.append("\n");
    proof {
        reveal_strlit("\n");
        assert(final(out)@ =~= old(out)@ + line(s@));
    }
}

/// Appends a label, a value and a line feed to `out`.
pub fn push_field(out: &mut String, label: &str, value: &str)
    ensures
        final(out)@ == old(out)@ + line(label@ + value@),
{
    out.append(label);
    out.append(value);
    out.append("\n");
    proof {
        reveal_strlit("\n");
        assert(final(out)@ =~= old(out)@ + line(label@ + value@));
    }
}

/// The divider as text.
pub fn divider_string() -> (r: String)
    ensures
        r@ == divider(),
{
    let mut r = String::new();
    let mut i: usize = 0;
    while i < DIVIDER_WIDTH
        invariant
            i <= DIVIDER_WIDTH,
            r@ == Seq::new(i as nat, |k: int| '-'),
        decreases DIVIDER_WIDTH - i,
    {
        r.append("-");
        proof {
            reveal_strlit("-");
            assert(r@ =~= Seq::new((i + 1) as nat, |k: int| '-'));
        }
        i += 1;
    }
    r
}

} // verus!
