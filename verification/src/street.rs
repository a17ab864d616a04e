//! Street numbers: three small integers written in decimal and joined by
//! hyphens, as in `3-10-17`.

use vstd::prelude::*;

verus! {

/// Largest first number of a street.
pub const STREET_FIRST_MAX: usize = 5;

/// Largest second number of a street.
pub const STREET_SECOND_MAX: usize = 10;

/// Largest third number of a street.
pub const STREET_THIRD_MAX: usize = 20;

/// The character that writes the digit `d`.
pub open spec fn digit_char(d: int) -> char {
    if d == 0 {
        '0'
    } else if d == 1 {
        '1'
    } else if d == 2 {
        '2'
    } else if d == 3 {
        '3'
    } else if d == 4 {
        '4'
    } else if d == 5 {
        '5'
    } else if d == 6 {
        '6'
    } else if d == 7 {
        '7'
    } else if d == 8 {
        '8'
    } else {
        '9'
    }
}

/// The decimal notation of `n`, most significant digit first, without
/// leading zeros.
pub open spec fn decimal(n: nat) -> Seq<char>
    decreases n,
{
    if n < 10 {
        seq![digit_char(n as int)]
    } else {
        decimal(n / 10).push(digit_char((n % 10) as int))
    }
}

/// The street text for the numbers `a`, `b`, `c`: their decimal notations
/// with one hyphen between neighbours.
pub open spec fn street_text(a: nat, b: nat, c: nat) -> Seq<char> {
    decimal(a) + seq!['-'] + decimal(b) + seq!['-'] + decimal(c)
}

/// Whether `a`, `b`, `c` are the numbers of a street: each at least 1, and
/// none above its maximum.
pub open spec fn street_numbers(a: nat, b: nat, c: nat) -> bool {
    &&& 1 <= a <= STREET_FIRST_MAX
    &&& 1 <= b <= STREET_SECOND_MAX
    &&& 1 <= c <= STREET_THIRD_MAX
}

/// Whether `s` is the text of a street.
pub open spec fn is_street(s: Seq<char>) -> bool {
    exists|a: nat, b: nat, c: nat| street_numbers(a, b, c) && s == #[trigger] street_text(a, b, c)
}

/// The digit `d` as a one-character string.
fn digit_str(d: usize) -> (s: &'static str)
    requires
        d < 10,
    ensures
        s@ == seq![digit_char(d as int)],
{
    proof {
        reveal_strlit("0");
        reveal_strlit("1");
        reveal_strlit("2");
        reveal_strlit("3");
        reveal_strlit("4");
        reveal_strlit("5");
        reveal_strlit("6");
        reveal_strlit("7");
        reveal_strlit("8");
        reveal_strlit("9");
    }
    let s = if d == 0 {
        "0"
    } else if d == 1 {
        "1"
    } else if d == 2 {
        "2"
    } else if d == 3 {
        "3"
    } else if d == 4 {
        "4"
    } else if d == 5 {
        "5"
    } else if d == 6 {
        "6"
    } else if d == 7 {
        "7"
    } else if d == 8 {
        "8"
    } else {
        "9"
    };
    assert(s@ =~= seq![digit_char(d as int)]);
    s
}

/// Writes `n` in decimal.
pub fn decimal_string(n: usize) -> (s: String)
    ensures
        s@ == decimal(n as nat),
    decreases n,
{
    if n < 10 {
        digit_str(n).to_owned()
    } else {
        let mut s = decimal_string(n / 10);
        s.append(digit_str(n % 10));
        assert(s@ =~= decimal((n / 10) as nat).push(digit_char((n % 10) as int)));
        s
    }
}

/// Writes the street with numbers `a`, `b`, `c`.
pub fn format_street(a: usize, b: usize, c: usize) -> (s: String)
    ensures
        s@ == street_text(a as nat, b as nat, c as nat),
{
    proof {
        reveal_strlit("-");
    }
    let mut s = decimal_string(a);
    s.append("-");
    s.append(decimal_string(b).as_str());
    s.append("-");
    s.append(decimal_string(c).as_str());
    assert("-"@ =~= seq!['-']);
    assert(s@ =~= street_text(a as nat, b as nat, c as nat));
    s
}

} // verus!
