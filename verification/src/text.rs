//! Numbers written out in decimal, and text in quotes.

use vstd::prelude::*;

verus! {

/// The character for one decimal digit.
pub open spec fn digit_char(d: int) -> char {
    if d == 0 {
        '0'
    } else if d == 1 {
        '1'
    } else if d == 2 {
        '2'
    } else if d == 3 {
        '3'
    } else if d == 4 {
        '4'
    } else if d == 5 {
        '5'
    } else if d == 6 {
        '6'
    } else if d == 7 {
        '7'
    } else if d == 8 {
        '8'
    } else {
        '9'
    }
}

/// Whether a character is one of `0` to `9`.
pub open spec fn is_digit(c: char) -> bool {
    '0' <= c <= '9'
}

/// A natural number in decimal, without sign and without leading zeros.
pub open spec fn decimal_text(n: nat) -> Seq<char>
    decreases n,
{
    if n < 10 {
        seq![digit_char(n as int)]
    } else {
        decimal_text(n / 10).push(digit_char((n % 10) as int))
    }
}

/// An integer in decimal, with `-` in front of a negative one.
pub open spec fn signed_decimal_text(n: int) -> Seq<char> {
    if n < 0 {
        seq!['-'] + decimal_text((-n) as nat)
    } else {
        decimal_text(n as nat)
    }
}

/// A number's decimal text is not empty and holds digits only.
pub proof fn lemma_decimal_text_is_digits(n: nat)
    ensures
        decimal_text(n).len() >= 1,
        forall|i: int| 0 <= i < decimal_text(n).len() ==> is_digit(#[trigger] decimal_text(n)[i]),
    decreases n,
{
    if n >= 10 {
        lemma_decimal_text_is_digits(n / 10);
    }
}

/// Two numbers with the same decimal text are the same number.
pub proof fn lemma_decimal_text_names_one_number(a: nat, b: nat)
    requires
        decimal_text(a) == decimal_text(b),
    ensures
        a == b,
    decreases a,
{
    if a < 10 && b < 10 {
        assert(decimal_text(a)[0] == digit_char(a as int));
        assert(decimal_text(b)[0] == digit_char(b as int));
    } else if a < 10 {
        lemma_decimal_text_is_digits(b / 10);
        assert(decimal_text(b).len() >= 2);
    } else if b < 10 {
        lemma_decimal_text_is_digits(a / 10);
        assert(decimal_text(a).len() >= 2);
    } else {
        let x = decimal_text(a / 10);
        let y = decimal_text(b / 10);
        assert(decimal_text(a).drop_last() =~= x);
        assert(decimal_text(b).drop_last() =~= y);
        assert(decimal_text(a).last() == digit_char((a % 10) as int));
        assert(decimal_text(b).last() == digit_char((b % 10) as int));
        lemma_decimal_text_names_one_number(a / 10, b / 10);
        assert(a % 10 == b % 10);
    }
}

fn digit(d: u8) -> (s: &'static str)
    requires
        d < 10,
    ensures
        s@ == seq![digit_char(d as int)],
{
    proof {
        reveal_strlit("0");
        reveal_strlit("1");
        reveal_strlit("2");
        reveal_strlit("3");
        reveal_strlit("4");
        reveal_strlit("5");
        reveal_strlit("6");
        reveal_strlit("7");
        reveal_strlit("8");
        reveal_strlit("9");
    }
    let s: &'static str = if d == 0 {
        "0"
    } else if d == 1 {
        "1"
    } else if d == 2 {
        "2"
    } else if d == 3 {
        "3"
    } else if d == 4 {
        "4"
    } else if d == 5 {
        "5"
    } else if d == 6 {
        "6"
    } else if d == 7 {
        "7"
    } else if d == 8 {
        "8"
    } else {
        "9"
    };
    assert(s@ =~= seq![digit_char(d as int)]);
    s
}

/// Writes a number in decimal.
pub fn decimal(n: u128) -> (text: String)
    ensures
        text@ == decimal_text(n as nat),
    decreases n,
{
    if n < 10 {
        String::from_str(digit(n as u8))
    } else {
        let mut text = decimal(n / 10);
        let last: u128 = n % 10;
        text.append(digit(last as u8));
        assert(text@ =~= decimal_text((n / 10) as nat).push(digit_char(last as int)));
        text
    }
}

/// Writes an integer in decimal, with `-` in front of a negative one.
pub fn signed_decimal(n: i32) -> (text: String)
    ensures
        text@ == signed_decimal_text(n as int),
{
    if n < 0 {
        let magnitude: i64 = -(n as i64);
        let digits = decimal(magnitude as u128);
        let mut text = String::from_str("-");
        text.append(digits.as_str());
        proof {
            reveal_strlit("-");
            assert(text@ =~= seq!['-'] + decimal_text((-n) as nat));
        }
        text
    } else {
        decimal(n as u128)
    }
}

/// A string as `{:?}` writes it: between double quotes, with the characters
/// that cannot stand there as they are written as escapes.
pub uninterp spec fn quoted_text(text: Seq<char>) -> Seq<char>;

/// `Debug` formatting of std for `str`. The contract names what it writes and
/// states nothing else of it.
#[verifier::external_body]
pub(crate) fn quoted(text: &str) -> (out: String)
    ensures
        out@ == quoted_text(text@),
{
    format!("{:?}", text)
}

/// Whether two strings hold the same text.
pub fn same_text(a: &str, b: &str) -> (same: bool)
    ensures
        same == (a@ == b@),
{
    String::from_str(a) == String::from_str(b)
}

} // verus!
