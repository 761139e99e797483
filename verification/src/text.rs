//! Text helpers: case-insensitive name comparison and decimal rendering.

use vstd::prelude::*;
use vstd::string::StringExecFns;

verus! {

/// The lowercase mapping of a text, as `str::to_lowercase` computes it
/// (Unicode `Lowercase` derived property).
pub uninterp spec fn lowercase(text: Seq<char>) -> Seq<char>;

/// Every character of the text is ASCII.
pub open spec fn is_ascii_text(text: Seq<char>) -> bool {
    forall|i: int| 0 <= i < text.len() ==> (#[trigger] text[i] as int) < 128
}

/// An ASCII capital letter `A` to `Z` as its small letter; any other character unchanged.
pub open spec fn ascii_lower_char(c: char) -> char {
    if 'A' <= c && c <= 'Z' {
        ((c as int) + 32) as char
    } else {
        c
    }
}

/// The text with each ASCII capital letter made small.
pub open spec fn ascii_lowercase(text: Seq<char>) -> Seq<char> {
    text.map_values(|c: char| ascii_lower_char(c))
}

/// What names are compared by: the lowercase mapping, which on ASCII text maps `A` to `Z` to `a` to
/// `z` and keeps every other character.
pub open spec fn name_key(text: Seq<char>) -> Seq<char> {
    if is_ascii_text(text) {
        ascii_lowercase(text)
    } else {
        lowercase(text)
    }
}

/// Two names are the same name when their lowercase mappings agree.
pub open spec fn same_name(a: Seq<char>, b: Seq<char>) -> bool {
    name_key(a) == name_key(b)
}

/// Calls `str::to_lowercase`. The contract claims that the result is the lowercase mapping of the
/// argument, named `lowercase`, and, as the documentation of `str::to_ascii_lowercase` says (it
/// points to `to_lowercase` to lowercase ASCII characters in addition to non-ASCII ones), that on
/// ASCII text it maps `A` to `Z` to `a` to `z` and keeps the other characters. What it does to
/// other text is left to the name.
#[verifier::external_body]
pub(crate) fn to_lowercase(text: &str) -> (r: String)
    ensures
        r@ == lowercase(text@),
        is_ascii_text(text@) ==> r@ == ascii_lowercase(text@),
{
    text.to_lowercase()
}

/// Compares two names case-insensitively, by their lowercase mappings.
pub(crate) fn names_match(a: &str, b: &str) -> (r: bool)
    ensures
        r == same_name(a@, b@),
{
    let la = to_lowercase(a);
    let lb = to_lowercase(b);
    la == lb
}

/// The character of a decimal digit.
pub open spec fn digit_char(d: int) -> char {
    if d == 0 { '0' }
    else if d == 1 { '1' }
    else if d == 2 { '2' }
    else if d == 3 { '3' }
    else if d == 4 { '4' }
    else if d == 5 { '5' }
    else if d == 6 { '6' }
    else if d == 7 { '7' }
    else if d == 8 { '8' }
    else { '9' }
}

/// The decimal digits of a natural number, most significant first.
pub open spec fn natural_text(n: nat) -> Seq<char>
    decreases n,
{
    if n < 10 {
        seq![digit_char(n as int)]
    } else {
        natural_text(n / 10).push(digit_char((n % 10) as int))
    }
}

/// The decimal rendering of an integer, with a leading `-` when negative.
pub open spec fn decimal_text(n: int) -> Seq<char> {
    if n < 0 {
        seq!['-'] + natural_text((-n) as nat)
    } else {
        natural_text(n as nat)
    }
}

/// The text of one decimal digit.
fn digit_text(d: u64) -> (r: &'static str)
    requires
        d < 10,
    ensures
        r@ == seq![digit_char(d as int)],
{
    proof {
        reveal_strlit("0");
        reveal_strlit("1");
        reveal_strlit("2");
        reveal_strlit("3");
        reveal_strlit("4");
        reveal_strlit("5");
        reveal_strlit("6");
        reveal_strlit("7");
        reveal_strlit("8");
        reveal_strlit("9");
    }
    if d == 0 {
        "0"
    } else if d == 1 {
        "1"
    } else if d == 2 {
        "2"
    } else if d == 3 {
        "3"
    } else if d == 4 {
        "4"
    } else if d == 5 {
        "5"
    } else if d == 6 {
        "6"
    } else if d == 7 {
        "7"
    } else if d == 8 {
        "8"
    } else {
        "9"
    }
}

/// The decimal digits of `n`, most significant first.
fn natural_to_string(n: u64) -> (r: String)
    ensures
        r@ == natural_text(n as nat),
    decreases n,
{
    if n < 10 {
        String::from_str(digit_text(n))
    } else {
        let mut text = natural_to_string(n / 10);
        text.append(digit_text(n % 10));
        text
    }
}

/// The decimal rendering of `n`, as `i64::to_string` writes it: a `-` before the digits of a
/// negative number.
pub(crate) fn i64_to_string(n: i64) -> (r: String)
    ensures
        r@ == decimal_text(n as int),
{
    if n < 0 {
        let magnitude: u64 = (0i128 - (n as i128)) as u64;
        let digits = natural_to_string(magnitude);
        proof {
            reveal_strlit("-");
        }
        let mut text = String::from_str("-");
        text.append(digits.as_str());
        text
    } else {
        natural_to_string(n as u64)
    }
}

#[verifier::external_type_specification]
#[verifier::external_body]
pub struct ExParseIntError(core::num::ParseIntError);

/// A character is an ASCII decimal digit.
pub open spec fn is_ascii_digit(c: char) -> bool {
    '0' <= c && c <= '9'
}

/// Every character of the text is an ASCII decimal digit.
pub open spec fn all_digits(text: Seq<char>) -> bool {
    forall|i: int| 0 <= i < text.len() ==> is_ascii_digit(text[i])
}

/// The number that a run of decimal digits writes.
pub open spec fn digits_value(digits: Seq<char>) -> int
    decreases digits.len(),
{
    if digits.len() == 0 {
        0
    } else {
        digits_value(digits.drop_last()) * 10 + (digits.last() as int - '0' as int)
    }
}

/// The integer that a text writes as an optional `+` or `-` sign followed by one or more decimal
/// digits; `None` for any other text.
pub open spec fn integer_value(text: Seq<char>) -> Option<int> {
    if text.len() > 0 && (text[0] == '-' || text[0] == '+') {
        let digits = text.drop_first();
        if digits.len() > 0 && all_digits(digits) {
            if text[0] == '-' {
                Some(-digits_value(digits))
            } else {
                Some(digits_value(digits))
            }
        } else {
            None
        }
    } else if text.len() > 0 && all_digits(text) {
        Some(digits_value(text))
    } else {
        None
    }
}

/// The text writes an integer that fits in an `i64`.
pub open spec fn parses_as_i64(text: Seq<char>) -> bool {
    integer_value(text) matches Some(v) && i64::MIN <= v <= i64::MAX
}

/// Calls `str::parse::<i64>`. As its documentation says, it accepts an optional `+` or `-` sign
/// followed by decimal digits, and fails on any other text or on a value out of range.
#[verifier::external_body]
pub(crate) fn parse_i64(text: &str) -> (r: Result<i64, core::num::ParseIntError>)
    ensures
        match r {
            Ok(n) => integer_value(text@) == Some(n as int),
            Err(_) => !parses_as_i64(text@),
        },
{
    text.parse::<i64>()
}

} // verus!
