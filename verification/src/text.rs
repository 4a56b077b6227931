//! Text helpers shared by the rest of the crate: comparisons and searches on
//! `str`, decimal notation for counts and amounts of money, and a few small
//! conversions. Everything is stated over `Seq<char>`, the view of a string.

use vstd::prelude::*;
use vstd::string::*;

verus! {

/// `needle` occurs in `text` at character position `at`.
pub open spec fn occurs_at(needle: Seq<char>, text: Seq<char>, at: int) -> bool {
    0 <= at && at + needle.len() <= text.len() && text.subrange(at, at + needle.len()) == needle
}

/// `needle` occurs somewhere in `text` as a contiguous run of characters.
pub open spec fn is_substring(needle: Seq<char>, text: Seq<char>) -> bool {
    exists|at: int| occurs_at(needle, text, at)
}

/// The lowercase form of a text as the standard library computes it
/// (`str::to_lowercase`, which follows the Unicode case mappings).
pub uninterp spec fn lowercase_of(text: Seq<char>) -> Seq<char>;

/// A text without the whitespace at its two ends, as the standard library
/// takes it away (`str::trim`, which goes by the Unicode property
/// White_Space).
pub uninterp spec fn trimmed_of(text: Seq<char>) -> Seq<char>;

/// The first position at which `needle` occurs in `text`.
pub open spec fn first_occurrence(needle: Seq<char>, text: Seq<char>) -> int {
    choose|at: int|
        occurs_at(needle, text, at) && forall|earlier: int|
            0 <= earlier < at ==> !occurs_at(needle, text, earlier)
}

/// What follows the first occurrence of `needle` in `text`; `None` where
/// there is no occurrence.
pub open spec fn text_after(needle: Seq<char>, text: Seq<char>) -> Option<Seq<char>> {
    if is_substring(needle, text) {
        Some(text.skip(first_occurrence(needle, text) + needle.len()))
    } else {
        None
    }
}

/// Calls `str::trim` of the standard library. The contract gives the result
/// its name, `trimmed_of`.
#[verifier::external_body]
pub(crate) fn trim(text: &str) -> (trimmed: String)
    ensures
        trimmed@ == trimmed_of(text@),
{
    text.trim().to_string()
}

/// Calls `str::split_once` of the standard library, which splits a text at
/// the first occurrence of a delimiter, and keeps the part after it.
#[verifier::external_body]
pub(crate) fn split_after(text: &str, needle: &str) -> (rest: Option<String>)
    ensures
        rest.deep_view() == text_after(needle@, text@),
{
    text.split_once(needle).map(|(_, after)| after.to_string())
}

/// Whether two string slices hold the same characters.
pub fn str_eq(left: &str, right: &str) -> (same: bool)
    ensures
        same == (left@ == right@),
{
    String::from_str(left) == String::from_str(right)
}

/// Calls `str::contains` of the standard library with a string pattern: the
/// answer is whether the pattern matches a sub-slice of the text.
#[verifier::external_body]
pub(crate) fn str_contains(text: &str, needle: &str) -> (found: bool)
    ensures
        found == is_substring(needle@, text@),
{
    text.contains(needle)
}

/// Calls `str::to_lowercase` of the standard library. The Unicode case
/// mappings are not written out here: the contract only gives the result its
/// name, `lowercase_of`.
#[verifier::external_body]
pub(crate) fn to_lowercase(text: &str) -> (lowered: String)
    ensures
        lowered@ == lowercase_of(text@),
{
    text.to_lowercase()
}

/// The character that writes the decimal digit `d`.
pub open spec fn digit_char(d: int) -> char {
    if d == 0 {
        '0'
    } else if d == 1 {
        '1'
    } else if d == 2 {
        '2'
    } else if d == 3 {
        '3'
    } else if d == 4 {
        '4'
    } else if d == 5 {
        '5'
    } else if d == 6 {
        '6'
    } else if d == 7 {
        '7'
    } else if d == 8 {
        '8'
    } else {
        '9'
    }
}

/// Decimal notation of a natural number, most significant digit first and
/// without leading zeros.
pub open spec fn decimal(n: nat) -> Seq<char>
    decreases n,
{
    if n < 10 {
        seq![digit_char(n as int)]
    } else {
        decimal(n / 10).push(digit_char((n % 10) as int))
    }
}

/// Decimal notation of an integer, with a leading `-` below zero.
pub open spec fn signed_decimal(n: int) -> Seq<char> {
    if n < 0 {
        seq!['-'] + decimal((-n) as nat)
    } else {
        decimal(n as nat)
    }
}

fn digit_str(d: u64) -> (digit: &'static str)
    requires
        d < 10,
    ensures
        digit@ == seq![digit_char(d as int)],
{
    proof {
        reveal_strlit("0");
        reveal_strlit("1");
        reveal_strlit("2");
        reveal_strlit("3");
        reveal_strlit("4");
        reveal_strlit("5");
        reveal_strlit("6");
        reveal_strlit("7");
        reveal_strlit("8");
        reveal_strlit("9");
    }
    let digit: &'static str = if d == 0 {
        "0"
    } else if d == 1 {
        "1"
    } else if d == 2 {
        "2"
    } else if d == 3 {
        "3"
    } else if d == 4 {
        "4"
    } else if d == 5 {
        "5"
    } else if d == 6 {
        "6"
    } else if d == 7 {
        "7"
    } else if d == 8 {
        "8"
    } else {
        "9"
    };
    assert(digit@ =~= seq![digit_char(d as int)]);
    digit
}

/// Writes a count in decimal notation.
pub fn decimal_string(n: u64) -> (text: String)
    ensures
        text@ == decimal(n as nat),
    decreases n,
{
    if n < 10 {
        String::from_str(digit_str(n))
    } else {
        let mut text = decimal_string(n / 10);
        text.append(digit_str(n % 10));
        assert(text@ =~= decimal(n as nat));
        text
    }
}

/// Writes a signed number in decimal notation.
pub fn signed_decimal_string(n: i64) -> (text: String)
    ensures
        text@ == signed_decimal(n as int),
{
    if n < 0 {
        let magnitude: u64 = (-(n + 1)) as u64 + 1;
        let digits = decimal_string(magnitude);
        let mut text = String::from_str("-");
        proof {
            reveal_strlit("-");
        }
        text.append(digits.as_str());
        assert(text@ =~= signed_decimal(n as int));
        text
    } else {
        decimal_string(n as u64)
    }
}

/// An amount of cents written in units: the whole units, then a point and
/// the cents where there are any, without a trailing zero (1850 is "18.5").
pub open spec fn amount_text(cents: u64) -> Seq<char> {
    let whole = decimal((cents / 100) as nat);
    let rest = (cents % 100) as int;
    if rest == 0 {
        whole
    } else if rest % 10 == 0 {
        whole + seq!['.', digit_char(rest / 10)]
    } else {
        whole + seq!['.', digit_char(rest / 10), digit_char(rest % 10)]
    }
}

/// Writes an amount of cents in units.
pub fn amount_string(cents: u64) -> (text: String)
    ensures
        text@ == amount_text(cents),
{
    let mut text = decimal_string(cents / 100);
    let rest: u64 = cents % 100;
    if rest != 0 {
        proof {
            reveal_strlit(".");
        }
        text.append(".");
        text.append(digit_str(rest / 10));
        if rest % 10 != 0 {
            text.append(digit_str(rest % 10));
        }
    }
    assert(text@ =~= amount_text(cents));
    text
}

/// `cost` times `numerator / denominator`, rounded down, and held at the
/// largest amount that fits where the product is beyond it.
pub open spec fn scaled_amount(cost: u64, numerator: u64, denominator: u64) -> u64 {
    let scaled = (cost as int * numerator as int) / (denominator as int);
    if scaled > u64::MAX as int {
        u64::MAX
    } else {
        scaled as u64
    }
}

/// Scales an amount by a ratio.
pub fn scale_amount(cost: u64, numerator: u64, denominator: u64) -> (scaled: u64)
    requires
        denominator > 0,
    ensures
        scaled == scaled_amount(cost, numerator, denominator),
{
    assert(cost as int * numerator as int <= u64::MAX as int * u64::MAX as int) by (nonlinear_arith)
        requires
            cost <= u64::MAX,
            numerator <= u64::MAX,
    ;
    assert(0 <= cost as int * numerator as int) by (nonlinear_arith);
    let product: u128 = cost as u128 * numerator as u128;
    let scaled: u128 = product / denominator as u128;
    if scaled > u64::MAX as u128 {
        u64::MAX
    } else {
        scaled as u64
    }
}

/// Whether a character is one of the ten ASCII digits.
pub open spec fn is_digit(c: char) -> bool {
    '0' <= c && c <= '9'
}

/// Whether every character of a text is an ASCII digit.
pub open spec fn all_digits(text: Seq<char>) -> bool {
    forall|i: int| 0 <= i < text.len() ==> is_digit(#[trigger] text[i])
}

/// The number that a run of ASCII digits writes.
pub open spec fn digits_value(digits: Seq<char>) -> nat
    decreases digits.len(),
{
    if digits.len() == 0 {
        0
    } else {
        (digits_value(digits.drop_last()) * 10 + (digits.last() as int - '0' as int)) as nat
    }
}

/// The count that a text writes: ASCII digits, with or without a plus sign
/// in front, that stay within 32 bits. Any other text writes no count.
pub open spec fn parsed_count(text: Seq<char>) -> Option<u32> {
    let digits = if text.len() > 0 && text[0] == '+' {
        text.skip(1)
    } else {
        text
    };
    if digits.len() == 0 || !all_digits(digits) || digits_value(digits) > u32::MAX {
        None
    } else {
        Some(digits_value(digits) as u32)
    }
}

/// A number of cents, held at the largest amount that fits.
pub open spec fn capped(cents: nat) -> u64 {
    if cents > u64::MAX {
        u64::MAX
    } else {
        cents as u64
    }
}

/// The amount in cents that a text writes: ASCII digits for the units, and
/// after them either nothing or a point and exactly two digits for the
/// cents. Any other text writes no amount.
pub open spec fn parsed_amount(text: Seq<char>) -> Option<u64> {
    if text.len() > 0 && all_digits(text) {
        Some(capped(digits_value(text) * 100))
    } else if text.len() >= 4 && text[text.len() - 3] == '.' && all_digits(
        text.take(text.len() - 3),
    ) && is_digit(text[text.len() - 2]) && is_digit(text[text.len() - 1]) {
        Some(
            capped(
                digits_value(text.take(text.len() - 3)) * 100 + digits_value(
                    text.skip(text.len() - 2),
                ),
            ),
        )
    } else {
        None
    }
}

/// Reads a run of characters as ASCII digits: their value, held at
/// `u64::MAX` where it is beyond it; `None` where one is no digit.
fn read_digits(text: &str, from: usize, to: usize) -> (value: Option<u64>)
    requires
        from <= to <= text@.len(),
    ensures
        match value {
            Some(number) => all_digits(text@.subrange(from as int, to as int)) && number
                == capped(digits_value(text@.subrange(from as int, to as int))),
            None => !all_digits(text@.subrange(from as int, to as int)),
        },
{
    let ghost digits = text@.subrange(from as int, to as int);
    let mut value: u64 = 0;
    let mut at: usize = from;
    assert(digits.take(0) =~= Seq::empty());
    while at < to
        invariant
            from <= at <= to <= text@.len(),
            digits == text@.subrange(from as int, to as int),
            all_digits(digits.take(at - from)),
            value == capped(digits_value(digits.take(at - from))),
        decreases to - at,
    {
        let c = text.get_char(at);
        assert(digits[at - from] == c);
        if !('0' <= c && c <= '9') {
            return None;
        }
        let digit: u64 = (c as u32 - '0' as u32) as u64;
        proof {
            let seen = digits.take(at - from);
            let grown = digits.take(at - from + 1);
            assert(grown.drop_last() =~= seen);
            assert(grown.last() == c);
            assert forall|i: int| 0 <= i < grown.len() implies is_digit(#[trigger] grown[i]) by {
                if i < seen.len() {
                    assert(seen[i] == grown[i]);
                }
            }
        }
        value = if value > (u64::MAX - digit) / 10 {
            u64::MAX
        } else {
            value * 10 + digit
        };
        at += 1;
    }
    assert(digits.take(to - from) =~= digits);
    Some(value)
}

/// Reads a count from a text.
pub fn parse_count(text: &str) -> (count: Option<u32>)
    ensures
        count == parsed_count(text@),
{
    let length = text.unicode_len();
    let from: usize = if length > 0 && text.get_char(0) == '+' {
        1
    } else {
        0
    };
    assert(text@.subrange(from as int, length as int) =~= if from == 1 {
        text@.skip(1)
    } else {
        text@
    });
    if from == length {
        return None;
    }
    match read_digits(text, from, length) {
        Some(value) => {
            if value > u32::MAX as u64 {
                None
            } else {
                Some(value as u32)
            }
        },
        None => None,
    }
}

/// Reads an amount of money from a text, in cents.
pub fn parse_amount(text: &str) -> (cents: Option<u64>)
    ensures
        cents == parsed_amount(text@),
{
    let length = text.unicode_len();
    if length == 0 {
        return None;
    }
    assert(text@.subrange(0, length as int) =~= text@);
    match read_digits(text, 0, length) {
        Some(units) => {
            return Some(
                if units > u64::MAX / 100 {
                    u64::MAX
                } else {
                    units * 100
                },
            );
        },
        None => {},
    }
    if length < 4 || text.get_char(length - 3) != '.' {
        return None;
    }
    assert(text@.subrange(0, length - 3) =~= text@.take(length - 3));
    assert(text@.subrange(length - 2, length as int) =~= text@.skip(length - 2));
    let units = read_digits(text, 0, length - 3);
    let cents = read_digits(text, length - 2, length);
    proof {
        let tail = text@.skip(length - 2);
        assert(tail.len() == 2);
        assert(tail[0] == text@[length - 2]);
        assert(tail[1] == text@[length - 1]);
        assert(tail.drop_last().drop_last() =~= Seq::empty());
        if all_digits(tail) {
            assert(is_digit(tail[0]) && is_digit(tail[1]));
            assert(digits_value(tail) <= 99) by {
                reveal_with_fuel(digits_value, 3);
            }
        }
        if is_digit(text@[length - 2]) && is_digit(text@[length - 1]) {
            assert(all_digits(tail));
        }
    }
    match (units, cents) {
        (Some(units), Some(cents)) => {
            Some(
                if units > (u64::MAX - cents) / 100 {
                    u64::MAX
                } else {
                    units * 100 + cents
                },
            )
        },
        _ => None,
    }
}

/// Joins two texts.
pub fn join_texts(left: &str, right: &str) -> (joined: String)
    ensures
        joined@ == left@ + right@,
{
    let mut joined = String::from_str(left);
    joined.append(right);
    joined
}

/// The texts of a list of string slices.
pub open spec fn texts_of(items: Seq<&str>) -> Seq<Seq<char>> {
    Seq::new(items.len(), |i: int| items[i]@)
}

/// Owned strings with the texts of `items`, in the same order.
pub fn string_list(items: &[&str]) -> (list: Vec<String>)
    ensures
        list.deep_view() == texts_of(items@),
{
    let mut list: Vec<String> = Vec::new();
    let mut at: usize = 0;
    while at < items.len()
        invariant
            at <= items.len(),
            list.len() == at,
            forall|i: int| 0 <= i < at ==> list[i]@ == items[i]@,
        decreases items.len() - at,
    {
        list.push(String::from_str(items[at]));
        at += 1;
    }
    assert(list.deep_view() =~= texts_of(items@));
    list
}

/// Copies a list of texts.
pub fn clone_strings(list: &Vec<String>) -> (copy: Vec<String>)
    ensures
        copy.deep_view() == list.deep_view(),
        copy@.len() == list@.len(),
{
    let copy = list.clone();
    assert(copy.deep_view() =~= list.deep_view());
    copy
}

} // verus!
