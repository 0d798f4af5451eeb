//! Text that the core reads and writes: identifiers, whole numbers and
//! amounts of money.

use vstd::prelude::*;
use vstd::string::{StrSliceExecFns, StringExecFns};
use crate::error::PosError;

verus! {

/// What an optional text holds.
pub open spec fn opt_text(text: Option<String>) -> Option<Seq<char>> {
    match text {
        Some(t) => Some(t@),
        None => None,
    }
}

/// Whether `c` is a hexadecimal digit, in either case.
pub open spec fn is_hex_digit(c: char) -> bool {
    ('0' <= c && c <= '9') || ('a' <= c && c <= 'f') || ('A' <= c && c <= 'F')
}

/// Whether `text` is written as a document identifier: twenty-four
/// hexadecimal digits.
pub open spec fn spec_is_object_id(text: Seq<char>) -> bool {
    text.len() == 24 && forall|i: int| 0 <= i < text.len() ==> is_hex_digit(#[trigger] text[i])
}

/// Asks `mongodb::bson::oid::ObjectId::parse_str` whether `text` is an
/// identifier. It accepts exactly the texts of twenty-four characters that are
/// all hexadecimal digits, upper or lower case.
#[verifier::external_body]
pub(crate) fn is_object_id(text: &str) -> (valid: bool)
    ensures
        valid == spec_is_object_id(text@),
{
    mongodb::bson::oid::ObjectId::parse_str(text).is_ok()
}

/// Makes a new identifier with `mongodb::bson::oid::ObjectId::new` and writes
/// it with `to_hex`. Which identifier comes out is left open: it is made from
/// the time, the process and a counter. It is always written as an identifier.
/// The call does not return where the system's clock reads a moment before
/// 1970 or after 2106, or where the system has no random bytes to give.
#[verifier::external_body]
pub(crate) fn new_object_id() -> (id: String)
    ensures
        spec_is_object_id(id@),
{
    mongodb::bson::oid::ObjectId::new().to_hex()
}

/// Checks that `text` is written as an identifier; if it is not, it is
/// refused with `InvalidId`.
pub fn check_id(text: &str) -> (result: Result<(), PosError>)
    ensures
        result == (if spec_is_object_id(text@) {
            Ok::<(), PosError>(())
        } else {
            Err::<(), PosError>(PosError::InvalidId)
        }),
{
    if is_object_id(text) {
        Ok(())
    } else {
        Err(PosError::InvalidId)
    }
}

/// The character for the digit `d`.
pub open spec fn digit_char(d: int) -> char {
    if d == 0 {
        '0'
    } else if d == 1 {
        '1'
    } else if d == 2 {
        '2'
    } else if d == 3 {
        '3'
    } else if d == 4 {
        '4'
    } else if d == 5 {
        '5'
    } else if d == 6 {
        '6'
    } else if d == 7 {
        '7'
    } else if d == 8 {
        '8'
    } else {
        '9'
    }
}

/// The decimal digits of `n`, without leading zeros; zero is written `0`.
pub open spec fn decimal_digits(n: nat) -> Seq<char>
    decreases n,
{
    if n < 10 {
        seq![digit_char(n as int)]
    } else {
        decimal_digits(n / 10).push(digit_char((n % 10) as int))
    }
}

/// The whole number `n` in decimal, with a minus sign if it is negative.
pub open spec fn decimal(n: int) -> Seq<char> {
    if n < 0 {
        seq!['-'] + decimal_digits((-n) as nat)
    } else {
        decimal_digits(n as nat)
    }
}

/// The amount of `minor` minor units, written in whole units with two
/// decimals: `1234` is `12.34`, `-5` is `-0.05`.
pub open spec fn money(minor: int) -> Seq<char> {
    let magnitude = if minor < 0 {
        -minor
    } else {
        minor
    };
    let sign = if minor < 0 {
        seq!['-']
    } else {
        Seq::<char>::empty()
    };
    sign + decimal_digits((magnitude / 100) as nat) + seq!['.'] + seq![
        digit_char((magnitude / 10) % 10),
        digit_char(magnitude % 10),
    ]
}

/// The text of one digit.
fn digit_text(d: u64) -> (text: &'static str)
    requires
        d < 10,
    ensures
        text@ == seq![digit_char(d as int)],
{
    proof {
        reveal_strlit("0");
        reveal_strlit("1");
        reveal_strlit("2");
        reveal_strlit("3");
        reveal_strlit("4");
        reveal_strlit("5");
        reveal_strlit("6");
        reveal_strlit("7");
        reveal_strlit("8");
        reveal_strlit("9");
    }
    if d == 0 {
        "0"
    } else if d == 1 {
        "1"
    } else if d == 2 {
        "2"
    } else if d == 3 {
        "3"
    } else if d == 4 {
        "4"
    } else if d == 5 {
        "5"
    } else if d == 6 {
        "6"
    } else if d == 7 {
        "7"
    } else if d == 8 {
        "8"
    } else {
        "9"
    }
}

/// Appends the decimal digits of `n` to `out`.
pub fn push_digits(out: &mut String, n: u128)
    ensures
        final(out)@ == old(out)@ + decimal_digits(n as nat),
    decreases n,
{
    if n >= 10 {
        push_digits(out, n / 10);
    }
    out.append(digit_text((n % 10) as u64));
}

/// The size of `n` without its sign.
fn magnitude(n: i128) -> (m: u128)
    ensures
        m == if n < 0 {
            -(n as int)
        } else {
            n as int
        },
{
    if n == -0x8000_0000_0000_0000_0000_0000_0000_0000 {
        0x8000_0000_0000_0000_0000_0000_0000_0000
    } else if n < 0 {
        (-n) as u128
    } else {
        n as u128
    }
}

/// Appends the whole number `n` in decimal to `out`.
pub fn push_decimal(out: &mut String, n: i128)
    ensures
        final(out)@ == old(out)@ + decimal(n as int),
{
    if n < 0 {
        proof {
            reveal_strlit("-");
        }
        out.append("-");
    }
    push_digits(out, magnitude(n));
}

/// The whole number `n` in decimal.
pub fn decimal_text(n: i128) -> (text: String)
    ensures
        text@ == decimal(n as int),
{
    let mut text = String::new();
    push_decimal(&mut text, n);
    text
}

/// Appends the amount of `minor` minor units, in whole units with two
/// decimals, to `out`.
pub fn push_money(out: &mut String, minor: i128)
    ensures
        final(out)@ == old(out)@ + money(minor as int),
{
    let m = magnitude(minor);
    if minor < 0 {
        proof {
            reveal_strlit("-");
        }
        out.append("-");
    }
    push_digits(out, m / 100);
    proof {
        reveal_strlit(".");
    }
    out.append(".");
    out.append(digit_text(((m / 10) % 10) as u64));
    out.append(digit_text((m % 10) as u64));
}

/// The amount of `minor` minor units, in whole units with two decimals.
pub fn money_text(minor: i128) -> (text: String)
    ensures
        text@ == money(minor as int),
{
    let mut text = String::new();
    push_money(&mut text, minor);
    text
}

/// Whether `c` is white space: one of the characters to which Unicode gives
/// the property `White_Space`. These are the tab, the line feed, the
/// vertical tab, the form feed, the carriage return, the space, the next
/// line, the no-break space, the Ogham space mark, the spaces from the en
/// quad to the hair space, the line separator, the paragraph separator, the
/// narrow no-break space, the medium mathematical space and the ideographic
/// space.
pub open spec fn is_white_space(c: char) -> bool {
    let n = c as u32;
    ||| 0x09 <= n <= 0x0d
    ||| n == 0x20
    ||| n == 0x85
    ||| n == 0xa0
    ||| n == 0x1680
    ||| 0x2000 <= n <= 0x200a
    ||| n == 0x2028
    ||| n == 0x2029
    ||| n == 0x202f
    ||| n == 0x205f
    ||| n == 0x3000
}

/// The text `text` without the white space at its start.
pub open spec fn trimmed_start(text: Seq<char>) -> Seq<char>
    decreases text.len(),
{
    if text.len() > 0 && is_white_space(text.first()) {
        trimmed_start(text.drop_first())
    } else {
        text
    }
}

/// The text `text` without the white space at its end.
pub open spec fn trimmed_end(text: Seq<char>) -> Seq<char>
    decreases text.len(),
{
    if text.len() > 0 && is_white_space(text.last()) {
        trimmed_end(text.drop_last())
    } else {
        text
    }
}

/// The text `text` without the white space at its start and at its end:
/// what lies between its first and its last character that is no white
/// space, both included, and nothing if it has none.
#[verifier::opaque]
pub open spec fn trimmed(text: Seq<char>) -> Seq<char> {
    trimmed_end(trimmed_start(text))
}

/// Takes the white space at the start and at the end of `text` away with
/// `str::trim`, which takes as white space the characters with the Unicode
/// property `White_Space`.
#[verifier::external_body]
pub(crate) fn trim_text(text: &str) -> (rest: &str)
    ensures
        rest@ == trimmed(text@),
{
    text.trim()
}

/// Appends the bytes `bytes` to `out`.
pub fn push_bytes(out: &mut Vec<u8>, bytes: &[u8])
    ensures
        final(out)@ == old(out)@ + bytes@,
{
    let mut i: usize = 0;
    while i < bytes.len()
        invariant
            i <= bytes@.len(),
            out@ == old(out)@ + bytes@.take(i as int),
        decreases bytes@.len() - i,
    {
        out.push(bytes[i]);
        i += 1;
    }
}

/// A copy of an optional text.
pub fn copy_opt_text(text: &Option<String>) -> (copy: Option<String>)
    ensures
        copy == *text,
{
    match text {
        Some(t) => Some(t.clone()),
        None => None,
    }
}

/// Whether two texts hold the same characters.
pub fn same_text(a: &str, b: &str) -> (same: bool)
    ensures
        same == (a@ == b@),
{
    a.to_owned() == b.to_owned()
}

/// Whether `part` occurs in `text`: some stretch of `text` holds the
/// characters of `part`.
pub open spec fn has_part(text: Seq<char>, part: Seq<char>) -> bool {
    exists|i: int|
        0 <= i && i + part.len() <= text.len() && #[trigger] text.subrange(i, i + part.len()) == part
}

/// Asks `str::contains` whether `part` occurs in `text`.
#[verifier::external_body]
pub(crate) fn contains_text(text: &str, part: &str) -> (found: bool)
    ensures
        found == has_part(text@, part@),
{
    text.contains(part)
}

/// So many spaces.
pub open spec fn spaces(n: int) -> Seq<char> {
    Seq::new(
        if n > 0 {
            n as nat
        } else {
            0
        },
        |i: int| ' ',
    )
}

/// `text`, followed by as many spaces as it takes to make it `width`
/// characters long; `text` itself if it is that long already.
pub open spec fn padded_left(text: Seq<char>, width: int) -> Seq<char> {
    text + spaces(width - text.len())
}

/// `text`, preceded by as many spaces as it takes to make it `width`
/// characters long; `text` itself if it is that long already.
pub open spec fn padded_right(text: Seq<char>, width: int) -> Seq<char> {
    spaces(width - text.len()) + text
}

/// Appends `n` spaces to `out`.
pub fn push_spaces(out: &mut String, n: usize)
    ensures
        final(out)@ == old(out)@ + spaces(n as int),
{
    let mut i: usize = 0;
    while i < n
        invariant
            i <= n,
            out@ == old(out)@ + spaces(i as int),
        decreases n - i,
    {
        proof {
            reveal_strlit(" ");
        }
        out.append(" ");
        i += 1;
    }
}

/// How many spaces it takes to make `text` `width` characters long.
fn missing(text: &str, width: usize) -> (n: usize)
    ensures
        spaces(n as int) == spaces(width - text@.len()),
{
    let len = text.unicode_len();
    if len < width {
        width - len
    } else {
        0
    }
}

/// Appends `text` to `out`, filled up with spaces after it to `width`
/// characters.
pub fn push_padded_left(out: &mut String, text: &str, width: usize)
    ensures
        final(out)@ == old(out)@ + padded_left(text@, width as int),
{
    out.append(text);
    push_spaces(out, missing(text, width));
}

/// Appends `text` to `out`, filled up with spaces before it to `width`
/// characters.
pub fn push_padded_right(out: &mut String, text: &str, width: usize)
    ensures
        final(out)@ == old(out)@ + padded_right(text@, width as int),
{
    push_spaces(out, missing(text, width));
    out.append(text);
}

/// So many zeros.
pub open spec fn zeros(n: int) -> Seq<char> {
    Seq::new(
        if n > 0 {
            n as nat
        } else {
            0
        },
        |i: int| '0',
    )
}

/// The whole number `n` in decimal, filled up with zeros before its digits
/// to `width` characters, the sign counted.
pub open spec fn zero_padded(n: int, width: int) -> Seq<char> {
    if n < 0 {
        seq!['-'] + zeros(width - 1 - decimal_digits((-n) as nat).len()) + decimal_digits(
            (-n) as nat,
        )
    } else {
        zeros(width - decimal_digits(n as nat).len()) + decimal_digits(n as nat)
    }
}

/// Appends `n` zeros to `out`.
fn push_zeros(out: &mut String, n: usize)
    ensures
        final(out)@ == old(out)@ + zeros(n as int),
{
    let mut i: usize = 0;
    while i < n
        invariant
            i <= n,
            out@ == old(out)@ + zeros(i as int),
        decreases n - i,
    {
        proof {
            reveal_strlit("0");
        }
        out.append("0");
        i += 1;
    }
}

/// Appends the whole number `n` in decimal to `out`, filled up with zeros
/// before its digits to `width` characters, the sign counted.
pub fn push_zero_padded(out: &mut String, n: i64, width: usize)
    ensures
        final(out)@ == old(out)@ + zero_padded(n as int, width as int),
{
    let mut digits = String::new();
    push_digits(&mut digits, magnitude(n as i128));
    let len = digits.as_str().unicode_len();
    let taken: usize = if n < 0 {
        if len < usize::MAX {
            len + 1
        } else {
            len
        }
    } else {
        len
    };
    if n < 0 {
        proof {
            reveal_strlit("-");
        }
        out.append("-");
    }
    if taken < width {
        push_zeros(out, width - taken);
    }
    out.append(digits.as_str());
}

} // verus!
