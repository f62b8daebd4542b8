//! The calls that leave this crate.
//!
//! Each item here states what an outside function does and is believed, not
//! proved. Everything else in the crate is proved from these statements.

use sha2::Digest;
use vstd::prelude::*;

use crate::text::digit_char;

verus! {

/// Whether `c` has the Unicode `White_Space` property, as `char::is_whitespace`
/// reports it.
pub uninterp spec fn char_is_whitespace(c: char) -> bool;

/// Calls `char::is_whitespace`. The table behind it is Unicode's; the contract
/// only gives its answer a name.
#[verifier::external_body]
pub(crate) fn is_whitespace(c: char) -> (r: bool)
    ensures
        r == char_is_whitespace(c),
{
    c.is_whitespace()
}

/// The SHA-256 digest of `data`, as `sha2` computes it.
pub uninterp spec fn sha256_digest(data: Seq<u8>) -> Seq<u8>;

/// Calls `sha2::Sha256::digest`. The digest depends on the bytes alone; the
/// contract gives it a name and says nothing of its value.
#[verifier::external_body]
pub(crate) fn sha256(data: &[u8]) -> (r: Vec<u8>)
    ensures
        r@ == sha256_digest(data@),
{
    sha2::Sha256::digest(data).to_vec()
}

/// The lower-case character that writes the hexadecimal digit `n`.
pub open spec fn hex_digit(n: int) -> char {
    if n < 10 {
        digit_char(n as nat)
    } else if n == 10 {
        'a'
    } else if n == 11 {
        'b'
    } else if n == 12 {
        'c'
    } else if n == 13 {
        'd'
    } else if n == 14 {
        'e'
    } else {
        'f'
    }
}

/// Two lower-case hexadecimal digits for each byte, high digit first.
pub open spec fn hex_lower(bytes: Seq<u8>) -> Seq<char>
    decreases bytes.len(),
{
    if bytes.len() == 0 {
        Seq::empty()
    } else {
        hex_lower(bytes.drop_last()).push(hex_digit(bytes.last() as int / 16)).push(
            hex_digit(bytes.last() as int % 16),
        )
    }
}

/// Calls `hex::encode`, which writes every byte as two digits taken from
/// `0123456789abcdef`, the high four bits first.
#[verifier::external_body]
pub(crate) fn hex_encode(bytes: &[u8]) -> (r: String)
    ensures
        r@ == hex_lower(bytes@),
{
    hex::encode(bytes)
}

/// Calls `uuid::Uuid::new_v4` and writes the identifier in its hyphenated
/// form, which is 36 characters long. The identifier is random: nothing else
/// is claimed of it.
#[verifier::external_body]
pub(crate) fn fresh_id() -> (r: String)
    ensures
        r@.len() == 36,
{
    uuid::Uuid::new_v4().to_string()
}

/// Calls `chrono::Local::now` and writes the moment as year, month, day, hour,
/// minute and second. The text depends on the clock and the time zone, so
/// nothing is claimed of it.
#[verifier::external_body]
pub(crate) fn local_timestamp() -> String {
    chrono::Local::now().format("%Y/%m/%d %H:%M:%S").to_string()
}

/// Whether `chrono` can hold a span of so many seconds: `TimeDelta` holds no
/// more than `i64::MAX` milliseconds in either direction.
pub open spec fn is_span(seconds: i64) -> bool {
    -(i64::MAX / 1000) <= seconds <= i64::MAX / 1000
}

/// Calls `chrono::Local::now`, adds `seconds` to it with
/// `chrono::TimeDelta::try_seconds` and `DateTime::checked_add_signed`, and
/// writes the moment as [`local_timestamp`] does. `try_seconds` gives no span
/// beyond `i64::MAX / 1000` seconds in either direction, so nothing is
/// returned there. Whether the moment itself can be held depends on the
/// clock, and the text on the clock and the time zone: nothing is claimed of
/// either.
#[verifier::external_body]
pub(crate) fn local_timestamp_after(seconds: i64) -> (r: Option<String>)
    ensures
        !is_span(seconds) ==> r is None,
{
    let span = chrono::TimeDelta::try_seconds(seconds)?;
    let moment = chrono::Local::now().checked_add_signed(span)?;
    Some(moment.format("%Y/%m/%d %H:%M:%S").to_string())
}

/// The least number of seconds since the Unix epoch that `chrono` gives for a
/// moment. `DateTime::timestamp` takes the number of the day, an `i32`, less
/// the 719 163 days before the epoch, times the 86 400 seconds of a day, and
/// adds the seconds since midnight.
pub open spec fn earliest_second() -> int {
    (i32::MIN - 719_163) * 86_400
}

/// The greatest number of seconds since the Unix epoch that `chrono` gives
/// for a moment: the last second of the last day whose number is an `i32`.
pub open spec fn latest_second() -> int {
    (i32::MAX - 719_163) * 86_400 + 86_399
}

/// Calls `chrono::Utc::now` and returns the seconds since the Unix epoch, by
/// `DateTime::timestamp`. The number depends on the clock; what is claimed
/// of it is the range in which `timestamp` computes every number.
#[verifier::external_body]
pub(crate) fn unix_now() -> (r: i64)
    ensures
        earliest_second() <= r <= latest_second(),
{
    chrono::Utc::now().timestamp()
}

/// The string that the member `key` of the JSON object written in `text`
/// holds, where `text` is JSON, is an object, has that member and the member
/// is a string.
pub uninterp spec fn json_string_member(text: Seq<char>, key: Seq<char>) -> Option<Seq<char>>;

/// Parses `text` with `serde_json::from_str` into a `serde_json::Value`, looks
/// `key` up with `Value::get` and reads it with `Value::as_str`. The answer
/// depends on the two strings alone; the contract gives it a name.
#[verifier::external_body]
pub(crate) fn json_string(text: &str, key: &str) -> (r: Option<String>)
    ensures
        crate::text::opt_text(r) == json_string_member(text@, key@),
{
    let parsed: Result<serde_json::Value, serde_json::Error> = serde_json::from_str(text);
    match parsed {
        Ok(value) => match value.get(key) {
            Some(member) => match member.as_str() {
                Some(s) => Some(s.to_string()),
                None => None,
            },
            None => None,
        },
        Err(_) => None,
    }
}

/// The text by which the standard library's `Debug` shows a string: quoted,
/// with its escapes.
pub uninterp spec fn debug_quoted(s: Seq<char>) -> Seq<char>;

/// Formats `s` with `{:?}`, the `Debug` form of `str`. The contract gives the
/// result a name.
#[verifier::external_body]
pub(crate) fn debug_string(s: &str) -> (r: String)
    ensures
        r@ == debug_quoted(s@),
{
    format!("{:?}", s)
}

/// `s` in lower case, by Unicode's rules, as `str::to_lowercase` gives it.
pub uninterp spec fn lowercased(s: Seq<char>) -> Seq<char>;

/// Calls `str::to_lowercase`. The contract gives the result a name.
#[verifier::external_body]
pub(crate) fn to_lowercase(s: &str) -> (r: String)
    ensures
        r@ == lowercased(s@),
{
    s.to_lowercase()
}

/// A JSON value of `serde_json`. It is carried through and never looked into.
#[verifier::external_type_specification]
#[verifier::external_body]
pub struct ExJsonValue(serde_json::Value);

/// `serde_json::Value::clone` returns a value equal to the one it was given.
pub assume_specification[ <serde_json::Value as Clone>::clone ](v: &serde_json::Value) -> (r:
    serde_json::Value)
    ensures
        r == *v,
;

} // verus!
