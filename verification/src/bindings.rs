//! Trusted items: the calls that the library makes into outside crates.
//! Each contract below is taken on trust; the doc comment above each one
//! says what it claims of the outside code.

use vstd::prelude::*;

verus! {

/// Calls `non_empty_string::NonEmptyString::new` and takes the inner `String`
/// back out with `NonEmptyString::into_inner`.
/// Claimed: the crate refuses exactly the empty string, handing it back in
/// `Err`, and otherwise keeps the string as it is.
#[verifier::external_body]
pub(crate) fn non_empty_string_new(s: String) -> (r: Result<String, String>)
    ensures
        match r {
            Ok(v) => v@ == s@ && s@.len() > 0,
            Err(v) => v@ == s@ && s@.len() == 0,
        },
{
    non_empty_string::NonEmptyString::new(s).map(|n| n.into_inner())
}

/// Calls `uuid::Uuid::now_v7` and reads the identifier as an integer with
/// `Uuid::as_u128` (big-endian, so the first byte is the top one).
/// Claimed: the identifier carries version 7 in its version field and the
/// bits `10` in its variant field, which the crate's encoder always sets.
/// The other bits come from the clock and from chance: nothing is claimed
/// of them, and two calls may give anything.
#[verifier::external_body]
pub(crate) fn uuid_now_v7() -> (r: u128)
    ensures
        (r >> 76u128) & 0xfu128 == 7,
        (r >> 62u128) & 0x3u128 == 2,
{
    uuid::Uuid::now_v7().as_u128()
}

/// Declares `chrono::format::ParseError`, which a failed parse of a date
/// gives back.
#[verifier::external_type_specification]
#[verifier::external_body]
pub struct ExChronoParseError(chrono::format::ParseError);

/// The earliest date and time that chrono represents (-262143-01-01
/// 00:00:00), in seconds since the Unix epoch.
pub const NAIVE_MIN_SECS: i64 = -8334601228800;

/// The latest whole second that chrono represents (+262142-12-31
/// 23:59:59), in seconds since the Unix epoch.
pub const NAIVE_MAX_SECS: i64 = 8210266876799;

/// `t` is a whole second that chrono's date-time types can hold.
pub open spec fn in_chrono_range(t: int) -> bool {
    NAIVE_MIN_SECS <= t <= NAIVE_MAX_SECS
}

/// The date and time that `chrono::NaiveDateTime::parse_from_str` reads from
/// `s` with the format `fmt`, as whole seconds since the epoch read as UTC,
/// or `None` where it refuses the text.
pub uninterp spec fn naive_parse(s: Seq<char>, fmt: Seq<char>) -> Option<i64>;

/// Calls `chrono::FixedOffset::east_opt` and reads the offset back with
/// `FixedOffset::local_minus_utc`.
/// Claimed, as the crate's source shows: an offset exists for less than a
/// day either way, and local time is then `secs` seconds ahead of UTC.
#[verifier::external_body]
pub(crate) fn fixed_offset_east(secs: i32) -> (r: Option<i32>)
    ensures
        r == (if -86_400 < secs && secs < 86_400 {
            Some(secs)
        } else {
            None::<i32>
        }),
{
    chrono::FixedOffset::east_opt(secs).map(|o| o.local_minus_utc())
}

/// Calls `chrono::NaiveDateTime::parse_from_str` and reads the result as
/// whole seconds since the epoch (`and_utc().timestamp()`).
/// Claimed: the result is the named `naive_parse` of the text and the
/// format, and it lies in the range of chrono's date-time types, as every
/// `NaiveDateTime` does.
#[verifier::external_body]
pub(crate) fn naive_parse_from_str(s: &str, fmt: &str) -> (r: Result<i64, chrono::format::ParseError>)
    ensures
        match r {
            Ok(t) => naive_parse(s@, fmt@) == Some(t) && in_chrono_range(t as int),
            Err(_) => naive_parse(s@, fmt@) is None,
        },
{
    chrono::NaiveDateTime::parse_from_str(s, fmt).map(|d| d.and_utc().timestamp())
}

/// Reads `naive` as a local date and time at the fixed offset
/// `local_minus_utc` with `chrono::NaiveDateTime::and_local_timezone`, keeps
/// the single answer (`single`) and turns it to UTC (`to_utc`), as seconds.
/// Claimed, as the crate's source shows (`from_local_datetime` subtracts the
/// offset with `checked_sub_offset`): the result is `naive - local_minus_utc`
/// when that lies in chrono's range, and nothing otherwise.
#[verifier::external_body]
pub(crate) fn local_to_utc(naive: i64, local_minus_utc: i32) -> (r: Option<i64>)
    requires
        in_chrono_range(naive as int),
        -86_400 < local_minus_utc < 86_400,
    ensures
        r == (if in_chrono_range(naive - local_minus_utc) {
            Some((naive - local_minus_utc) as i64)
        } else {
            None::<i64>
        }),
{
    let local = chrono::DateTime::from_timestamp(naive, 0).unwrap().naive_utc();
    let offset = chrono::FixedOffset::east_opt(local_minus_utc).unwrap();
    local.and_local_timezone(offset).single().map(|d| d.to_utc().timestamp())
}

/// Moves the UTC time `utc` to the fixed offset `local_minus_utc` with
/// `chrono::DateTime::with_timezone` and reads the local time with
/// `DateTime::naive_local`, as seconds.
/// Claimed: the local time is `utc + local_minus_utc`. `naive_local` panics
/// when that leaves chrono's range, which the precondition rules out.
#[verifier::external_body]
pub(crate) fn utc_to_local(utc: i64, local_minus_utc: i32) -> (r: i64)
    requires
        in_chrono_range(utc as int),
        in_chrono_range(utc + local_minus_utc),
        -86_400 < local_minus_utc < 86_400,
    ensures
        r == utc + local_minus_utc,
{
    let offset = chrono::FixedOffset::east_opt(local_minus_utc).unwrap();
    chrono::DateTime::from_timestamp(utc, 0).unwrap().with_timezone(&offset).naive_local().and_utc().timestamp()
}

/// Declares `serde_json::Error`, the error type of serde_json's encoders.
#[verifier::external_type_specification]
#[verifier::external_body]
pub struct ExSerdeJsonError(serde_json::Error);

/// The hexadecimal digit of `d` (below 16), in lower case.
pub open spec fn hex_digit(d: int) -> char {
    if d < 10 {
        (d + 48) as char
    } else {
        (d + 87) as char
    }
}

/// How serde_json writes one character inside a JSON string: quote and
/// backslash behind a backslash, the control characters that have a short
/// escape with it, the other control characters as `\u00XX`, and every
/// other character as it is.
pub open spec fn json_escape_char(c: char) -> Seq<char> {
    if c == '"' {
        seq!['\\', '"']
    } else if c == '\\' {
        seq!['\\', '\\']
    } else if c == '\u{8}' {
        seq!['\\', 'b']
    } else if c == '\t' {
        seq!['\\', 't']
    } else if c == '\n' {
        seq!['\\', 'n']
    } else if c == '\u{c}' {
        seq!['\\', 'f']
    } else if c == '\r' {
        seq!['\\', 'r']
    } else if (c as int) < 0x20 {
        seq!['\\', 'u', '0', '0', hex_digit((c as int) / 16), hex_digit((c as int) % 16)]
    } else {
        seq![c]
    }
}

/// The characters of `s`, each written as inside a JSON string.
pub open spec fn json_escape(s: Seq<char>) -> Seq<char>
    decreases s.len(),
{
    if s.len() == 0 {
        Seq::empty()
    } else {
        json_escape_char(s[0]) + json_escape(s.drop_first())
    }
}

/// `s` as a JSON string literal, quotes included.
pub open spec fn json_quoted(s: Seq<char>) -> Seq<char> {
    seq!['"'] + json_escape(s) + seq!['"']
}

/// Calls `serde_json::to_string` on a string slice.
/// Claimed, as the crate's source shows (`serialize_str` and
/// `format_escaped_str` with its `ESCAPE` table and `write_char_escape`):
/// the result is the string in quotes with the escapes that
/// `json_escape_char` lists, and it never fails, since it writes into a
/// `Vec<u8>`, which takes every write.
#[verifier::external_body]
pub(crate) fn json_string_literal(s: &str) -> (r: Result<String, serde_json::Error>)
    ensures
        match r {
            Ok(v) => v@ == json_quoted(s@),
            Err(_) => false,
        },
{
    serde_json::to_string(s)
}

/// Calls `cast::usize` on a `u64`. On 64-bit targets, the only ones where
/// the crate offers this conversion as infallible, it is the identity.
/// Claimed: the value is kept.
#[verifier::external_body]
pub(crate) fn cast_usize(x: u64) -> (r: usize)
    requires
        x <= usize::MAX,
    ensures
        r == x,
{
    cast::usize(x)
}

/// Calls `mime::Mime::essence_str` on `mime::APPLICATION_JAVASCRIPT_UTF_8`.
/// Claimed: the type without its parameters, `application/javascript`.
#[verifier::external_body]
pub(crate) fn javascript_essence() -> (r: String)
    ensures
        r@ == "application/javascript"@,
{
    mime::APPLICATION_JAVASCRIPT_UTF_8.essence_str().to_string()
}

/// Calls `mime::Mime::essence_str` on `mime::TEXT_CSS_UTF_8`.
/// Claimed: the type without its parameters, `text/css`.
#[verifier::external_body]
pub(crate) fn css_essence() -> (r: String)
    ensures
        r@ == "text/css"@,
{
    mime::TEXT_CSS_UTF_8.essence_str().to_string()
}

/// Calls `mime::Mime::essence_str` on `mime::IMAGE_SVG`.
/// Claimed: the type, which has no parameters, `image/svg+xml`.
#[verifier::external_body]
pub(crate) fn svg_essence() -> (r: String)
    ensures
        r@ == "image/svg+xml"@,
{
    mime::IMAGE_SVG.essence_str().to_string()
}

} // verus!
