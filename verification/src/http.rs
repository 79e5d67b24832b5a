//! Error answers of the API and the identifiers that arrive in request paths.
use vstd::prelude::*;

use crate::text::to_owned_string;

verus! {

/// An error answer: an HTTP status, a message, and whether the message goes
/// out as a JSON object `{"error": message}` rather than as plain text.
#[derive(Debug, Clone)]
pub struct ApiError {
    pub status: u16,
    pub message: String,
    pub json: bool,
}

impl ApiError {
    /// A plain-text error answer.
    pub fn text(status: u16, message: &str) -> (e: ApiError)
        ensures
            e.status == status,
            e.message@ == message@,
            !e.json,
    {
        ApiError { status, message: to_owned_string(message), json: false }
    }

    /// An error answer whose body is `{"error": message}`.
    pub fn json(status: u16, message: &str) -> (e: ApiError)
        ensures
            e.status == status,
            e.message@ == message@,
            e.json,
    {
        ApiError { status, message: to_owned_string(message), json: true }
    }
}

/// Whether an error answer has the given status, message and body form.
pub open spec fn is_error(e: ApiError, status: u16, message: Seq<char>, json: bool) -> bool {
    e.status == status && e.message@ == message && e.json == json
}

/// The answer of a store lookup: found, absent, or the store failed.
#[derive(Debug, Clone, Copy, PartialEq, Eq)]
pub enum Lookup {
    Found,
    Missing,
    Failed,
}

/// A lookup that must find its record: absent is `404` with `not_found`,
/// a store failure is `500 Database error`.
pub fn require_found(l: Lookup, not_found: &str) -> (r: Result<(), ApiError>)
    ensures
        l == Lookup::Found ==> r is Ok,
        l == Lookup::Missing ==> r is Err && is_error(r->Err_0, 404, not_found@, false),
        l == Lookup::Failed ==> r is Err && is_error(r->Err_0, 500, "Database error"@, false),
{
    match l {
        Lookup::Found => Ok(()),
        Lookup::Missing => Err(ApiError::text(404, not_found)),
        Lookup::Failed => Err(ApiError::text(500, "Database error")),
    }
}

// -- UUIDs ---------------------------------------------------------------------

/// What `uuid::Uuid::parse_str` gives for a string, as the UUID's 128-bit
/// big-endian value, or `None` where it reports an error.
pub uninterp spec fn uuid_parse(s: Seq<char>) -> Option<u128>;

/// The `k`-th hexadecimal digit (from 0, most significant first) of a
/// UUID's 128-bit value.
pub open spec fn uuid_nibble(u: u128, k: int) -> int {
    (u as int / vstd::arithmetic::power2::pow2((4 * (31 - k)) as nat) as int) % 16
}

/// The character at position `p` of a UUID's hyphenated text: hyphens at
/// 8, 13, 18 and 23, and the 32 digits in order around them.
pub open spec fn uuid_char(u: u128, p: int) -> char {
    if p == 8 || p == 13 || p == 18 || p == 23 {
        '-'
    } else {
        let k = if p < 8 {
            p
        } else if p < 13 {
            p - 1
        } else if p < 18 {
            p - 2
        } else if p < 23 {
            p - 3
        } else {
            p - 4
        };
        crate::webhooks::hex_digit(uuid_nibble(u, k))
    }
}

/// The hyphenated lower-case text of a UUID, as `Uuid`'s `Display` writes
/// it: the value's 32 hexadecimal digits, most significant first, in groups
/// of 8, 4, 4, 4 and 12 joined by hyphens.
pub open spec fn uuid_text(u: u128) -> Seq<char> {
    Seq::new(36, |p: int| uuid_char(u, p))
}

/// Calls `uuid::Uuid::parse_str` and keeps the parsed value as a `u128`
/// (`Uuid::as_u128`). Its result is named `uuid_parse`; nothing more is
/// claimed of which strings parse.
#[verifier::external_body]
pub(crate) fn parse_uuid_str(s: &str) -> (r: Option<u128>)
    ensures
        r == uuid_parse(s@),
{
    uuid::Uuid::parse_str(s).ok().map(|u| u.as_u128())
}

/// Renders a UUID with `Uuid::from_u128` and `to_string`: the hyphenated
/// lower-case form that uuid's `Display` writes, which `uuid_text` states.
#[verifier::external_body]
pub(crate) fn uuid_to_string(u: u128) -> (r: String)
    ensures
        r@ == uuid_text(u),
        r@.len() == 36,
{
    uuid::Uuid::from_u128(u).to_string()
}

/// Whether a UUID's 128-bit big-endian value is laid out as a random UUID
/// of RFC 4122: the version nibble (bits 76 to 79) is 4 and the two variant
/// bits (62 and 63) are `10`. The other 122 bits are free.
pub open spec fn is_random_uuid(u: u128) -> bool {
    &&& (u >> 76u128) & 0xfu128 == 4u128
    &&& (u >> 62u128) & 0x3u128 == 2u128
}

/// Fills `n` bytes from the operating system's random source with
/// `getrandom::fill`; `None` when the source fails. Nothing is claimed of
/// the bytes but their number.
#[verifier::external_body]
pub(crate) fn random_bytes(n: usize) -> (r: Option<Vec<u8>>)
    ensures
        r is Some ==> r->0.len() == n,
{
    let mut buf = vec![0u8; n];
    getrandom::fill(&mut buf).ok().map(|_| buf)
}

/// The value of bytes read as a big-endian unsigned number.
pub open spec fn be_value(b: Seq<u8>) -> int
    decreases b.len(),
{
    if b.len() == 0 {
        0
    } else {
        be_value(b.drop_last()) * 256 + b.last()
    }
}

/// The UUID that `uuid::Builder::from_random_bytes` makes of 16 bytes:
/// byte 6 keeps its low nibble under the version 4, byte 8 keeps its low
/// six bits under the RFC 4122 variant `10`; read big-endian.
pub open spec fn uuid_from_random(b: Seq<u8>) -> int {
    be_value(b.update(6, ((b[6] & 0x0fu8) | 0x40u8) as u8).update(8, ((b[8] & 0x3fu8) | 0x80u8) as u8))
}

/// Makes a version-4 UUID of 16 random bytes with
/// `uuid::Builder::from_random_bytes` (which sets the version and variant
/// bits, as `uuid_from_random` states) and keeps it as a `u128`.
#[verifier::external_body]
fn uuid_from_random_bytes(b: &[u8]) -> (r: u128)
    requires
        b.len() == 16,
    ensures
        r as int == uuid_from_random(b@),
        is_random_uuid(r),
{
    let mut a = [0u8; 16];
    a.copy_from_slice(b);
    uuid::Builder::from_random_bytes(a).into_uuid().as_u128()
}

/// The UUID of a new record: a random version-4 UUID, or `None` when the
/// operating system's random source fails. Every function that builds a
/// record takes it as an argument and is verified for every value of it.
pub fn fresh_uuid() -> (r: Option<u128>)
    ensures
        r is Some ==> is_random_uuid(r->0),
{
    match random_bytes(16) {
        Some(b) => Some(uuid_from_random_bytes(b.as_slice())),
        None => None,
    }
}

/// Whether a character is an ASCII decimal digit.
pub open spec fn is_digit_char(c: char) -> bool {
    '0' <= c <= '9'
}

/// Whether every character of a text is an ASCII decimal digit.
pub open spec fn all_digit_chars(s: Seq<char>) -> bool {
    forall|i: int| 0 <= i < s.len() ==> is_digit_char(#[trigger] s[i])
}

/// Whether the characters at `i` and `i + 1` are two decimal digits.
pub open spec fn two_digits_at(s: Seq<char>, i: int) -> bool {
    is_digit_char(s[i]) && is_digit_char(s[i + 1])
}

/// An RFC 3339 year: four digits, or (outside years 0 to 9999) a sign and
/// at least four digits.
pub open spec fn is_year_field(y: Seq<char>) -> bool {
    ||| y.len() == 4 && all_digit_chars(y)
    ||| y.len() >= 5 && (y[0] == '+' || y[0] == '-') && all_digit_chars(y.drop_first())
}

/// A fraction of a second: nothing, or a point and 3, 6 or 9 digits.
pub open spec fn is_fraction_field(f: Seq<char>) -> bool {
    ||| f.len() == 0
    ||| (f.len() == 4 || f.len() == 7 || f.len() == 10) && f[0] == '.' && all_digit_chars(
        f.drop_first(),
    )
}

/// `s` read as a UTC date-time in RFC 3339 with a year of `year_len`
/// characters and a fraction of `frac_len` characters:
/// `YYYY-MM-DDTHH:MM:SS`, the fraction, then `+00:00`.
pub open spec fn utc_rfc3339_parts(s: Seq<char>, year_len: int, frac_len: int) -> bool {
    let d = year_len;
    let z = year_len + 15 + frac_len;
    &&& 0 <= year_len && 0 <= frac_len && z + 6 == s.len()
    &&& is_year_field(s.take(year_len))
    &&& s[d] == '-' && two_digits_at(s, d + 1)
    &&& s[d + 3] == '-' && two_digits_at(s, d + 4)
    &&& s[d + 6] == 'T' && two_digits_at(s, d + 7)
    &&& s[d + 9] == ':' && two_digits_at(s, d + 10)
    &&& s[d + 12] == ':' && two_digits_at(s, d + 13)
    &&& is_fraction_field(s.subrange(d + 15, z))
    &&& s[z] == '+' && s[z + 1] == '0' && s[z + 2] == '0'
    &&& s[z + 3] == ':' && s[z + 4] == '0' && s[z + 5] == '0'
}

/// Whether `s` is a UTC date-time in the RFC 3339 form that chrono's
/// `to_rfc3339` writes for the zero offset.
pub open spec fn is_utc_rfc3339(s: Seq<char>) -> bool {
    exists|year_len: int, frac_len: int| #[trigger] utc_rfc3339_parts(s, year_len, frac_len)
}

/// Reads the system clock with `std::time::UNIX_EPOCH.elapsed()`: whole
/// seconds and the nanoseconds past them since 1970, or `None` for a clock
/// set before 1970. Which time it is depends on the clock: nothing is
/// claimed of it but that the nanoseconds stay under a second (as
/// `Duration::subsec_nanos` documents).
#[verifier::external_body]
fn clock_since_epoch() -> (r: Option<(u64, u32)>)
    ensures
        r matches Some((_, nanos)) ==> nanos < 1_000_000_000,
{
    std::time::UNIX_EPOCH.elapsed().ok().map(|d| (d.as_secs(), d.subsec_nanos()))
}

/// The text that chrono's `to_rfc3339` writes for the UTC date-time
/// `secs` seconds and `nanos` nanoseconds after the epoch.
pub uninterp spec fn rfc3339_text(secs: int, nanos: int) -> Seq<char>;

/// Writes a point in time as RFC 3339 text with
/// `chrono::DateTime::from_timestamp` and `to_rfc3339`; `None` where
/// `from_timestamp` finds the seconds out of its range or the nanoseconds
/// invalid. The text is named `rfc3339_text`; chrono writes the year (four
/// digits, or a sign and more digits outside 0 to 9999), two-digit month,
/// day, hour, minute and second, the sub-second part as nothing or 3, 6 or
/// 9 digits, and the zero offset as `+00:00`, which `is_utc_rfc3339` states.
#[verifier::external_body]
fn rfc3339_at(secs: i64, nanos: u32) -> (r: Option<String>)
    ensures
        r is Some ==> r->0@ == rfc3339_text(secs as int, nanos as int) && is_utc_rfc3339(r->0@),
{
    chrono::DateTime::from_timestamp(secs, nanos).map(|t| t.to_rfc3339())
}

/// The creation time of a new record: the current time as UTC RFC 3339
/// text, or `None` when the clock reads before 1970 or beyond chrono's
/// range. Every function that builds a record takes it as an argument.
pub fn now_rfc3339() -> (r: Option<String>)
    ensures
        r is Some ==> is_utc_rfc3339(r->0@),
{
    match clock_since_epoch() {
        Some((secs, nanos)) => {
            if secs > i64::MAX as u64 {
                None
            } else {
                rfc3339_at(secs as i64, nanos)
            }
        },
        None => None,
    }
}

/// A parsed path identifier, or `400` with `message` when it did not parse.
pub fn id_or_bad_request(parsed: Option<u128>, message: &str) -> (r: Result<u128, ApiError>)
    ensures
        parsed is Some ==> r == Ok::<u128, ApiError>(parsed->0),
        parsed is None ==> r is Err && is_error(r->Err_0, 400, message@, false),
{
    match parsed {
        Some(u) => Ok(u),
        None => Err(ApiError::text(400, message)),
    }
}

/// Parses a UUID path parameter; a string that does not parse is answered
/// with `400` and `message`.
pub fn parse_path_id(s: &str, message: &str) -> (r: Result<u128, ApiError>)
    ensures
        uuid_parse(s@) is Some ==> r == Ok::<u128, ApiError>(uuid_parse(s@)->0),
        uuid_parse(s@) is None ==> r is Err && is_error(r->Err_0, 400, message@, false),
{
    id_or_bad_request(parse_uuid_str(s), message)
}

} // verus!
