//! Time and identifier sources: the monotonic clock, the wall clock and
//! random identifiers. Everything here depends on the machine or on chance,
//! so the contracts say only what holds of every outcome.

use std::time::Duration;
use std::time::Instant;
use crate::text::spec_hex;
use vstd::prelude::*;

verus! {

#[verifier::external_type_specification]
#[verifier::external_body]
pub struct ExInstant(std::time::Instant);

/// Total number of nanoseconds that a `Duration` spans.
pub uninterp spec fn duration_nanos(d: Duration) -> nat;

/// The current reading of the monotonic clock (`Instant::now`).
/// Nothing is promised of the reading.
#[verifier::external_body]
pub(crate) fn instant_now() -> Instant {
    Instant::now()
}

/// Time passed since `start` (`Instant::elapsed`). It depends on the clock,
/// so nothing is promised of it.
#[verifier::external_body]
pub(crate) fn instant_elapsed(start: &Instant) -> Duration {
    start.elapsed()
}

/// Where an `Instant` lies on the monotonic clock, in nanoseconds from an
/// origin the clock fixes.
pub uninterp spec fn instant_nanos(i: Instant) -> int;

/// `Instant::duration_since`: the time elapsed from `earlier` to `later`,
/// or zero when `earlier` is the later one, as std documents it.
#[verifier::external_body]
pub(crate) fn instant_duration_since(later: &Instant, earlier: &Instant) -> (d: Duration)
    ensures
        duration_nanos(d) == (if instant_nanos(*later) >= instant_nanos(*earlier) {
            (instant_nanos(*later) - instant_nanos(*earlier)) as nat
        } else {
            0nat
        }),
{
    later.duration_since(*earlier)
}

/// `Duration::as_nanos`: the total number of nanoseconds of `d`.
#[verifier::external_body]
pub(crate) fn duration_as_nanos(d: &Duration) -> (n: u128)
    ensures
        n as nat == duration_nanos(*d),
{
    d.as_nanos()
}

/// `Duration::from_secs`: a duration of `secs` whole seconds.
#[verifier::external_body]
pub(crate) fn duration_from_secs(secs: u64) -> (d: Duration)
    ensures
        duration_nanos(d) == secs as nat * 1_000_000_000,
{
    Duration::from_secs(secs)
}

/// `DateTime::<Utc>::timestamp_millis` of `Utc::now()`: the wall clock in
/// milliseconds since the Unix epoch. Nothing is promised of the reading.
#[verifier::external_body]
pub(crate) fn now_unix_millis() -> i64 {
    chrono::Utc::now().timestamp_millis()
}

/// `Uuid::new_v4().as_u128()`: a random identifier. Of the result only the
/// layout that the uuid crate documents for version 4 is stated: the version
/// nibble is 4 and the variant bits are `10`.
#[verifier::external_body]
pub(crate) fn new_uuid_v4() -> (id: u128)
    ensures
        (id >> 76u128) & 0xfu128 == 4,
        (id >> 62u128) & 0x3u128 == 2,
{
    uuid::Uuid::new_v4().as_u128()
}

/// What `Uuid::parse_str` makes of a text, as a 128-bit value.
pub uninterp spec fn uuid_parsed(text: Seq<char>) -> Option<u128>;

/// `Uuid::parse_str`, the parsed identifier taken as `u128`.
#[verifier::external_body]
pub(crate) fn parse_uuid(text: &str) -> (r: Option<u128>)
    ensures
        r == uuid_parsed(text@),
{
    match uuid::Uuid::parse_str(text) {
        Ok(u) => Some(u.as_u128()),
        Err(_) => None,
    }
}

/// The sixteen bytes of `v`, most significant first.
pub open spec fn be_bytes_u128(v: u128) -> Seq<u8> {
    Seq::new(16, |i: int| ((v >> ((8 * (15 - i)) as u128)) & 0xffu128) as u8)
}

/// The hyphenated lower-case form of an identifier, as in
/// `67e55044-10b1-426f-9247-bb680e5fe0c8`: the 32 hexadecimal digits of its
/// bytes, most significant first, in groups of 8, 4, 4, 4 and 12.
pub open spec fn spec_uuid_text(id: u128) -> Seq<char> {
    let h = spec_hex(be_bytes_u128(id));
    h.subrange(0, 8) + seq!['-'] + h.subrange(8, 12) + seq!['-'] + h.subrange(12, 16) + seq!['-']
        + h.subrange(16, 20) + seq!['-'] + h.subrange(20, 32)
}

/// `Uuid::from_u128(id).to_string()`: the uuid crate writes an identifier
/// in its hyphenated lower-case form.
#[verifier::external_body]
pub(crate) fn uuid_to_string(id: u128) -> (s: String)
    ensures
        s@ == spec_uuid_text(id),
{
    uuid::Uuid::from_u128(id).to_string()
}

/// Whether `c` is an ASCII decimal digit.
pub open spec fn is_digit(c: char) -> bool {
    '0' <= c && c <= '9'
}

/// The shape of a `%Y-%m-%d` date text: a year of at least four digits
/// (with a sign before it outside the years 0 to 9999), a dash, a
/// two-digit month, a dash and a two-digit day.
pub open spec fn spec_date_shaped(d: Seq<char>) -> bool {
    let n = d.len() as int;
    &&& n >= 10
    &&& d[n - 6] == '-'
    &&& d[n - 3] == '-'
    &&& is_digit(d[n - 5]) && is_digit(d[n - 4]) && is_digit(d[n - 2]) && is_digit(d[n - 1])
    &&& forall|i: int| 0 < i < n - 6 ==> is_digit(#[trigger] d[i])
    &&& (is_digit(d[0]) || d[0] == '+' || d[0] == '-')
}

/// `Utc::now().format("%Y-%m-%d")` as text: today's date in UTC. Which
/// date depends on the clock; chrono writes the year with at least four
/// digits (signed outside the years 0 to 9999) and the month and day with
/// two digits each.
#[verifier::external_body]
pub(crate) fn today_utc_date() -> (d: String)
    ensures
        spec_date_shaped(d@),
{
    chrono::Utc::now().format("%Y-%m-%d").to_string()
}

} // verus!
