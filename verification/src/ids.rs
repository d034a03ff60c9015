//! Identifiers, clocks and randomness: the calls into `uuid`, `chrono` and
//! `rand` that the domain logic makes. Identifiers are carried as `u128`
//! (a UUID's 128 bits) and instants as microseconds since the Unix epoch.

use vstd::prelude::*;

verus! {

/// The lowercase hexadecimal digit of a value below 16.
pub open spec fn hex_char(d: nat) -> char {
    if d < 10 {
        (('0' as nat) + d) as char
    } else {
        (('a' as nat) + d - 10) as char
    }
}

/// The last `n` hexadecimal digits of `x`, most significant first.
pub open spec fn hex_digits(x: nat, n: nat) -> Seq<char>
    decreases n,
{
    if n == 0 {
        Seq::empty()
    } else {
        hex_digits(x / 16, (n - 1) as nat).push(hex_char(x % 16))
    }
}

/// The canonical text of a UUID (what `uuid::Uuid`'s `Display` writes): the
/// 32 lowercase hexadecimal digits of its 128 bits, most significant first,
/// in groups of 8, 4, 4, 4 and 12 joined by hyphens.
pub open spec fn uuid_text_spec(id: u128) -> Seq<char> {
    let h = hex_digits(id as nat, 32);
    h.subrange(0, 8) + "-"@ + h.subrange(8, 12) + "-"@ + h.subrange(12, 16) + "-"@ + h.subrange(16, 20) + "-"@
        + h.subrange(20, 32)
}

/// What `uuid::Uuid::parse_str` accepts a text as, if anything.
pub uninterp spec fn uuid_parse_spec(s: Seq<char>) -> Option<u128>;

/// `uuid::Uuid::from_u128(id).to_string()`: the hyphenated lowercase text of
/// an identifier (`from_u128` takes the value's big-endian bytes; `Display`
/// writes them as hexadecimal in the 8-4-4-4-12 grouping). Claimed: the
/// result is `uuid_text_spec(id)`.
#[verifier::external_body]
pub(crate) fn uuid_text(id: u128) -> (r: String)
    ensures
        r@ == uuid_text_spec(id),
{
    uuid::Uuid::from_u128(id).to_string()
}

/// `uuid::Uuid::parse_str`: the identifier a text denotes, if it parses.
/// Claimed: the result is `uuid_parse_spec(s)`, and parsing the canonical
/// text of an identifier gives that identifier back (the documented
/// round trip of `Display` and `parse_str`).
#[verifier::external_body]
pub(crate) fn uuid_parse(s: &str) -> (r: Option<u128>)
    ensures
        r == uuid_parse_spec(s@),
        forall|id: u128| s@ == uuid_text_spec(id) ==> r == Some(id),
{
    match uuid::Uuid::parse_str(s) {
        Ok(u) => Some(u.as_u128()),
        Err(_) => None,
    }
}

/// `uuid::Uuid::new_v4()`: a fresh random identifier. Nothing is claimed of
/// the value (it is random).
#[verifier::external_body]
pub(crate) fn fresh_uuid() -> (r: u128) {
    uuid::Uuid::new_v4().as_u128()
}

/// `rand::thread_rng().fill_bytes` over eight bytes, read little-endian.
/// Nothing is claimed of the value (it is random).
#[verifier::external_body]
pub(crate) fn random_u64() -> (r: u64) {
    let mut bytes = [0u8; 8];
    rand::RngCore::fill_bytes(&mut rand::thread_rng(), &mut bytes);
    u64::from_le_bytes(bytes)
}

/// `chrono::DateTime::<Utc>::from(std::time::SystemTime::now())
/// .timestamp_micros()`: the current instant. The conversion handles a clock
/// that reads before the Unix epoch (a negative count) where `Utc::now`
/// would panic. Nothing is claimed of the value (it is the clock).
#[verifier::external_body]
pub(crate) fn now_micros() -> (r: i64) {
    chrono::DateTime::<chrono::Utc>::from(std::time::SystemTime::now()).timestamp_micros()
}

/// The `%Y%m%dT%H%M%SZ` text of an instant, when chrono can represent it.
pub uninterp spec fn utc_stamp_spec(micros: i64) -> Option<Seq<char>>;

/// The `YYYY-MM-DD` calendar day (UTC) of an instant, when chrono can
/// represent it.
pub uninterp spec fn utc_day_spec(micros: i64) -> Option<Seq<char>>;

/// `chrono::DateTime::from_timestamp_micros(m)` formatted with
/// `%Y%m%dT%H%M%SZ`. Claimed: the result is `utc_stamp_spec(m)`.
#[verifier::external_body]
pub(crate) fn utc_stamp(micros: i64) -> (r: Option<String>)
    ensures
        match utc_stamp_spec(micros) {
            Some(s) => r.is_some() && r->0@ == s,
            None => r.is_none(),
        },
{
    match chrono::DateTime::from_timestamp_micros(micros) {
        Some(t) => Some(t.format("%Y%m%dT%H%M%SZ").to_string()),
        None => None,
    }
}

/// `chrono::DateTime::from_timestamp_micros(m)`'s `date_naive()` text.
/// Claimed: the result is `utc_day_spec(m)`.
#[verifier::external_body]
pub(crate) fn utc_day(micros: i64) -> (r: Option<String>)
    ensures
        match utc_day_spec(micros) {
            Some(s) => r.is_some() && r->0@ == s,
            None => r.is_none(),
        },
{
    match chrono::DateTime::from_timestamp_micros(micros) {
        Some(t) => Some(t.date_naive().to_string()),
        None => None,
    }
}

/// `std::time::SystemTime::now()` as whole seconds since the Unix epoch (0
/// when the clock reads before the epoch). Nothing is claimed of the value.
#[verifier::external_body]
pub(crate) fn system_unix_secs() -> (r: u64) {
    match std::time::SystemTime::now().duration_since(std::time::UNIX_EPOCH) {
        Ok(d) => d.as_secs(),
        Err(_) => 0,
    }
}


/// What an RFC 3339 text denotes as an instant, if it parses.
pub uninterp spec fn instant_parse_spec(s: Seq<char>) -> Option<i64>;

/// `s.parse::<chrono::DateTime<chrono::FixedOffset>>()` (what deserializing
/// a `DateTime<Utc>` from a string runs), read as microseconds since the
/// Unix epoch. Claimed: the result is `instant_parse_spec(s)`; a function
/// of the text alone.
#[verifier::external_body]
pub(crate) fn parse_instant(s: &str) -> (r: Option<i64>)
    ensures
        r == instant_parse_spec(s@),
{
    match s.parse::<chrono::DateTime<chrono::FixedOffset>>() {
        Ok(t) => Some(t.timestamp_micros()),
        Err(_) => None,
    }
}

} // verus!
