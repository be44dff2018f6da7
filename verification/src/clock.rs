//! The time of day for commit messages: the system clock, read without
//! trusting it, and the text of a time in UTC as `chrono` writes it.

use vstd::prelude::*;

verus! {

/// The first second of the year 0, in seconds since the Unix epoch.
pub const FIRST_SECOND_OF_YEAR_0: i64 = -62_167_219_200;

/// The last second of the year 9999, in seconds since the Unix epoch.
pub const LAST_SECOND_OF_YEAR_9999: i64 = 253_402_300_799;

/// `std::time::SystemTime`, a reading of the system clock. Nothing is known
/// of its inside.
#[verifier::external_type_specification]
#[verifier::external_body]
pub struct ExSystemTime(std::time::SystemTime);

/// `SystemTime::now`: the system clock as it reads now. Nothing is promised
/// of the reading.
#[verifier::external_body]
fn system_time_now() -> std::time::SystemTime {
    std::time::SystemTime::now()
}

/// `SystemTime::duration_since(UNIX_EPOCH)`: the whole seconds from the Unix
/// epoch to `time`, and none where `time` lies before the epoch. Nothing is
/// promised of the number.
#[verifier::external_body]
fn seconds_since_epoch(time: &std::time::SystemTime) -> Option<u64> {
    match time.duration_since(std::time::UNIX_EPOCH) {
        Ok(span) => Some(span.as_secs()),
        Err(_) => None,
    }
}

/// The text of the time `seconds` after the Unix epoch, in UTC, as `chrono`
/// writes it in the form of RFC 3339 with whole seconds and `Z` for the
/// offset; none where `chrono` cannot hold the time.
pub uninterp spec fn utc_text(seconds: i64) -> Option<Seq<char>>;

/// Whether `c` is one of the digits `0` to `9`.
pub open spec fn is_decimal_digit(c: char) -> bool {
    '0' <= c <= '9'
}

/// Whether `text` has the form `YYYY-MM-DDTHH:MM:SSZ`.
pub open spec fn is_utc_stamp(text: Seq<char>) -> bool {
    &&& text.len() == 20
    &&& forall|i: int|
        0 <= i < 20 && i != 4 && i != 7 && i != 10 && i != 13 && i != 16 && i != 19
            ==> is_decimal_digit(#[trigger] text[i])
    &&& text[4] == '-'
    &&& text[7] == '-'
    &&& text[10] == 'T'
    &&& text[13] == ':'
    &&& text[16] == ':'
    &&& text[19] == 'Z'
}

/// Whether `seconds` after the Unix epoch lies in the years 0 to 9999.
pub open spec fn in_four_digit_years(seconds: i64) -> bool {
    FIRST_SECOND_OF_YEAR_0 <= seconds <= LAST_SECOND_OF_YEAR_9999
}

/// `DateTime::from_timestamp(seconds, 0)` and, on the time it gives,
/// `DateTime::to_rfc3339_opts(SecondsFormat::Secs, true)`: the text of the
/// time in UTC. There is a text for every time in the years 0 to 9999, and
/// it has the form `YYYY-MM-DDTHH:MM:SSZ`.
#[verifier::external_body]
fn format_utc_seconds(seconds: i64) -> (r: Option<String>)
    ensures
        r.deep_view() == utc_text(seconds),
        r is Some || !in_four_digit_years(seconds),
        r matches Some(text) ==> in_four_digit_years(seconds) ==> is_utc_stamp(text@),
{
    match chrono::DateTime::from_timestamp(seconds, 0) {
        Some(time) => Some(time.to_rfc3339_opts(chrono::SecondsFormat::Secs, true)),
        None => None,
    }
}

/// The text of the time `seconds` after the Unix epoch, in UTC.
pub fn timestamp_text(seconds: i64) -> (r: Option<String>)
    ensures
        r.deep_view() == utc_text(seconds),
        in_four_digit_years(seconds) ==> (r matches Some(text) && is_utc_stamp(text@)),
{
    format_utc_seconds(seconds)
}

/// The text of the time that the clock read: none where the clock read no
/// time, or one that does not fit.
pub open spec fn clock_text(clock: Option<u64>) -> Option<Seq<char>> {
    match clock {
        Some(seconds) if seconds <= i64::MAX => utc_text(seconds as i64),
        _ => None,
    }
}

/// The text of the time that the clock read, `clock` being the seconds since
/// the Unix epoch, if the clock read any.
pub fn text_of_reading(clock: Option<u64>) -> (r: Option<String>)
    ensures
        r.deep_view() == clock_text(clock),
        (clock matches Some(seconds) && seconds <= LAST_SECOND_OF_YEAR_9999) ==> (r matches Some(
            text,
        ) && is_utc_stamp(text@)),
{
    match clock {
        Some(seconds) => {
            if seconds <= 0x7fff_ffff_ffff_ffff {
                format_utc_seconds(seconds as i64)
            } else {
                None
            }
        },
        None => None,
    }
}

/// The text of the current time in UTC; none where the system clock reads a
/// time before 1970 or one that cannot be written. What comes back is the
/// text of some reading of the clock.
pub fn current_timestamp() -> (r: Option<String>)
    ensures
        r matches Some(text) ==> exists|clock: Option<u64>|
            #[trigger] clock_text(clock) == Some(text@),
{
    let now = system_time_now();
    let clock = seconds_since_epoch(&now);
    let r = text_of_reading(clock);
    proof {
        if r is Some {
            assert(clock_text(clock) == Some(r->0@));
        }
    }
    r
}

} // verus!
