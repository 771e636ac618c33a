//! Points in time, kept as seconds and nanoseconds since the Unix epoch, and the
//! text forms in which the worker writes and reads them (through `chrono`).

use chrono::TimeZone;
use std::time::{SystemTime, UNIX_EPOCH};
use vstd::prelude::*;

verus! {

/// The text form of a time in the results table, a `chrono` format string.
pub const DB_TIME_FORMAT: &'static str = "%Y-%m-%d %H:%M:%S";

/// The first second that `chrono` represents: -262143-01-01 00:00:00 UTC.
pub const MIN_UNIX_SECS: i64 = -8_334_601_228_800;

/// The last second that `chrono` represents: +262142-12-31 23:59:59 UTC.
pub const MAX_UNIX_SECS: i64 = 8_210_266_876_799;

/// Whether `chrono` can represent the UTC time `secs` seconds and `nanos` nanoseconds
/// after the Unix epoch (`DateTime::from_timestamp(secs, nanos)` is `Some`): the day
/// lies between -262143-01-01 and +262142-12-31, and the nanoseconds run past a billion
/// only inside a leap second, the last second of a minute.
pub open spec fn chrono_representable(secs: i64, nanos: u32) -> bool {
    &&& MIN_UNIX_SECS <= secs <= MAX_UNIX_SECS
    &&& nanos < 2_000_000_000
    &&& nanos >= 1_000_000_000 ==> secs % 60 == 59
}

/// The text that `chrono` writes for a representable time under a format string.
pub uninterp spec fn chrono_format(secs: i64, nanos: u32, format: Seq<char>) -> Seq<char>;

/// The RFC 3339 text that `chrono` writes for a representable UTC time.
pub uninterp spec fn chrono_rfc3339(secs: i64, nanos: u32) -> Seq<char>;

/// The UTC time, as seconds and nanoseconds, that `chrono` reads from a text under a
/// format string, if it reads one.
pub uninterp spec fn chrono_parse(text: Seq<char>, format: Seq<char>) -> Option<(i64, u32)>;

/// `chrono::DateTime::from_timestamp(secs, nanos).is_some()`: whether `chrono` represents
/// that time. chrono splits `secs` into days and seconds of the day, accepts the days
/// whose date lies in its range of years, and accepts the nanoseconds as
/// `NaiveTime::from_num_seconds_from_midnight_opt` does.
#[verifier::external_body]
fn representable(secs: i64, nanos: u32) -> (r: bool)
    ensures
        r == chrono_representable(secs, nanos),
{
    chrono::DateTime::from_timestamp(secs, nanos).is_some()
}

/// The system clock, as `std::time::SystemTime`; opaque here.
#[verifier::external_type_specification]
#[verifier::external_body]
pub struct ExSystemTime(std::time::SystemTime);

/// `SystemTime::now()`: a reading of the system clock. Which time it reads depends on the
/// clock and is not stated.
#[verifier::external_body]
fn system_now() -> SystemTime {
    SystemTime::now()
}

/// `t.duration_since(UNIX_EPOCH)`, as the side of the epoch on which the reading lies
/// (`true` at or after it, `false` when the standard library answers with the error that
/// carries the distance before it) and that distance in whole seconds and the nanoseconds
/// past them. The standard library documents that the sub-second nanoseconds of a
/// `Duration` are fewer than a billion; the distance itself depends on the reading and is
/// not stated.
#[verifier::external_body]
fn since_epoch(t: &SystemTime) -> (r: (bool, u64, u32))
    ensures
        r.2 < 1_000_000_000,
{
    match t.duration_since(UNIX_EPOCH) {
        Ok(d) => (true, d.as_secs(), d.subsec_nanos()),
        Err(e) => (false, e.duration().as_secs(), e.duration().subsec_nanos()),
    }
}

/// The time, as whole seconds (rounded down) and nanoseconds past them, of a clock
/// reading `secs` seconds and `nanos` nanoseconds after the Unix epoch (`after`) or
/// before it.
pub open spec fn reading_time(after: bool, secs: u64, nanos: u32) -> (int, int) {
    if after {
        (secs as int, nanos as int)
    } else if nanos == 0 {
        (-(secs as int), 0)
    } else {
        (-(secs as int) - 1, 1_000_000_000 - nanos)
    }
}

/// `DateTime::<Utc>::format(format).to_string()` on a representable time, for the
/// format of the results table (chrono panics on a malformed format; this one is not).
/// The contract names the text.
#[verifier::external_body]
fn format_time(secs: i64, nanos: u32, format: &str) -> (r: String)
    requires
        chrono_representable(secs, nanos),
        format@ == DB_TIME_FORMAT@,
    ensures
        r@ == chrono_format(secs, nanos, format@),
{
    chrono::DateTime::from_timestamp(secs, nanos).unwrap().format(format).to_string()
}

/// `DateTime::<Utc>::to_rfc3339()` on a representable time. The contract names the text.
#[verifier::external_body]
fn rfc3339_time(secs: i64, nanos: u32) -> (r: String)
    requires
        chrono_representable(secs, nanos),
    ensures
        r@ == chrono_rfc3339(secs, nanos),
{
    chrono::DateTime::from_timestamp(secs, nanos).unwrap().to_rfc3339()
}

/// `Utc.datetime_from_str(text, format)`, as seconds and nanoseconds. The contract names
/// the answer, and states that a time chrono reads is one it represents.
#[verifier::external_body]
#[allow(deprecated)]
fn parse_time(text: &str, format: &str) -> (r: Option<(i64, u32)>)
    ensures
        r == chrono_parse(text@, format@),
        r matches Some(t) ==> chrono_representable(t.0, t.1),
{
    match chrono::Utc.datetime_from_str(text, format) {
        Ok(t) => Some((t.timestamp(), t.timestamp_subsec_nanos())),
        Err(_) => None,
    }
}

/// The time of a clock reading is the reading itself, counted from the epoch in
/// nanoseconds with the sign of its side: after the epoch it adds, before the epoch it
/// takes away, and the nanoseconds past the whole second stay under a billion.
pub proof fn law_reading_time_is_the_reading(after: bool, secs: u64, nanos: u32)
    requires
        nanos < 1_000_000_000,
    ensures
        0 <= reading_time(after, secs, nanos).1 < 1_000_000_000,
        reading_time(after, secs, nanos).0 * 1_000_000_000 + reading_time(after, secs, nanos).1
            == (if after { 1int } else { -1int }) * (secs * 1_000_000_000 + nanos),
{
    let s: int = secs as int;
    let n: int = nanos as int;
    assert((-1int) * (s * 1_000_000_000 + n) == (-s - 1) * 1_000_000_000 + (1_000_000_000 - n))
        by (nonlinear_arith);
    assert((-1int) * (s * 1_000_000_000 + 0) == (-s) * 1_000_000_000 + 0) by (nonlinear_arith);
    assert(1int * (s * 1_000_000_000 + n) == s * 1_000_000_000 + n) by (nonlinear_arith);
}

/// A UTC point in time that `chrono` represents.
#[derive(Clone, Copy, Debug)]
pub struct Timestamp {
    secs: i64,
    nanos: u32,
}

impl View for Timestamp {
    type V = (i64, u32);

    closed spec fn view(&self) -> (i64, u32) {
        (self.secs, self.nanos)
    }
}

impl Timestamp {
    #[verifier::type_invariant]
    spec fn representable(self) -> bool {
        chrono_representable(self.secs, self.nanos)
    }

    /// The time `secs` seconds and `nanos` nanoseconds after the Unix epoch, if `chrono`
    /// represents it.
    pub fn from_unix(secs: i64, nanos: u32) -> (r: Option<Timestamp>)
        ensures
            r is Some <==> chrono_representable(secs, nanos),
            r matches Some(t) ==> t@ == (secs, nanos),
    {
        if representable(secs, nanos) {
            Some(Timestamp { secs, nanos })
        } else {
            None
        }
    }

    /// The time of a clock reading `secs` seconds and `nanos` nanoseconds after the Unix
    /// epoch (`after`) or before it, if `chrono` represents it.
    pub fn from_reading(after: bool, secs: u64, nanos: u32) -> (r: Option<Timestamp>)
        requires
            nanos < 1_000_000_000,
        ensures
            r is Some <==> MIN_UNIX_SECS <= reading_time(after, secs, nanos).0 <= MAX_UNIX_SECS,
            r matches Some(t) ==> t@.0 == reading_time(after, secs, nanos).0 && t@.1
                == reading_time(after, secs, nanos).1,
    {
        if secs > 9_223_372_036_854_775_807u64 {
            return None;
        }
        let whole: i64 = secs as i64;
        if after {
            Timestamp::from_unix(whole, nanos)
        } else if nanos == 0 {
            Timestamp::from_unix(-whole, 0)
        } else {
            Timestamp::from_unix(-whole - 1, 1_000_000_000 - nanos)
        }
    }

    /// The present time as the system clock reads it, if `chrono` represents it; never
    /// inside a leap second.
    pub fn now() -> (r: Option<Timestamp>)
        ensures
            r matches Some(t) ==> t@.1 < 1_000_000_000,
    {
        let clock = system_now();
        let (after, secs, nanos) = since_epoch(&clock);
        Timestamp::from_reading(after, secs, nanos)
    }

    /// Whole seconds since the Unix epoch.
    pub fn secs(&self) -> (r: i64)
        ensures
            r == self@.0,
    {
        self.secs
    }

    /// Nanoseconds past the whole second.
    pub fn nanos(&self) -> (r: u32)
        ensures
            r == self@.1,
    {
        self.nanos
    }

    /// The text form of this time in the results table.
    pub open spec fn db_text_spec(self) -> Seq<char> {
        chrono_format(self@.0, self@.1, DB_TIME_FORMAT@)
    }

    /// The time in the text form of the results table (`%Y-%m-%d %H:%M:%S`).
    pub fn to_db_text(&self) -> (r: String)
        ensures
            r@ == self.db_text_spec(),
    {
        proof {
            use_type_invariant(self);
        }
        format_time(self.secs, self.nanos, DB_TIME_FORMAT)
    }

    /// The time in RFC 3339 form.
    pub fn to_rfc3339(&self) -> (r: String)
        ensures
            r@ == chrono_rfc3339(self@.0, self@.1),
    {
        proof {
            use_type_invariant(self);
        }
        rfc3339_time(self.secs, self.nanos)
    }

    /// Reads a time in the text form of the results table.
    pub fn from_db_text(text: &str) -> (r: Option<Timestamp>)
        ensures
            r is Some <==> chrono_parse(text@, DB_TIME_FORMAT@) is Some,
            r matches Some(t) ==> chrono_parse(text@, DB_TIME_FORMAT@) == Some(t@),
    {
        match parse_time(text, DB_TIME_FORMAT) {
            Some((secs, nanos)) => Some(Timestamp { secs, nanos }),
            None => None,
        }
    }
}

} // verus!
