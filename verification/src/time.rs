//! Points in time and lengths of time, and how they are shown.
use crate::text;
use vstd::prelude::*;

verus! {

/// The seconds since 1970 and the nanoseconds that make a UTC date and time: from
/// the beginning of the year -262143 to the end of the year 262142, and a second or
/// more of nanoseconds only for a leap second, at the end of a minute.
pub open spec fn utc_range(secs: i64, nanos: u32) -> bool {
    &&& -8_334_601_228_800 <= secs <= 8_210_266_876_799
    &&& nanos < 1_000_000_000 || (nanos < 2_000_000_000 && secs as int % 60 == 59)
}

/// A UTC date and time in the notation of a pattern.
pub uninterp spec fn utc_format(secs: i64, nanos: u32, pattern: Seq<char>) -> Seq<char>;

/// The hours, minutes and seconds of a time of day, two digits each.
pub open spec fn clock(secs: int) -> Seq<char> {
    let day = secs % 86_400;
    text::two_digits(day / 3_600) + seq![':'] + text::two_digits(day / 60 % 60) + seq![':']
        + text::two_digits(day % 60)
}

/// The pattern for a time of day.
pub open spec fn clock_pattern() -> Seq<char> {
    "%H:%M:%S"@
}

/// The pattern for a date with its time of day.
pub open spec fn stamp_pattern() -> Seq<char> {
    "%Y-%m-%d %H:%M:%S UTC"@
}

/// `chrono::DateTime::from_timestamp`: tells whether it yields a date. It does
/// for the years that a date can have, and for nanoseconds below one second, or
/// below two in the last second of a minute.
#[verifier::external_body]
fn utc_accepts(secs: i64, nanos: u32) -> (r: bool)
    ensures
        r == utc_range(secs, nanos),
{
    chrono::DateTime::from_timestamp(secs, nanos).is_some()
}

/// `chrono::DateTime::format`: the date and time in the notation of one of the
/// two patterns used here. Outside of a leap second the pattern for a time of
/// day gives hours, minutes and seconds with two digits each.
#[verifier::external_body]
fn utc_text(secs: i64, nanos: u32, pattern: &str) -> (r: String)
    requires
        utc_range(secs, nanos),
        pattern@ == clock_pattern() || pattern@ == stamp_pattern(),
    ensures
        r@ == utc_format(secs, nanos, pattern@),
        pattern@ == clock_pattern() && nanos < 1_000_000_000 ==> r@ == clock(secs as int),
{
    chrono::DateTime::from_timestamp(secs, nanos).unwrap_or_default().format(pattern).to_string()
}

/// A point in time, in UTC.
#[derive(Clone, Copy)]
pub struct Timestamp {
    secs: i64,
    nanos: u32,
}

impl Timestamp {
    /// The whole seconds since the beginning of 1970.
    pub closed spec fn unix_secs(self) -> i64 {
        self.secs
    }

    /// The nanoseconds after the whole seconds; in a leap second a billion or more.
    pub closed spec fn subsec_nanos(self) -> u32 {
        self.nanos
    }

    #[verifier::type_invariant]
    spec fn valid(self) -> bool {
        utc_range(self.secs, self.nanos)
    }

    /// The point in time with the given seconds and nanoseconds, where it is a date.
    pub fn new(secs: i64, nanos: u32) -> (r: Option<Timestamp>)
        ensures
            r is Some <==> utc_range(secs, nanos),
            r matches Some(t) ==> t.unix_secs() == secs && t.subsec_nanos() == nanos,
    {
        if utc_accepts(secs, nanos) {
            Some(Timestamp { secs, nanos })
        } else {
            None
        }
    }

    /// The time of day.
    pub fn clock_text(&self) -> (r: String)
        ensures
            r@ == utc_format(self.unix_secs(), self.subsec_nanos(), clock_pattern()),
            self.subsec_nanos() < 1_000_000_000 ==> r@ == clock(self.unix_secs() as int),
    {
        proof {
            use_type_invariant(self);
        }
        utc_text(self.secs, self.nanos, "%H:%M:%S")
    }

    /// The date with the time of day.
    pub fn stamp_text(&self) -> (r: String)
        ensures
            r@ == utc_format(self.unix_secs(), self.subsec_nanos(), stamp_pattern()),
    {
        proof {
            use_type_invariant(self);
        }
        utc_text(self.secs, self.nanos, "%Y-%m-%d %H:%M:%S UTC")
    }
}

// Lengths of time.

/// A length of time: whole seconds and the nanoseconds beyond them.
#[derive(Clone, Copy)]
pub struct Elapsed {
    pub secs: u64,
    pub nanos: u32,
}

impl Elapsed {
    /// The nanoseconds are less than a second.
    pub open spec fn wf(self) -> bool {
        self.nanos < 1_000_000_000
    }

    /// The whole length in nanoseconds.
    pub open spec fn total_nanos(self) -> int {
        self.secs * 1_000_000_000 + self.nanos
    }

    pub fn from_secs(secs: u64) -> (r: Elapsed)
        ensures
            r.wf(),
            r.total_nanos() == secs * 1_000_000_000,
    {
        Elapsed { secs, nanos: 0 }
    }

    pub fn from_millis(millis: u64) -> (r: Elapsed)
        ensures
            r.wf(),
            r.total_nanos() == millis * 1_000_000,
    {
        Elapsed { secs: millis / 1_000, nanos: (millis % 1_000) as u32 * 1_000_000 }
    }
}

/// A number of seconds with two decimals.
pub uninterp spec fn seconds_format(secs: u64, nanos: u32) -> Seq<char>;

/// `hundredths` is nearest to a number of nanoseconds.
pub open spec fn nearest_hundredths(total_nanos: int, hundredths: nat) -> bool {
    -5_000_000 <= hundredths * 10_000_000 - total_nanos <= 5_000_000
}

/// Hundredths of a second as a number of seconds with two decimals.
pub open spec fn hundredths_text(hundredths: nat) -> Seq<char> {
    text::decimal(hundredths / 100) + seq!['.'] + text::two_digits((hundredths % 100) as int)
}

/// The text shows a number of nanoseconds in seconds, to the nearest hundredth.
pub open spec fn shows_seconds(shown: Seq<char>, total_nanos: int) -> bool {
    exists|h: nat|
        #[trigger] nearest_hundredths(total_nanos, h) && shown == hundredths_text(h)
}

/// `format!` with two decimals on `std::time::Duration::as_secs_f64`, for less
/// than a minute: the number of seconds, rounded to the nearest hundredth. Which
/// neighbour is taken halfway between two hundredths depends on the binary
/// fraction that stands for the length.
#[verifier::external_body]
fn two_decimals(secs: u64, nanos: u32) -> (r: String)
    requires
        secs < 60,
        nanos < 1_000_000_000,
    ensures
        r@ == seconds_format(secs, nanos),
        shows_seconds(r@, secs * 1_000_000_000 + nanos),
{
    format!("{:.2}", std::time::Duration::new(secs, nanos).as_secs_f64())
}

/// Shows a length of time: seconds with two decimals below a minute, else
/// minutes and whole seconds.
pub fn format_elapsed_time(d: Elapsed) -> (r: String)
    requires
        d.wf(),
    ensures
        d.secs < 60 ==> {
            &&& r@ == seconds_format(d.secs, d.nanos) + "s"@
            &&& shows_seconds(seconds_format(d.secs, d.nanos), d.total_nanos())
        },
        d.secs >= 60 ==> r@ == text::decimal((d.secs / 60) as nat) + "m "@ + text::two_digits(
            (d.secs % 60) as int,
        ) + "s"@,
{
    if d.secs < 60 {
        let shown = two_decimals(d.secs, d.nanos);
        text::concat(shown.as_str(), "s")
    } else {
        let mut out = text::decimal_text(d.secs / 60);
        out.append("m ");
        out.append(text::two_digit_text(d.secs % 60).as_str());
        out.append("s");
        out
    }
}

/// A length below a minute that is no odd multiple of five milliseconds has one
/// nearest hundredth, so one text.
pub proof fn law_nearest_hundredth_is_unique(d: Elapsed, a: nat, b: nat)
    requires
        d.total_nanos() % 10_000_000 != 5_000_000,
        nearest_hundredths(d.total_nanos(), a),
        nearest_hundredths(d.total_nanos(), b),
    ensures
        a == b,
{
}

} // verus!
