//! What the shown forms of times say.
use crate::text;
use crate::text_laws;
use crate::time;
use crate::time::Elapsed;
use vstd::prelude::*;

verus! {

/// A time of day shows hours, minutes and seconds that add up to the seconds of the day.
pub proof fn law_clock_shows_the_time_of_day(secs: int)
    ensures
        ({
            let c = time::clock(secs);
            let h = text_laws::number_of(c.subrange(0, 2));
            let m = text_laws::number_of(c.subrange(3, 5));
            let s = text_laws::number_of(c.subrange(6, 8));
            &&& c.len() == 8
            &&& c[2] == ':'
            &&& c[5] == ':'
            &&& 0 <= h < 24
            &&& 0 <= m < 60
            &&& 0 <= s < 60
            &&& h * 3_600 + m * 60 + s == secs % 86_400
        }),
{
    let day = secs % 86_400;
    let h = day / 3_600;
    let m = day / 60 % 60;
    let s = day % 60;
    text_laws::law_two_digits_read_as_the_number(h);
    text_laws::law_two_digits_read_as_the_number(m);
    text_laws::law_two_digits_read_as_the_number(s);
    let c = time::clock(secs);
    assert(c.subrange(0, 2) =~= text::two_digits(h));
    assert(c.subrange(3, 5) =~= text::two_digits(m));
    assert(c.subrange(6, 8) =~= text::two_digits(s));
}

/// A length of time is its seconds and the nanoseconds beyond them, of which there are
/// fewer than a second has.
pub proof fn law_lengths_of_time(d: Elapsed)
    ensures
        d.total_nanos() == d.secs * 1_000_000_000 + d.nanos,
        d.wf() <==> d.nanos < 1_000_000_000,
{
}

/// A number of hundredths shows the seconds, a point and the two digits of the rest.
pub proof fn law_hundredths_show_the_number(hundredths: nat)
    ensures
        ({
            let t = time::hundredths_text(hundredths);
            let n = t.len() as int;
            &&& n >= 4
            &&& t[n - 3] == '.'
            &&& text_laws::number_of(t.subrange(0, n - 3)) * 100 + text_laws::number_of(
                t.subrange(n - 2, n),
            ) == hundredths
            &&& 0 <= text_laws::number_of(t.subrange(n - 2, n)) < 100
        }),
{
    let t = time::hundredths_text(hundredths);
    let n = t.len() as int;
    text_laws::law_decimal_form_reads_as_the_number(hundredths / 100);
    text_laws::law_two_digits_read_as_the_number((hundredths % 100) as int);
    assert(t.subrange(0, n - 3) =~= text::decimal(hundredths / 100));
    assert(t.subrange(n - 2, n) =~= text::two_digits((hundredths % 100) as int));
}

/// The hundredths that are shown are at most half a hundredth of a second off.
pub proof fn law_shown_seconds_are_near(total_nanos: int, hundredths: nat)
    ensures
        time::nearest_hundredths(total_nanos, hundredths) <==> -5_000_000 <= total_nanos
            - hundredths * 10_000_000 <= 5_000_000,
{
}

/// A thousand milliseconds are a second.
pub proof fn law_milliseconds(secs: u64, millis: u64, a: Elapsed, b: Elapsed)
    requires
        millis == secs * 1_000,
        call_ensures(Elapsed::from_secs, (secs,), a),
        call_ensures(Elapsed::from_millis, (millis,), b),
    ensures
        a.total_nanos() == b.total_nanos(),
        a.wf() && b.wf(),
        a.secs == b.secs && a.nanos == b.nanos,
{
}

/// From a minute on a length of time is shown as minutes and whole seconds.
pub proof fn law_minutes_and_seconds(d: Elapsed, r: String)
    requires
        d.secs >= 60,
        call_ensures(time::format_elapsed_time, (d,), r),
    ensures
        exists|minutes: Seq<char>, seconds: Seq<char>|
            {
                &&& r@ == #[trigger] (minutes + "m "@ + seconds + "s"@)
                &&& text_laws::number_of(minutes) * 60 + text_laws::number_of(seconds) == d.secs
                &&& seconds.len() == 2
                &&& 0 <= text_laws::number_of(seconds) < 60
            },
{
    let m = text::decimal((d.secs / 60) as nat);
    let s = text::two_digits((d.secs % 60) as int);
    text_laws::law_decimal_form_reads_as_the_number((d.secs / 60) as nat);
    text_laws::law_two_digits_read_as_the_number((d.secs % 60) as int);
    assert(r@ == m + "m "@ + s + "s"@);
}

} // verus!
