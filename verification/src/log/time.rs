//! The time that a log entry bears.

use chrono::TimeZone;
use vstd::prelude::*;

verus! {

/// The signed count of milliseconds that has the same bits as `time`.
pub open spec fn signed_millis(time: u64) -> int {
    if time <= i64::MAX {
        time as int
    } else {
        time as int - 0x1_0000_0000_0000_0000
    }
}

/// Whether the calendar has the date of `millis` after the UNIX epoch: it
/// reaches from the year -262143 to the year 262142.
pub open spec fn in_calendar(millis: int) -> bool {
    -8_334_601_228_800_000 <= millis <= 8_210_266_876_799_999
}

/// Whether `offset`, in seconds, is less than a day to either side.
pub open spec fn within_a_day(offset: int) -> bool {
    -86_400 < offset < 86_400
}

/// How the log writes a moment.
pub open spec fn time_layout() -> Seq<char> {
    "%Y-%m-%d %H:%M:%S"@
}

/// The text of the moment `millis` after the UNIX epoch on a clock that is
/// `offset` seconds ahead of UTC, written as `layout` says.
pub uninterp spec fn formatted_time(millis: int, offset: int, layout: Seq<char>) -> Seq<char>;

/// Calls `chrono::Local::timestamp_millis_opt` and reads the offset of the
/// moment that comes back. Claimed of it: `chrono` has a moment for every
/// count in the calendar, and a time zone is less than a day away from UTC.
/// Which offset it is depends on the machine.
#[verifier::external_body]
pub(crate) fn local_offset(millis: i64) -> (offset: i32)
    requires
        in_calendar(millis as int),
    ensures
        within_a_day(offset as int),
{
    chrono::Local.timestamp_millis_opt(millis).unwrap().offset().local_minus_utc()
}

/// Calls `chrono::DateTime::format` on the moment `millis` at a fixed offset.
/// Claimed of it: the text depends on the moment, the offset and the layout
/// alone.
#[verifier::external_body]
pub(crate) fn format_time(millis: i64, offset: i32, layout: &str) -> (text: String)
    requires
        in_calendar(millis as int),
        within_a_day(offset as int),
        layout@ == time_layout(),
    ensures
        text@ == formatted_time(millis as int, offset as int, layout@),
{
    let zone = chrono::FixedOffset::east_opt(offset).unwrap();
    zone.timestamp_millis_opt(millis).unwrap().format(layout).to_string()
}

/// `time` as a signed count.
pub(crate) fn to_signed_millis(time: u64) -> (millis: i64)
    ensures
        millis == signed_millis(time),
{
    if time <= 0x7fff_ffff_ffff_ffff {
        time as i64
    } else {
        -((u64::MAX - time) as i64) - 1
    }
}

/// Whether a log entry can bear the time `time`.
pub fn is_dated(time: u64) -> (dated: bool)
    ensures
        dated == in_calendar(signed_millis(time)),
{
    let millis: i64 = to_signed_millis(time);
    -8_334_601_228_800_000 <= millis && millis <= 8_210_266_876_799_999
}

/// Calls `gstuff::now_ms`, the machine's clock. Nothing is claimed of it.
#[verifier::external_body]
pub(crate) fn now_ms() -> (time: u64) {
    gstuff::now_ms()
}

/// A count of milliseconds is taken for the signed count with the same 64
/// bits: itself where it is not too large, and otherwise one that differs from
/// it by the range of 64 bits.
pub proof fn signed_counts_have_the_same_bits(time: u64)
    ensures
        time <= 0x7fff_ffff_ffff_ffff ==> signed_millis(time) == time,
        -0x8000_0000_0000_0000 <= signed_millis(time) <= 0x7fff_ffff_ffff_ffff,
        (signed_millis(time) - time) % 0x1_0000_0000_0000_0000 == 0,
{
}

/// The calendar has every millisecond of the days from 96465292 days before
/// the UNIX epoch to 95026236 days after it. A clock can be any time less than
/// a day ahead of UTC or behind it.
pub proof fn calendar_has_whole_days(millis: int, offset: int)
    ensures
        in_calendar(millis) <==> -96_465_292 * 86_400_000 <= millis && millis < (95_026_236 + 1)
            * 86_400_000,
        within_a_day(offset) <==> -24 * 60 * 60 < offset && offset < 24 * 60 * 60,
        time_layout() == "%Y-%m-%d %H:%M:%S"@,
{
}

} // verus!
