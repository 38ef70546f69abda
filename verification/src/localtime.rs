//! Local calendar time, as text.

use vstd::prelude::*;

verus! {

/// The format in which a time is printed: the year, a hyphen, month and day run
/// together, a space, and the time of day.
pub const TIME_FORMAT: &'static str = "%Y-%m%d %T";

/// A decimal digit.
pub open spec fn is_digit(c: char) -> bool {
    '0' as u32 <= c as u32 <= '9' as u32
}

/// The shape of a time as text: the year, a hyphen, two digits of month and two of
/// day run together, a space, and the time of day as `HH:MM:SS`. The year has
/// four digits; a year before 0 or after 9999 has a sign and at least four digits.
pub open spec fn is_time_text(s: Seq<char>) -> bool {
    let n = s.len() as int;
    &&& n >= 18
    &&& s[n - 14] == '-'
    &&& s[n - 9] == ' '
    &&& s[n - 6] == ':'
    &&& s[n - 3] == ':'
    &&& forall|i: int|
        n - 13 <= i < n && i != n - 9 && i != n - 6 && i != n - 3 ==> is_digit(#[trigger] s[i])
    &&& forall|i: int| 1 <= i < n - 14 ==> is_digit(#[trigger] s[i])
    &&& (n == 18 && is_digit(s[0])) || (n >= 19 && (s[0] == '+' || s[0] == '-'))
}

/// The first second that the calendar holds, counted from the Unix epoch: midnight
/// on the first day of the year -262143.
pub const FIRST_SECOND: i64 = -8_334_601_228_800;

/// The last second that the calendar holds, counted from the Unix epoch: the
/// last of the year 262142.
pub const LAST_SECOND: i64 = 8_210_266_876_799;

/// Whether the calendar can hold the point in time that lies `secs` seconds and
/// `nanos` nanoseconds from the Unix epoch: whether chrono's
/// `DateTime::from_timestamp` gives a time for the two numbers. It does where the
/// second falls into the years that chrono's dates cover, and the nanoseconds name
/// a part of a second; in the last second of a minute they may run on to just
/// below two seconds, which stands for a leap second.
pub open spec fn representable(secs: i64, nanos: u32) -> bool {
    &&& FIRST_SECOND <= secs <= LAST_SECOND
    &&& (nanos < 1_000_000_000 || (nanos < 2_000_000_000 && (secs as int) % 60 == 59))
}

/// A distance of local time from universal time, in seconds east: one of less
/// than a day, either way.
pub open spec fn is_offset(offset: i32) -> bool {
    -86_400 < offset && offset < 86_400
}

/// The text that the calendar prints, in `TIME_FORMAT`, for the point in time that
/// lies `secs` seconds and `nanos` nanoseconds from the Unix epoch, on a clock that
/// runs `offset` seconds ahead of universal time: what chrono's `format` gives for
/// the time that `DateTime::from_timestamp` makes of the two numbers, moved to that
/// offset. It means something only for a time that the calendar can hold and an
/// offset of less than a day.
pub uninterp spec fn time_text(secs: i64, nanos: u32, offset: i32) -> Seq<char>;

/// How far this machine's clock runs ahead of universal time at a point in time,
/// in seconds.
///
/// This is chrono's `DateTime::from_timestamp`, moved into the machine's time zone
/// with `with_timezone(&Local)`, of which `offset().local_minus_utc()` is read.
/// There is an answer exactly where `from_timestamp` gives a time, which is what
/// `representable` states. The answer depends on the time zone the machine is set
/// to, so the contract claims only what holds of every `FixedOffset` of chrono:
/// it is less than a day, either way.
#[verifier::external_body]
pub(crate) fn local_offset(secs: i64, nanos: u32) -> (r: Option<i32>)
    ensures
        r is Some <==> representable(secs, nanos),
        r is Some ==> is_offset(r->0),
{
    match chrono::DateTime::from_timestamp(secs, nanos) {
        Some(utc) => Some(utc.with_timezone(&chrono::Local).offset().local_minus_utc()),
        None => None,
    }
}

/// The text of a point in time on a clock that runs `offset` seconds ahead of
/// universal time.
///
/// This is chrono's `DateTime::from_timestamp`, moved to the offset that
/// `FixedOffset::east_opt` makes of `offset` with `with_timezone`, and printed
/// with `format`. There is a text exactly where `from_timestamp` gives a time and
/// `east_opt` an offset, that is for an offset of less than a day. The text
/// depends on the three numbers alone, and `time_text` names it. The format must
/// be `TIME_FORMAT`: chrono fails on a format it cannot read. Of the text the
/// contract claims besides the shape that chrono gives to every time it prints in
/// this format: `%Y` prints four digits, or a sign and more for a year outside 0
/// to 9999, and each of month, day, hour, minute and second prints two digits.
#[verifier::external_body]
pub(crate) fn text_at_offset(secs: i64, nanos: u32, offset: i32, format: &str) -> (r: Option<
    String,
>)
    requires
        format@ == TIME_FORMAT@,
    ensures
        (r is Some <==> (representable(secs, nanos) && is_offset(offset))),
        r is Some ==> r->0@ == time_text(secs, nanos, offset),
        r is Some ==> is_time_text(r->0@),
{
    match (chrono::DateTime::from_timestamp(secs, nanos), chrono::FixedOffset::east_opt(offset)) {
        (Some(utc), Some(zone)) => Some(utc.with_timezone(&zone).format(format).to_string()),
        _ => None,
    }
}

} // verus!
