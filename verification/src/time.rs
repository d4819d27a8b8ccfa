//! Points in time, the clock, and the windows of time ranges.

use crate::crd::{HpaOverrideSpec, TimeRangeSpec, TimeRangeType};
use crate::error::{answer, unreadable_timestamp, Error, UNREADABLE_TIMESTAMP};
use vstd::prelude::*;
use vstd::string::*;

verus! {

/// Format of a time of day with its offset, behind the date it is read on.
pub const ZONED_TIME_FORMAT: &'static str = "%d-%m-%y %H:%M%:z";

/// Format of the date that is put in front of a time of day.
pub const DAY_FORMAT: &'static str = "%d-%m-%y";

/// Format of the time written into the status.
pub const STATUS_TIME_FORMAT: &'static str = "%Y-%m-%dT%H:%MZ%z";

/// Nanoseconds in a second.
pub const NANOS_PER_SECOND: i128 = 1_000_000_000;

/// Nanoseconds in a day.
pub const NANOS_PER_DAY: i128 = 86_400_000_000_000;

/// Seconds in a day.
pub const SECONDS_PER_DAY: i32 = 86_400;

/// Quotient of `a` by a positive `b`, rounded toward zero.
pub open spec fn div_toward_zero(a: int, b: int) -> int {
    if a >= 0 {
        a / b
    } else {
        -((-a) / b)
    }
}

/// The value of `x` where it fits in 64 bits, else the nearest value that does.
pub open spec fn saturated(x: int) -> int {
    if x < i64::MIN {
        i64::MIN as int
    } else if x > i64::MAX {
        i64::MAX as int
    } else {
        x
    }
}

/// A point in time: whole seconds since the start of 1970 in UTC, and the
/// nanoseconds that have passed since the last whole second. A count of a
/// second or more, as a parser reports it for a leap second, stands for the
/// time that much later.
#[derive(Debug, Clone, Copy, PartialEq, Eq, Structural)]
pub struct Instant {
    pub secs: i64,
    pub nanos: u32,
}

impl View for Instant {
    type V = int;

    /// Nanoseconds since the start of 1970 in UTC.
    open spec fn view(&self) -> int {
        self.secs * NANOS_PER_SECOND + self.nanos
    }
}

/// What the clock showed at one moment: the time, and the offset of local
/// time from UTC in seconds.
#[derive(Debug, Clone, Copy, PartialEq, Eq, Structural)]
pub struct ClockReading {
    pub now: Instant,
    pub utc_offset: i32,
}

/// What chrono's `DateTime::parse_from_str` makes of `text` under `format`:
/// seconds and nanoseconds of the parsed time, or nothing where it reports an error.
pub uninterp spec fn parsed_stamp(text: Seq<char>, format: Seq<char>) -> Option<(i64, u32)>;

/// What chrono's `DateTime::parse_from_rfc3339` makes of `text`: seconds and
/// nanoseconds of the parsed time, or nothing where it reports an error.
pub uninterp spec fn rfc3339_stamp(text: Seq<char>) -> Option<(i64, u32)>;

/// The text chrono prints for the given time, seen at the given offset from
/// UTC, under `format`; nothing where chrono cannot represent the time or the offset.
pub uninterp spec fn formatted_stamp(secs: i64, nanos: u32, utc_offset: i32, format: Seq<char>) -> Option<Seq<char>>;

/// The formats this crate prints times in.
pub open spec fn printable_format(format: Seq<char>) -> bool {
    format == DAY_FORMAT@ || format == STATUS_TIME_FORMAT@
}

/// Calls chrono's `DateTime::parse_from_str` and hands back the parsed time
/// as seconds and nanoseconds since the start of 1970 in UTC (`timestamp`,
/// `timestamp_subsec_nanos`). The contract only names the result: parsing is a
/// function of the two strings.
#[verifier::external_body]
fn parse_with_format(text: &str, format: &str) -> (r: Option<(i64, u32)>)
    ensures
        r == parsed_stamp(text@, format@),
{
    match chrono::DateTime::parse_from_str(text, format) {
        Ok(t) => Some((t.timestamp(), t.timestamp_subsec_nanos())),
        Err(_) => None,
    }
}

/// Calls chrono's `DateTime::parse_from_rfc3339` and hands back the parsed
/// time as seconds and nanoseconds since the start of 1970 in UTC. The
/// contract only names the result: parsing is a function of the string.
#[verifier::external_body]
fn parse_rfc3339(text: &str) -> (r: Option<(i64, u32)>)
    ensures
        r == rfc3339_stamp(text@),
{
    match chrono::DateTime::parse_from_rfc3339(text) {
        Ok(t) => Some((t.timestamp(), t.timestamp_subsec_nanos())),
        Err(_) => None,
    }
}

/// Builds chrono's `DateTime` for the given time (`DateTime::from_timestamp`)
/// at the given offset (`FixedOffset::east_opt`) and prints it with
/// `DateTime::format`. The contract only names the result: it depends on the
/// arguments alone. Only formats that chrono can print are admitted, since
/// printing under a malformed one panics.
#[verifier::external_body]
fn format_stamp(secs: i64, nanos: u32, utc_offset: i32, format: &str) -> (r: Option<String>)
    requires
        printable_format(format@),
    ensures
        r is Some == formatted_stamp(secs, nanos, utc_offset, format@) is Some,
        r is Some ==> r->0@ == formatted_stamp(secs, nanos, utc_offset, format@)->0,
{
    let zone = chrono::FixedOffset::east_opt(utc_offset)?;
    let utc = chrono::DateTime::from_timestamp(secs, nanos)?;
    Some(utc.with_timezone(&zone).format(format).to_string())
}

impl ClockReading {
    /// Whether the nanoseconds stay below one second and local time within a day of UTC.
    pub open spec fn well_formed(self) -> bool {
        &&& self.now.nanos < NANOS_PER_SECOND
        &&& -SECONDS_PER_DAY < self.utc_offset < SECONDS_PER_DAY
    }
}

/// Reads the system clock. The time it shows is not foretold; the reading is well-formed.
pub fn read_clock() -> (clock: ClockReading)
    ensures
        clock.well_formed(),
{
    let (secs, nanos, utc_offset) = local_now();
    ClockReading { now: Instant { secs, nanos }, utc_offset }
}

/// Reads the system clock through chrono's `Local::now`: seconds and
/// nanoseconds since the start of 1970 in UTC, and the local offset from UTC
/// in seconds. Of the time itself nothing is claimed. The contract says what
/// chrono's source shows of every reading: the nanoseconds are those of a
/// `std::time::Duration` within its second, so below one second (`Utc::now`
/// never makes a leap second), and the offset comes out of a `FixedOffset`,
/// which only holds offsets of less than a day. chrono panics where the
/// system clock stands before 1970.
#[verifier::external_body]
fn local_now() -> (r: (i64, u32, i32))
    ensures
        r.1 < 1_000_000_000,
        -86_400 < r.2 < 86_400,
{
    let now = chrono::Local::now();
    (now.timestamp(), now.timestamp_subsec_nanos(), now.offset().local_minus_utc())
}

/// The time of a clock reading as the status shows it, written at the local
/// offset as `YYYY-MM-DDTHH:MMZ+HHMM`.
pub open spec fn status_stamp(clock: ClockReading) -> Option<Seq<char>> {
    formatted_stamp(clock.now.secs, clock.now.nanos, clock.utc_offset, STATUS_TIME_FORMAT@)
}

/// Prints the time of a clock reading for the status. There is no text for a
/// time or an offset that the calendar cannot represent.
pub fn status_time(clock: &ClockReading) -> (text: Option<String>)
    ensures
        text is Some <==> status_stamp(*clock) is Some,
        text is Some ==> Some(text->0@) == status_stamp(*clock),
{
    format_stamp(clock.now.secs, clock.now.nanos, clock.utc_offset, STATUS_TIME_FORMAT)
}

/// The point in time that an absolute timestamp denotes, if it can be read.
pub open spec fn zoned_date_time(ts: Seq<char>) -> Option<Instant> {
    match rfc3339_stamp(ts) {
        Some((secs, nanos)) => Some(Instant { secs, nanos }),
        None => None,
    }
}

/// The local date of a clock reading, as it is put in front of a time of day.
pub open spec fn local_day(clock: ClockReading) -> Option<Seq<char>> {
    formatted_stamp(clock.now.secs, clock.now.nanos, clock.utc_offset, DAY_FORMAT@)
}

/// The point in time that a time of day denotes on the local date of the
/// clock reading, if it can be read.
pub open spec fn zoned_time(ts: Seq<char>, clock: ClockReading) -> Option<Instant> {
    match local_day(clock) {
        Some(day) => match parsed_stamp(day + ts, ZONED_TIME_FORMAT@) {
            Some((secs, nanos)) => Some(Instant { secs, nanos }),
            None => None,
        },
        None => None,
    }
}

/// The point in time that the string of a time range denotes.
pub open spec fn endpoint(ts: Seq<char>, kind: TimeRangeType, clock: ClockReading) -> Option<Instant> {
    match kind {
        TimeRangeType::ZonedTime => zoned_time(ts, clock),
        TimeRangeType::ZonedDateTime => zoned_date_time(ts),
    }
}

/// Reads an absolute timestamp with an offset, as RFC 3339 writes it.
pub fn parse_zoned_date_time_str(ts: &str) -> (r: Result<Instant, Error>)
    ensures
        r is Ok <==> zoned_date_time(ts@) is Some,
        r is Ok ==> Some(r->Ok_0) == zoned_date_time(ts@),
        r is Err ==> (r->Err_0 matches Error::UserInputError(text) && text@
            == UNREADABLE_TIMESTAMP@),
{
    match parse_rfc3339(ts) {
        Some((secs, nanos)) => Ok(Instant { secs, nanos }),
        None => Err(unreadable_timestamp()),
    }
}

/// Reads a time of day with an offset, written `HH:MM+HH:MM`, as the time it
/// denotes on the local date of the clock reading.
pub fn parse_zoned_time_str(ts: &str, clock: &ClockReading) -> (r: Result<Instant, Error>)
    ensures
        r is Ok <==> zoned_time(ts@, *clock) is Some,
        r is Ok ==> Some(r->Ok_0) == zoned_time(ts@, *clock),
        r is Err ==> (r->Err_0 matches Error::UserInputError(text) && text@
            == UNREADABLE_TIMESTAMP@),
{
    match format_stamp(clock.now.secs, clock.now.nanos, clock.utc_offset, DAY_FORMAT) {
        Some(day) => {
            let text = day.concat(ts);
            match parse_with_format(text.as_str(), ZONED_TIME_FORMAT) {
                Some((secs, nanos)) => Ok(Instant { secs, nanos }),
                None => Err(unreadable_timestamp()),
            }
        },
        None => Err(unreadable_timestamp()),
    }
}

/// Reads the `from` or `to` of a time range of the given kind.
pub fn parse_endpoint(ts: &str, kind: &TimeRangeType, clock: &ClockReading) -> (r: Result<Instant, Error>)
    ensures
        r is Ok <==> endpoint(ts@, *kind, *clock) is Some,
        r is Ok ==> Some(r->Ok_0) == endpoint(ts@, *kind, *clock),
        r is Err ==> (r->Err_0 matches Error::UserInputError(text) && text@
            == UNREADABLE_TIMESTAMP@),
{
    match kind {
        TimeRangeType::ZonedTime => parse_zoned_time_str(ts, clock),
        TimeRangeType::ZonedDateTime => parse_zoned_date_time_str(ts),
    }
}

impl Instant {
    /// Nanoseconds since the start of 1970 in UTC.
    pub fn nanos_total(&self) -> (n: i128)
        ensures
            n == self@,
    {
        self.secs as i128 * NANOS_PER_SECOND + self.nanos as i128
    }
}

/// Where the window that starts at `from` ends: a daily window whose `to` lies
/// before its `from` runs past midnight, to the `to` of the next day.
pub open spec fn window_end(from: int, to: int, kind: TimeRangeType) -> int {
    if kind == TimeRangeType::ZonedTime && to < from {
        to + NANOS_PER_DAY
    } else {
        to
    }
}

/// Whether `now` lies strictly inside the window from `from` to `to`.
pub open spec fn inside_window(from: Instant, to: Instant, kind: TimeRangeType, now: Instant) -> bool {
    from@ < now@ && now@ < window_end(from@, to@, kind)
}

/// The time ahead that `ts` stands for: a time of day that has passed stands
/// for the same time on the next day.
pub open spec fn next_occurrence(ts: int, kind: TimeRangeType, now: int) -> int {
    if kind == TimeRangeType::ZonedTime && ts < now {
        ts + NANOS_PER_DAY
    } else {
        ts
    }
}

/// Whole seconds from `now` to the time that `ts` stands for, rounded toward
/// zero, negative for an absolute timestamp in the past.
pub open spec fn seconds_until(ts: Instant, kind: TimeRangeType, now: Instant) -> int {
    saturated(div_toward_zero(next_occurrence(ts@, kind, now@) - now@, NANOS_PER_SECOND as int))
}

/// Whether `now` lies strictly inside the window of a time range with the given endpoints.
pub fn window_open(from: &Instant, to: &Instant, kind: &TimeRangeType, now: &Instant) -> (b: bool)
    ensures
        b == inside_window(*from, *to, *kind, *now),
{
    let start: i128 = from.nanos_total();
    let mut end: i128 = to.nanos_total();
    let at: i128 = now.nanos_total();
    if *kind == TimeRangeType::ZonedTime && end < start {
        end = end + NANOS_PER_DAY;
    }
    start < at && at < end
}

/// Whole seconds from `now` to the time that `ts` stands for.
pub fn diff_from_now(ts: &Instant, kind: &TimeRangeType, now: &Instant) -> (d: i64)
    ensures
        d == seconds_until(*ts, *kind, *now),
{
    let at: i128 = now.nanos_total();
    let mut target: i128 = ts.nanos_total();
    if *kind == TimeRangeType::ZonedTime && target < at {
        target = target + NANOS_PER_DAY;
    }
    let seconds: i128 = (target - at) / NANOS_PER_SECOND;
    if seconds < i64::MIN as i128 {
        i64::MIN
    } else if seconds > i64::MAX as i128 {
        i64::MAX
    } else {
        seconds as i64
    }
}

/// A time range whose endpoints have been read.
#[derive(Debug, Clone, Copy, PartialEq, Eq, Structural)]
pub struct TimedRange {
    pub kind: TimeRangeType,
    pub from: Instant,
    pub to: Instant,
    pub hpa: HpaOverrideSpec,
}

/// The time range with its endpoints read, if both can be.
pub open spec fn timed(range: TimeRangeSpec, clock: ClockReading) -> Option<TimedRange> {
    match (endpoint(range.from@, range.kind, clock), endpoint(range.to@, range.kind, clock)) {
        (Some(from), Some(to)) => Some(
            TimedRange { kind: range.kind, from, to, hpa: range.replica_spec.hpa },
        ),
        _ => None,
    }
}

/// The time ranges with their endpoints read, if all can be.
pub open spec fn all_timed(ranges: Seq<TimeRangeSpec>, clock: ClockReading) -> Option<Seq<TimedRange>> {
    if forall|i: int| 0 <= i < ranges.len() ==> timed(#[trigger] ranges[i], clock) is Some {
        Some(Seq::new(ranges.len(), |i: int| timed(ranges[i], clock)->0))
    } else {
        None
    }
}

/// Reads the endpoints of a time range.
pub fn parse_range(range: &TimeRangeSpec, clock: &ClockReading) -> (r: Result<TimedRange, Error>)
    ensures
        r is Ok <==> timed(*range, *clock) is Some,
        r is Ok ==> Some(r->Ok_0) == timed(*range, *clock),
        r is Err ==> (r->Err_0 matches Error::UserInputError(text) && text@
            == UNREADABLE_TIMESTAMP@),
{
    let from = match parse_endpoint(range.from.as_str(), &range.kind, clock) {
        Ok(from) => from,
        Err(e) => {
            return Err(e);
        },
    };
    let to = match parse_endpoint(range.to.as_str(), &range.kind, clock) {
        Ok(to) => to,
        Err(e) => {
            return Err(e);
        },
    };
    Ok(TimedRange { kind: range.kind, from, to, hpa: range.replica_spec.hpa })
}

/// Reads the endpoints of every time range, in order. One unreadable
/// endpoint fails the whole list.
pub fn parse_ranges(ranges: &Vec<TimeRangeSpec>, clock: &ClockReading) -> (r: Result<Vec<TimedRange>, Error>)
    ensures
        r is Ok <==> all_timed(ranges@, *clock) is Some,
        r is Ok ==> Some(r->Ok_0@) == all_timed(ranges@, *clock),
        r is Err ==> (r->Err_0 matches Error::UserInputError(text) && text@
            == UNREADABLE_TIMESTAMP@),
{
    let mut out: Vec<TimedRange> = Vec::new();
    let mut i: usize = 0;
    while i < ranges.len()
        invariant
            i <= ranges.len(),
            out@.len() == i,
            forall|j: int| 0 <= j < i ==> timed(#[trigger] ranges@[j], *clock) == Some(out@[j]),
        decreases ranges.len() - i,
    {
        match parse_range(&ranges[i], clock) {
            Ok(t) => {
                out.push(t);
            },
            Err(e) => {
                proof {
                    assert(timed(ranges@[i as int], *clock) is None);
                }
                return Err(e);
            },
        }
        i = i + 1;
    }
    proof {
        assert(out@ =~= all_timed(ranges@, *clock)->0);
    }
    Ok(out)
}

/// Whether a window is open at the moment of the clock reading.
pub open spec fn matches_at(from: Seq<char>, to: Seq<char>, kind: TimeRangeType, clock: ClockReading) -> Option<bool> {
    match (endpoint(from, kind, clock), endpoint(to, kind, clock)) {
        (Some(start), Some(end)) => Some(inside_window(start, end, kind, clock.now)),
        _ => None,
    }
}

/// Whether the window from `from` to `to` is open at the moment of the clock
/// reading: the time read is strictly later than `from` and strictly earlier
/// than `to`. Fails where `from` or `to` cannot be read.
pub fn timestamp_match_at(from: &str, to: &str, kind: &TimeRangeType, clock: &ClockReading) -> (r: Result<bool, Error>)
    ensures
        r is Ok <==> matches_at(from@, to@, *kind, *clock) is Some,
        r is Ok ==> Some(r->Ok_0) == matches_at(from@, to@, *kind, *clock),
        r is Err ==> (r->Err_0 matches Error::UserInputError(text) && text@
            == UNREADABLE_TIMESTAMP@),
{
    let start = match parse_endpoint(from, kind, clock) {
        Ok(start) => start,
        Err(e) => {
            return Err(e);
        },
    };
    let end = match parse_endpoint(to, kind, clock) {
        Ok(end) => end,
        Err(e) => {
            return Err(e);
        },
    };
    Ok(window_open(&start, &end, kind, &clock.now))
}

/// Whether the window from `from` to `to` is open now. The answer is the one
/// that `timestamp_match_at` gives for some reading of the clock.
pub fn timestamp_match(from: &str, to: &str, kind: &TimeRangeType) -> (r: Result<bool, Error>)
    ensures
        exists|clock: ClockReading| answer(r) == #[trigger] matches_at(from@, to@, *kind, clock),
        r is Err ==> (r->Err_0 matches Error::UserInputError(text) && text@
            == UNREADABLE_TIMESTAMP@),
{
    let clock = read_clock();
    let r = timestamp_match_at(from, to, kind, &clock);
    proof {
        assert(answer(r) == matches_at(from@, to@, *kind, clock));
    }
    r
}

} // verus!
