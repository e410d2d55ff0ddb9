//! Calendar dates and times of day, computed by `chrono` and `iso8601`.
use vstd::prelude::*;
use crate::text::{decimal, pad_left, two_digits};
use crate::rpc::{IsoDate, IsoDateTime, IsoTime};
use crate::odoo_const::{FMT_DATE_INVOICE, FMT_DATE_ODOO};

verus! {

/// The earliest year that `chrono` represents.
pub const MIN_YEAR: i32 = -262143;

/// The latest year that `chrono` represents.
pub const MAX_YEAR: i32 = 262142;

/// The Unix time of the first second that `chrono` represents
/// (-262143-01-01 00:00:00).
pub const MIN_TIMESTAMP: i64 = -8334601315200;

/// The Unix time of the last whole second that `chrono` represents
/// (262142-12-31 23:59:59).
pub const MAX_TIMESTAMP: i64 = 8210266876799;

/// Leap years of the proleptic Gregorian calendar.
pub open spec fn is_leap_year(year: int) -> bool {
    (year % 4 == 0 && year % 100 != 0) || year % 400 == 0
}

/// The number of days of `month` (1 to 12) in `year`.
pub open spec fn days_in_month(year: int, month: int) -> int {
    if month == 2 {
        if is_leap_year(year) {
            29
        } else {
            28
        }
    } else if month == 4 || month == 6 || month == 9 || month == 11 {
        30
    } else {
        31
    }
}

/// Whether `year`-`month`-`day` is a date of the proleptic Gregorian calendar
/// within the years that `chrono` represents.
pub open spec fn date_exists(year: int, month: int, day: int) -> bool {
    &&& MIN_YEAR <= year <= MAX_YEAR
    &&& 1 <= month <= 12
    &&& 1 <= day <= days_in_month(year, month)
}

/// The year as RFC 3339 writes it: four digits within 0..=9999, else a sign
/// followed by at least four digits.
pub open spec fn rfc3339_year(year: int) -> Seq<char> {
    if 0 <= year <= 9999 {
        two_digits((year / 100) as nat) + two_digits((year % 100) as nat)
    } else if year < 0 {
        seq!['-'] + pad_left(decimal((-year) as nat), 4, '0')
    } else {
        seq!['+'] + pad_left(decimal(year as nat), 4, '0')
    }
}

/// `YYYY-MM-DDThh:mm:ss+00:00`: the RFC 3339 text of a date and time at UTC.
pub open spec fn rfc3339_utc(year: int, month: nat, day: nat, hour: nat, minute: nat, second: nat) -> Seq<char> {
    rfc3339_year(year) + seq!['-'] + two_digits(month) + seq!['-'] + two_digits(day) + seq!['T']
        + two_digits(hour) + seq![':'] + two_digits(minute) + seq![':'] + two_digits(second)
        + seq!['+', '0', '0', ':', '0', '0']
}

/// `hh:mm`, the time of day of the Unix time `ts` (`%H:%M`).
pub open spec fn clock_text(ts: int) -> Seq<char> {
    let secs = ts % 86400;
    two_digits((secs / 3600) as nat) + seq![':'] + two_digits(((secs % 3600) / 60) as nat)
}

/// The Unix time that `chrono` reads from `text` in the format
/// `%Y-%m-%d %H:%M:%S`, or `None` where it refuses the text.
pub uninterp spec fn odoo_datetime_seconds(text: Seq<char>) -> Option<int>;

/// Whether `chrono` knows the date: calls `chrono::NaiveDate::from_ymd_opt`,
/// which returns a date exactly when the day exists in the proleptic
/// Gregorian calendar and the year is within `MIN_YEAR..=MAX_YEAR`.
#[verifier::external_body]
pub(crate) fn chrono_date_exists(year: i32, month: u32, day: u32) -> (r: bool)
    ensures
        r == date_exists(year as int, month as int, day as int),
{
    chrono::NaiveDate::from_ymd_opt(year, month, day).is_some()
}

/// The RFC 3339 text of a date and time taken as UTC: calls
/// `chrono::NaiveDate::from_ymd`, `and_hms`, `timestamp`,
/// `chrono::NaiveDateTime::from_timestamp`, `chrono::DateTime::from_utc`
/// with the offset `chrono::FixedOffset::east(0)`, and `to_rfc3339`. For a
/// whole second and a zero offset chrono writes `rfc3339_utc`.
#[verifier::external_body]
#[allow(deprecated)]
pub(crate) fn chrono_rfc3339_utc(year: i32, month: u32, day: u32, hour: u32, minute: u32, second: u32) -> (r: String)
    requires
        date_exists(year as int, month as int, day as int),
        hour < 24,
        minute < 60,
        second < 60,
    ensures
        r@ == rfc3339_utc(year as int, month as nat, day as nat, hour as nat, minute as nat, second as nat),
{
    let naive = chrono::NaiveDate::from_ymd(year, month, day).and_hms(hour, minute, second);
    let utc: chrono::DateTime<chrono::FixedOffset> = chrono::DateTime::from_utc(
        chrono::NaiveDateTime::from_timestamp(naive.timestamp(), 0),
        chrono::FixedOffset::east(0),
    );
    utc.to_rfc3339()
}

/// The Unix time of a `%Y-%m-%d %H:%M:%S` text (`FMT_DATE_ODOO`): calls
/// `chrono::NaiveDateTime::parse_from_str` and `timestamp`. Which texts chrono
/// accepts, and what it reads from them, is named `odoo_datetime_seconds`;
/// what it accepts is a datetime that chrono represents, so a whole second
/// within `MIN_TIMESTAMP..=MAX_TIMESTAMP`.
#[verifier::external_body]
#[allow(deprecated)]
pub(crate) fn chrono_odoo_datetime_seconds(text: &str) -> (r: Option<i64>)
    ensures
        match r {
            Some(ts) => odoo_datetime_seconds(text@) == Some(ts as int) && MIN_TIMESTAMP <= ts <= MAX_TIMESTAMP,
            None => odoo_datetime_seconds(text@) is None,
        },
{
    match chrono::NaiveDateTime::parse_from_str(text, FMT_DATE_ODOO) {
        Ok(datetime) => Some(datetime.timestamp()),
        Err(_) => None,
    }
}

/// `hh:mm` of the Unix time `ts`: calls `chrono::NaiveDateTime::from_timestamp`
/// and formats with `chrono::format::strftime::StrftimeItems::new(FMT_DATE_INVOICE)`.
/// chrono counts whole days from the epoch and writes the hour and minute of
/// the remaining seconds, each with two digits.
#[verifier::external_body]
#[allow(deprecated)]
pub(crate) fn chrono_clock_text(ts: i64) -> (r: String)
    requires
        MIN_TIMESTAMP <= ts <= MAX_TIMESTAMP,
    ensures
        r@ == clock_text(ts as int),
{
    let items = chrono::format::strftime::StrftimeItems::new(FMT_DATE_INVOICE);
    chrono::NaiveDateTime::from_timestamp(ts, 0).format_with_items(items).to_string()
}

/// What `iso8601::datetime` reads from `text`, or `None` where it refuses it.
pub uninterp spec fn iso8601_datetime_of(text: Seq<char>) -> Option<IsoDateTime>;

/// The ISO 8601 datetime of `text`: calls `iso8601::datetime` and copies the
/// result field by field. What it reads is named `iso8601_datetime_of`. Of the
/// texts that `rfc3339_utc` writes for a year of four digits the parser's
/// grammar (`[+/-]YYYY[-]MM[-]DD` with month 1..=12 and day 1..=31, `T`,
/// `HH[:]MM[[:]SS]` with hour 0..=24, minute 0..=59, second 0..=60, and an
/// offset `+HH[:MM]`) reads the date, the time and a zero offset.
#[verifier::external_body]
pub(crate) fn iso8601_datetime(text: &str) -> (r: Option<IsoDateTime>)
    ensures
        r == iso8601_datetime_of(text@),
        forall|year: int, month: nat, day: nat, hour: nat, minute: nat, second: nat|
            0 <= year <= 9999 && 1 <= month <= 12 && 1 <= day <= 31 && hour <= 23 && minute <= 59
                && second <= 59 && text@ == #[trigger] rfc3339_utc(year, month, day, hour, minute, second)
                ==> r == Some(
                IsoDateTime {
                    date: IsoDate::YMD { year: year as i32, month: month as u32, day: day as u32 },
                    time: IsoTime {
                        hour: hour as u32,
                        minute: minute as u32,
                        second: second as u32,
                        millisecond: 0,
                        tz_offset_hours: 0,
                        tz_offset_minutes: 0,
                    },
                },
            ),
{
    let dt = match iso8601::datetime(text) { Ok(dt) => dt, Err(_) => return None };
    let date = match dt.date {
        iso8601::Date::YMD { year, month, day } => IsoDate::YMD { year, month, day },
        iso8601::Date::Week { year, ww, d } => IsoDate::Week { year, ww, d },
        iso8601::Date::Ordinal { year, ddd } => IsoDate::Ordinal { year, ddd },
    };
    let t = dt.time;
    let (tz_offset_hours, tz_offset_minutes) = (t.tz_offset_hours, t.tz_offset_minutes);
    let time = IsoTime { hour: t.hour, minute: t.minute, second: t.second, millisecond: t.millisecond, tz_offset_hours, tz_offset_minutes };
    Some(IsoDateTime { date, time })
}

} // verus!
