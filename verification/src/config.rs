//! The connection settings and the day whose attendance is read.
use vstd::prelude::*;
use crate::calendar::{chrono_date_exists, chrono_rfc3339_utc, date_exists, rfc3339_utc};
use crate::text::{pad_left, signed_decimal, two_digits, signed_decimal_text, pad_left_text, two_digits_text};

verus! {

/// Where and as whom to connect to an Odoo server.
#[derive(Debug, Clone, PartialEq)]
pub struct Connection {
    pub url: String,
    pub db: String,
    pub username: String,
    pub password: String,
}

/// The day whose attendance is read: its name (`YYYY-MM-DD`, the year
/// right-aligned in four places) and its first and last second at UTC in
/// RFC 3339.
#[derive(Debug, Clone, PartialEq)]
pub struct HrSelection {
    pub invoice_date: String,
    pub invoice_date_in: String,
    pub invoice_date_out: String,
}

/// All the settings of one run.
#[derive(Debug, Clone, PartialEq)]
pub struct Odoo {
    pub connection: Connection,
    pub hr_selection: HrSelection,
}

/// `{:4}-{:02}-{:02}` of the year, month and day.
pub open spec fn day_name(year: int, month: nat, day: nat) -> Seq<char> {
    pad_left(signed_decimal(year), 4, ' ') + seq!['-'] + two_digits(month) + seq!['-'] + two_digits(day)
}

impl HrSelection {
    /// Whether the day `year`-`month`-`day` exists in the calendar, as a
    /// selection needs it to.
    pub fn day_exists(year: i32, month: u32, day: u32) -> (r: bool)
        ensures
            r == date_exists(year as int, month as int, day as int),
    {
        chrono_date_exists(year, month, day)
    }

    /// The selection of the day `year`-`month`-`day`, which must exist in
    /// the calendar.
    pub fn for_day(year: i32, month: u32, day: u32) -> (r: HrSelection)
        requires
            date_exists(year as int, month as int, day as int),
        ensures
            r.invoice_date@ == day_name(year as int, month as nat, day as nat),
            r.invoice_date_in@ == rfc3339_utc(year as int, month as nat, day as nat, 0, 0, 0),
            r.invoice_date_out@ == rfc3339_utc(year as int, month as nat, day as nat, 23, 59, 59),
    {
        let invoice_date_in = chrono_rfc3339_utc(year, month, day, 0, 0, 0);
        let invoice_date_out = chrono_rfc3339_utc(year, month, day, 23, 59, 59);
        let year_text = signed_decimal_text(year);
        let mut invoice_date = pad_left_text(year_text.as_str(), 4, ' ');
        invoice_date.append("-");
        let month_text = two_digits_text(month as u64);
        invoice_date.append(month_text.as_str());
        invoice_date.append("-");
        let day_text = two_digits_text(day as u64);
        invoice_date.append(day_text.as_str());
        proof {
            reveal_strlit("-");
        }
        assert(invoice_date@ =~= day_name(year as int, month as nat, day as nat));
        HrSelection { invoice_date, invoice_date_in, invoice_date_out }
    }
}

impl Odoo {
    /// The settings of a run from the values given on the command line: the
    /// connection as given, and the selection of the day `year`-`month`-`day`
    /// (the command line takes no negative year).
    pub fn from_arguments(
        url: String,
        db: String,
        username: String,
        password: String,
        year: i32,
        month: u32,
        day: u32,
    ) -> (r: Odoo)
        requires
            0 <= year,
            date_exists(year as int, month as int, day as int),
        ensures
            r.connection.url == url,
            r.connection.db == db,
            r.connection.username == username,
            r.connection.password == password,
            r.hr_selection.invoice_date@ == day_name(year as int, month as nat, day as nat),
            r.hr_selection.invoice_date_in@ == rfc3339_utc(year as int, month as nat, day as nat, 0, 0, 0),
            r.hr_selection.invoice_date_out@ == rfc3339_utc(year as int, month as nat, day as nat, 23, 59, 59),
    {
        Odoo {
            connection: Connection { url, db, username, password },
            hr_selection: HrSelection::for_day(year, month, day),
        }
    }
}

} // verus!
