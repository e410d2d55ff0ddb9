//! The attendance of one day: reading it from the server, and the reports
//! made of it.
use vstd::prelude::*;
use crate::calendar::{
    chrono_clock_text, chrono_odoo_datetime_seconds, clock_text, date_exists, iso8601_datetime,
    iso8601_datetime_of, odoo_datetime_seconds, rfc3339_utc, MAX_TIMESTAMP,
};
use crate::config::HrSelection;
use crate::error::OdooError;
use crate::master::OdooConnection;
use crate::odoo_const::PRODUCT_PRODUCT_ID_UNKNOWN;
use crate::rpc::{models, IsoDate, IsoDateTime, IsoTime, RpcModel, RpcValue};

verus! {

/// What reading a reply gives: a value, an error to report, or nothing
/// because the reading is refused outright (a member that the reply must
/// have is missing, or a time that cannot be read).
#[derive(Debug, Clone, PartialEq)]
pub enum Outcome<T> {
    Value(T),
    Failed(OdooError),
    Aborts,
}

impl<T> Outcome<T> {
    /// Whether the reading was refused outright.
    pub fn aborts(&self) -> (r: bool)
        ensures
            r == (*self is Aborts),
    {
        match self {
            Outcome::Aborts => true,
            _ => false,
        }
    }
}

/// The id and name of an employee from the items of `employee_id`: the
/// first item is the id and the second the name; an item of another kind is
/// an error, and missing items leave 0 and the empty name.
pub open spec fn employee_of(items: Seq<RpcModel>) -> Result<(i32, Seq<char>), OdooError> {
    if items.len() > 0 && items[0].as_i32() is None {
        Err(OdooError::InvalidResponse)
    } else if items.len() > 1 && items[1].as_str() is None {
        Err(OdooError::InvalidResponse)
    } else {
        Ok(
            (
                if items.len() > 0 {
                    items[0].as_i32().unwrap()
                } else {
                    0
                },
                if items.len() > 1 {
                    items[1].as_str().unwrap()
                } else {
                    Seq::empty()
                },
            ),
        )
    }
}

/// The employee id, the activity and the worked hours of an attendance
/// record.
pub open spec fn attendance_head(rec: RpcModel) -> Outcome<(i32, Seq<char>, u64)> {
    if !(rec is Struct) {
        Outcome::Failed(OdooError::InvalidResponse)
    } else {
        match rec.member("employee_id"@) {
            None => Outcome::Aborts,
            Some(employee) => match employee.as_array() {
                None => Outcome::Failed(OdooError::InvalidResponse),
                Some(items) => match employee_of(items) {
                    Err(e) => Outcome::Failed(e),
                    Ok((id, activity)) => match rec.member("worked_hours"@) {
                        None => Outcome::Aborts,
                        Some(hours) => match hours.as_f64() {
                            None => Outcome::Failed(OdooError::InvalidResponse),
                            Some(bits) => Outcome::Value((id, activity, bits)),
                        },
                    },
                },
            },
        }
    }
}

/// The id of the product found for an activity: that of the first record,
/// or none where there is no record.
pub open spec fn product_of(reply: RpcModel) -> Outcome<Option<i32>> {
    match reply.as_array() {
        None => Outcome::Failed(OdooError::InvalidResponse),
        Some(items) => if items.len() == 0 {
            Outcome::Value(None)
        } else if !(items[0] is Struct) {
            Outcome::Failed(OdooError::InvalidResponse)
        } else {
            match items[0].member("id"@) {
                None => Outcome::Aborts,
                Some(id) => match id.as_i32() {
                    None => Outcome::Failed(OdooError::InvalidResponse),
                    Some(i) => Outcome::Value(Some(i)),
                },
            }
        },
    }
}

/// Whether the name of the product template is read: only for a product
/// that was found and is not the unknown product.
pub open spec fn wants_name(product_id: Option<i32>) -> bool {
    product_id matches Some(p) && p != PRODUCT_PRODUCT_ID_UNKNOWN
}

/// The name, the sale description and the list price of the first product
/// template of the reply; all none where there is none.
pub open spec fn template_of(reply: RpcModel, product_id: Option<i32>) -> Outcome<
    (Option<Seq<char>>, Option<Seq<char>>, Option<u64>),
> {
    match reply.as_array() {
        None => Outcome::Failed(OdooError::InvalidResponse),
        Some(items) => if items.len() == 0 {
            Outcome::Value((None, None, None))
        } else {
            let t = items[0];
            if !(t is Struct) {
                Outcome::Failed(OdooError::InvalidResponse)
            } else if wants_name(product_id) && t.member("name"@) is None {
                Outcome::Aborts
            } else if wants_name(product_id) && t.member("name"@).unwrap().as_str() is None {
                Outcome::Failed(OdooError::InvalidResponse)
            } else {
                match t.member("description_sale"@) {
                    None => Outcome::Aborts,
                    Some(d) => match d.as_str() {
                        None => Outcome::Failed(OdooError::InvalidResponse),
                        Some(description) => match t.member("list_price"@) {
                            None => Outcome::Aborts,
                            Some(p) => match p.as_f64() {
                                None => Outcome::Failed(OdooError::InvalidResponse),
                                Some(price) => Outcome::Value(
                                    (
                                        if wants_name(product_id) {
                                            t.member("name"@).unwrap().as_str()
                                        } else {
                                            None
                                        },
                                        Some(description),
                                        Some(price),
                                    ),
                                ),
                            },
                        },
                    },
                }
            }
        },
    }
}

/// `hh:mm` an hour after the time held in the member `key` of an attendance
/// record.
pub open spec fn clock_of(rec: RpcModel, key: Seq<char>) -> Outcome<Seq<char>> {
    match rec.member(key) {
        None => Outcome::Aborts,
        Some(v) => match v.as_str() {
            None => Outcome::Failed(OdooError::InvalidResponse),
            Some(text) => match odoo_datetime_seconds(text) {
                None => Outcome::Aborts,
                Some(ts) => if ts + 3600 > MAX_TIMESTAMP {
                    Outcome::Aborts
                } else {
                    Outcome::Value(clock_text(ts + 3600))
                },
            },
        },
    }
}

/// The note of an attendance record: `hh:mm hh:mm`, the check-in and the
/// check-out an hour later than recorded.
pub open spec fn note_of(rec: RpcModel) -> Outcome<Seq<char>> {
    match clock_of(rec, "check_in"@) {
        Outcome::Aborts => Outcome::Aborts,
        Outcome::Failed(e) => Outcome::Failed(e),
        Outcome::Value(check_in) => match clock_of(rec, "check_out"@) {
            Outcome::Aborts => Outcome::Aborts,
            Outcome::Failed(e) => Outcome::Failed(e),
            Outcome::Value(check_out) => Outcome::Value(check_in + seq![' '] + check_out),
        },
    }
}

/// The member `key` of `rec` (std's `str` to `String`, then a lookup).
fn member_of<'a>(rec: &'a RpcValue, key: &str) -> (r: Option<&'a RpcValue>)
    ensures
        match r {
            Some(v) => rec@.member(key@) == Some(v@),
            None => rec@.member(key@) is None,
        },
{
    let k = String::from_str(key);
    rec.member(&k)
}

/// The model of a read employee, activity and hours.
pub open spec fn head_view(r: Outcome<(i32, String, u64)>) -> Outcome<(i32, Seq<char>, u64)> {
    match r {
        Outcome::Value((id, activity, hours)) => Outcome::Value((id, activity@, hours)),
        Outcome::Failed(e) => Outcome::Failed(e),
        Outcome::Aborts => Outcome::Aborts,
    }
}

/// The model of a read text.
pub open spec fn text_view(r: Outcome<String>) -> Outcome<Seq<char>> {
    match r {
        Outcome::Value(t) => Outcome::Value(t@),
        Outcome::Failed(e) => Outcome::Failed(e),
        Outcome::Aborts => Outcome::Aborts,
    }
}

/// The model of a read product template.
pub open spec fn template_view(r: Outcome<(Option<String>, Option<String>, Option<u64>)>) -> Outcome<
    (Option<Seq<char>>, Option<Seq<char>>, Option<u64>),
> {
    match r {
        Outcome::Value((name, description, price)) => Outcome::Value(
            (
                match name {
                    Some(n) => Some(n@),
                    None => None,
                },
                match description {
                    Some(d) => Some(d@),
                    None => None,
                },
                price,
            ),
        ),
        Outcome::Failed(e) => Outcome::Failed(e),
        Outcome::Aborts => Outcome::Aborts,
    }
}

/// Reads the employee id, the activity and the worked hours of an
/// attendance record.
pub fn read_attendance_head(rec: &RpcValue) -> (r: Outcome<(i32, String, u64)>)
    ensures
        head_view(r) == attendance_head(rec@),
{
    if !rec.is_struct() {
        return Outcome::Failed(OdooError::InvalidResponse);
    }
    let employee = match member_of(rec, "employee_id") {
        None => return Outcome::Aborts,
        Some(e) => e,
    };
    let items = match employee.as_array() {
        None => return Outcome::Failed(OdooError::InvalidResponse),
        Some(items) => items,
    };
    let ghost ms = models(items@);
    let mut id: i32 = 0;
    let mut activity = String::new();
    if items.len() > 0 {
        assert(ms[0] == items@[0]@);
        match items[0].as_i32() {
            None => return Outcome::Failed(OdooError::InvalidResponse),
            Some(i) => id = i,
        }
    }
    if items.len() > 1 {
        assert(ms[1] == items@[1]@);
        match items[1].as_str() {
            None => return Outcome::Failed(OdooError::InvalidResponse),
            Some(a) => activity = a.clone(),
        }
    }
    assert(employee_of(ms) == Ok::<(i32, Seq<char>), OdooError>((id, activity@)));
    let hours = match member_of(rec, "worked_hours") {
        None => return Outcome::Aborts,
        Some(h) => h,
    };
    match hours.as_f64() {
        None => Outcome::Failed(OdooError::InvalidResponse),
        Some(bits) => Outcome::Value((id, activity, bits)),
    }
}

/// Reads the id of the product found for an activity.
pub fn read_product(reply: &RpcValue) -> (r: Outcome<Option<i32>>)
    ensures
        r == product_of(reply@),
{
    let items = match reply.as_array() {
        None => return Outcome::Failed(OdooError::InvalidResponse),
        Some(items) => items,
    };
    if items.len() == 0 {
        return Outcome::Value(None);
    }
    let first = &items[0];
    assert(models(items@)[0] == first@);
    if !first.is_struct() {
        return Outcome::Failed(OdooError::InvalidResponse);
    }
    match member_of(first, "id") {
        None => Outcome::Aborts,
        Some(id) => match id.as_i32() {
            None => Outcome::Failed(OdooError::InvalidResponse),
            Some(i) => Outcome::Value(Some(i)),
        },
    }
}

/// Reads the name, the sale description and the list price of the first
/// product template of a reply.
pub fn read_template(reply: &RpcValue, product_id: Option<i32>) -> (r: Outcome<
    (Option<String>, Option<String>, Option<u64>),
>)
    ensures
        template_view(r) == template_of(reply@, product_id),
{
    let items = match reply.as_array() {
        None => return Outcome::Failed(OdooError::InvalidResponse),
        Some(items) => items,
    };
    if items.len() == 0 {
        return Outcome::Value((None, None, None));
    }
    let t = &items[0];
    assert(models(items@)[0] == t@);
    if !t.is_struct() {
        return Outcome::Failed(OdooError::InvalidResponse);
    }
    let wants = match product_id {
        Some(p) => p != PRODUCT_PRODUCT_ID_UNKNOWN,
        None => false,
    };
    let mut name: Option<String> = None;
    if wants {
        match member_of(t, "name") {
            None => return Outcome::Aborts,
            Some(n) => match n.as_str() {
                None => return Outcome::Failed(OdooError::InvalidResponse),
                Some(text) => name = Some(text.clone()),
            },
        }
    }
    let description = match member_of(t, "description_sale") {
        None => return Outcome::Aborts,
        Some(d) => match d.as_str() {
            None => return Outcome::Failed(OdooError::InvalidResponse),
            Some(text) => text.clone(),
        },
    };
    match member_of(t, "list_price") {
        None => Outcome::Aborts,
        Some(p) => match p.as_f64() {
            None => Outcome::Failed(OdooError::InvalidResponse),
            Some(price) => Outcome::Value((name, Some(description), Some(price))),
        },
    }
}

/// Reads `hh:mm` an hour after the time held in the member `key`.
pub fn read_clock(rec: &RpcValue, key: &str) -> (r: Outcome<String>)
    ensures
        text_view(r) == clock_of(rec@, key@),
{
    let v = match member_of(rec, key) {
        None => return Outcome::Aborts,
        Some(v) => v,
    };
    let text = match v.as_str() {
        None => return Outcome::Failed(OdooError::InvalidResponse),
        Some(t) => t,
    };
    match chrono_odoo_datetime_seconds(text.as_str()) {
        None => Outcome::Aborts,
        Some(ts) => {
            if ts > MAX_TIMESTAMP - 3600 {
                Outcome::Aborts
            } else {
                Outcome::Value(chrono_clock_text(ts + 3600))
            }
        },
    }
}

/// Reads the note of an attendance record.
pub fn read_note(rec: &RpcValue) -> (r: Outcome<String>)
    ensures
        text_view(r) == note_of(rec@),
{
    let check_in = match read_clock(rec, "check_in") {
        Outcome::Aborts => return Outcome::Aborts,
        Outcome::Failed(e) => return Outcome::Failed(e),
        Outcome::Value(t) => t,
    };
    let check_out = match read_clock(rec, "check_out") {
        Outcome::Aborts => return Outcome::Aborts,
        Outcome::Failed(e) => return Outcome::Failed(e),
        Outcome::Value(t) => t,
    };
    let mut note = check_in;
    note.append(" ");
    note.append(check_out.as_str());
    proof {
        reveal_strlit(" ");
    }
    assert(note@ =~= check_in@ + seq![' '] + check_out@);
    Outcome::Value(note)
}

/// The ISO 8601 datetime of a date and time at UTC.
pub open spec fn utc_datetime(year: int, month: nat, day: nat, hour: nat, minute: nat, second: nat) -> IsoDateTime {
    IsoDateTime {
        date: IsoDate::YMD { year: year as i32, month: month as u32, day: day as u32 },
        time: IsoTime {
            hour: hour as u32,
            minute: minute as u32,
            second: second as u32,
            millisecond: 0,
            tz_offset_hours: 0,
            tz_offset_minutes: 0,
        },
    }
}

/// One attended activity: the employee, the activity, the worked hours, and
/// the product sold for it. The hours and the price are IEEE-754 bit
/// patterns.
#[derive(Debug, Clone, PartialEq)]
pub struct HrLigne {
    pub id: i32,
    pub activity: String,
    pub worked_hours: u64,
    pub product_name: String,
    pub product_description_sale: String,
    pub product_list_price: u64,
}

impl HrLigne {
    pub fn new(
        id: i32,
        activity: String,
        worked_hours: u64,
        product_name: String,
        product_description_sale: String,
        product_list_price: u64,
    ) -> (r: Self)
        ensures
            r.id == id,
            r.activity == activity,
            r.worked_hours == worked_hours,
            r.product_name == product_name,
            r.product_description_sale == product_description_sale,
            r.product_list_price == product_list_price,
    {
        Self { id, activity, worked_hours, product_name, product_description_sale, product_list_price }
    }

    /// A copy of the line.
    pub fn duplicate(&self) -> (r: Self)
        ensures
            r == *self,
    {
        Self {
            id: self.id,
            activity: self.activity.clone(),
            worked_hours: self.worked_hours,
            product_name: self.product_name.clone(),
            product_description_sale: self.product_description_sale.clone(),
            product_list_price: self.product_list_price,
        }
    }
}

/// The lines in reverse order.
pub fn reversed_lines(lines: &Vec<(HrLigne, String)>) -> (r: Vec<(HrLigne, String)>)
    ensures
        r@ == lines@.reverse(),
{
    let mut r: Vec<(HrLigne, String)> = Vec::new();
    let mut i = lines.len();
    while i > 0
        invariant
            i <= lines.len(),
            r.len() == lines.len() - i,
            forall|k: int| 0 <= k < r.len() ==> #[trigger] r@[k] == lines@[lines.len() - 1 - k],
        decreases i,
    {
        i = i - 1;
        let line = lines[i].0.duplicate();
        let note = lines[i].1.clone();
        r.push((line, note));
    }
    assert(r@ =~= lines@.reverse());
    r
}

/// The attendance of a day: its name and the activities with their notes.
#[derive(Debug, Clone, PartialEq)]
pub struct HrParse {
    pub section: String,
    pub ligne_note: Vec<(HrLigne, String)>,
}

impl HrParse {
    pub fn new(section: String, ligne_note: Vec<(HrLigne, String)>) -> (r: Self)
        ensures
            r.section == section,
            r.ligne_note == ligne_note,
    {
        Self { section, ligne_note }
    }
}

/// What is kept of a day after a selection ends with `outcome`, where
/// `kept` was kept before: what it read where it read a day, else `kept`.
pub open spec fn after_finish(kept: Option<HrParse>, outcome: Result<Option<HrParse>, OdooError>) -> Option<HrParse> {
    match outcome {
        Ok(Some(p)) => Some(p),
        _ => kept,
    }
}

/// A connection, the day to read, and what was read of it.
#[derive(Debug, Clone, PartialEq)]
pub struct HrData {
    odoo_connection: OdooConnection,
    hr_selection: HrSelection,
    pub data: Option<HrParse>,
}

impl HrData {
    pub fn new(odoo_connection: OdooConnection, hr_selection: HrSelection) -> (r: Self)
        ensures
            r.spec_connection() == odoo_connection,
            r.spec_selection() == hr_selection,
            r.spec_parsed() is None,
    {
        Self { odoo_connection, hr_selection, data: None }
    }

    pub closed spec fn spec_connection(&self) -> OdooConnection {
        self.odoo_connection
    }

    pub closed spec fn spec_selection(&self) -> HrSelection {
        self.hr_selection
    }

    /// What was read of the day.
    pub closed spec fn spec_parsed(&self) -> Option<HrParse> {
        self.data
    }

    pub fn connection_ref(&self) -> (r: &OdooConnection)
        ensures
            *r == self.spec_connection(),
    {
        &self.odoo_connection
    }

    pub fn data_ref(&self) -> (r: &Option<HrParse>)
        ensures
            *r == self.spec_parsed(),
    {
        &self.data
    }

    pub fn selection_ref(&self) -> (r: &HrSelection)
        ensures
            *r == self.spec_selection(),
    {
        &self.hr_selection
    }

    /// The first and last second of the day as ISO 8601 datetimes, read
    /// from their RFC 3339 texts; `None` where either cannot be read.
    pub fn attendance_window(&self) -> (r: Option<(IsoDateTime, IsoDateTime)>)
        ensures
            r == match (
                iso8601_datetime_of(self.spec_selection().invoice_date_in@),
                iso8601_datetime_of(self.spec_selection().invoice_date_out@),
            ) {
                (Some(date_in), Some(date_out)) => Some((date_in, date_out)),
                _ => None,
            },
            forall|year: int, month: nat, day: nat|
                0 <= year <= 9999 && date_exists(year, month as int, day as int)
                    && self.spec_selection().invoice_date_in@ == #[trigger] rfc3339_utc(year, month, day, 0, 0, 0)
                    && self.spec_selection().invoice_date_out@ == rfc3339_utc(year, month, day, 23, 59, 59)
                    ==> r == Some((utc_datetime(year, month, day, 0, 0, 0), utc_datetime(year, month, day, 23, 59, 59))),
    {
        let date_in = iso8601_datetime(self.hr_selection.invoice_date_in.as_str());
        let date_out = iso8601_datetime(self.hr_selection.invoice_date_out.as_str());
        match (date_in, date_out) {
            (Some(a), Some(b)) => Some((a, b)),
            _ => None,
        }
    }

    /// Ends a selection with its outcome: keeps what it read (as
    /// `store_selection` does) and succeeds, or reports its error and keeps
    /// nothing.
    pub fn finish_selection(&mut self, outcome: Result<Option<HrParse>, OdooError>) -> (r: Result<(), OdooError>)
        ensures
            final(self).spec_connection() == old(self).spec_connection(),
            final(self).spec_selection() == old(self).spec_selection(),
            final(self).spec_parsed() == after_finish(old(self).spec_parsed(), outcome),
            r == match outcome {
                Ok(_) => Ok::<(), OdooError>(()),
                Err(e) => Err(e),
            },
    {
        match outcome {
            Ok(parsed) => {
                self.store_selection(parsed);
                Ok(())
            },
            Err(e) => Err(e),
        }
    }

    /// Keeps what a selection read: a day that had attendance replaces what
    /// was kept before, a day without any leaves it.
    pub fn store_selection(&mut self, parsed: Option<HrParse>)
        ensures
            final(self).spec_connection() == old(self).spec_connection(),
            final(self).spec_selection() == old(self).spec_selection(),
            final(self).spec_parsed() == match parsed {
                Some(p) => Some(p),
                None => old(self).spec_parsed(),
            },
    {
        if let Some(p) = parsed {
            self.data = Some(p);
        }
    }
}

} // verus!
