//! The reports made of a day's attendance: its activities as work entries,
//! the worked hours gathered by activity, and a text listing.
use vstd::prelude::*;
use crate::hr::{HrData, HrLigne, HrParse};
use crate::text::{pad_right, pad_right_text, push_char};

verus! {

/// One work entry of a report. The hours, the price and the amount are
/// IEEE-754 bit patterns.
#[derive(Debug, Clone, PartialEq)]
pub struct Work {
    pub activity: String,
    pub product_name: String,
    pub worked_hour: u64,
    pub product_list_price: u64,
    pub price_raw: u64,
    pub product_description_sale: String,
    pub note: String,
}

impl Work {
    /// An empty entry: no text, and zero (`0.0`) for every number.
    pub fn new() -> (r: Self)
        ensures
            r.activity@ == Seq::<char>::empty(),
            r.product_name@ == Seq::<char>::empty(),
            r.worked_hour == 0,
            r.product_list_price == 0,
            r.price_raw == 0,
            r.product_description_sale@ == Seq::<char>::empty(),
            r.note@ == Seq::<char>::empty(),
    {
        Self {
            activity: String::new(),
            product_name: String::new(),
            worked_hour: 0,
            product_list_price: 0,
            price_raw: 0,
            product_description_sale: String::new(),
            note: String::new(),
        }
    }
}

/// The work of a day.
#[derive(Debug, Clone, PartialEq)]
pub struct DayWork {
    pub day: String,
    pub work: Vec<Work>,
}

/// The activities of `lines` in the order they first appear, each once.
pub open spec fn first_seen(lines: Seq<(HrLigne, String)>) -> Seq<Seq<char>>
    decreases lines.len(),
{
    if lines.len() == 0 {
        Seq::empty()
    } else {
        let before = first_seen(lines.drop_last());
        if before.contains(lines.last().0.activity@) {
            before
        } else {
            before.push(lines.last().0.activity@)
        }
    }
}

/// The worked hours of the lines of `activity`, in order.
pub open spec fn hours_of(lines: Seq<(HrLigne, String)>, activity: Seq<char>) -> Seq<u64>
    decreases lines.len(),
{
    if lines.len() == 0 {
        Seq::empty()
    } else {
        let before = hours_of(lines.drop_last(), activity);
        if lines.last().0.activity@ == activity {
            before.push(lines.last().0.worked_hours)
        } else {
            before
        }
    }
}

/// The lines of what was read; none where nothing was.
pub open spec fn lines_of(parsed: Option<HrParse>) -> Seq<(HrLigne, String)> {
    match parsed {
        Some(p) => p.ligne_note@,
        None => Seq::empty(),
    }
}

/// The name of the day as the reports give it: that of what was read, or
/// that of the selection where nothing was.
pub open spec fn report_day(data: HrData) -> String {
    match data.spec_parsed() {
        Some(p) => p.section,
        None => data.spec_selection().invoice_date,
    }
}

/// The activities of a day, each with the worked hours of its lines.
#[derive(Debug, Clone, PartialEq)]
pub struct ActivityGroup {
    pub activity: String,
    pub worked_hours: Vec<u64>,
}

/// Whether `w` is the entry of `line` with the amount `price_raw`.
pub open spec fn work_of_line(w: Work, line: (HrLigne, String), price_raw: u64) -> bool {
    &&& w.activity == line.0.activity
    &&& w.product_name == line.0.product_name
    &&& w.worked_hour == line.0.worked_hours
    &&& w.product_list_price == line.0.product_list_price
    &&& w.price_raw == price_raw
    &&& w.product_description_sale == line.0.product_description_sale
    &&& w.note == line.1
}

impl HrData {
    /// The name of the day as the reports give it.
    fn report_day_text(&self) -> (r: String)
        ensures
            r == report_day(*self),
    {
        match self.data_ref() {
            Some(p) => p.section.clone(),
            None => self.selection_ref().invoice_date.clone(),
        }
    }

    /// The work of the day: one entry per line read, in order, with the
    /// amount `price_raw[k]` for the k-th (its hours times its price).
    pub fn day_work(&self, price_raw: &Vec<u64>) -> (r: DayWork)
        requires
            price_raw.len() == lines_of(self.spec_parsed()).len(),
        ensures
            r.day == report_day(*self),
            r.work.len() == lines_of(self.spec_parsed()).len(),
            forall|k: int|
                0 <= k < r.work.len() ==> #[trigger] work_of_line(
                    r.work@[k],
                    lines_of(self.spec_parsed())[k],
                    price_raw@[k],
                ),
            forall|k: int|
                0 <= k < r.work.len() ==> {
                    &&& (#[trigger] r.work@[k]).activity == lines_of(self.spec_parsed())[k].0.activity
                    &&& r.work@[k].product_name == lines_of(self.spec_parsed())[k].0.product_name
                    &&& r.work@[k].worked_hour == lines_of(self.spec_parsed())[k].0.worked_hours
                    &&& r.work@[k].product_list_price == lines_of(self.spec_parsed())[k].0.product_list_price
                    &&& r.work@[k].price_raw == price_raw@[k]
                    &&& r.work@[k].product_description_sale == lines_of(
                        self.spec_parsed(),
                    )[k].0.product_description_sale
                    &&& r.work@[k].note == lines_of(self.spec_parsed())[k].1
                },
    {
        let day = self.report_day_text();
        let mut work: Vec<Work> = Vec::new();
        if let Some(p) = self.data_ref() {
            let n = p.ligne_note.len();
            let mut k: usize = 0;
            while k < n
                invariant
                    n == p.ligne_note.len(),
                    n == price_raw.len(),
                    k <= n,
                    work.len() == k,
                    forall|j: int|
                        0 <= j < k ==> #[trigger] work_of_line(work@[j], p.ligne_note@[j], price_raw@[j]),
                decreases n - k,
            {
                let line = &p.ligne_note[k].0;
                let note = &p.ligne_note[k].1;
                work.push(
                    Work {
                        activity: line.activity.clone(),
                        product_name: line.product_name.clone(),
                        worked_hour: line.worked_hours,
                        product_list_price: line.product_list_price,
                        price_raw: price_raw[k],
                        product_description_sale: line.product_description_sale.clone(),
                        note: note.clone(),
                    },
                );
                k = k + 1;
            }
        }
        let r = DayWork { day, work };
        assert forall|k: int| 0 <= k < r.work.len() implies {
            &&& (#[trigger] r.work@[k]).activity == lines_of(self.spec_parsed())[k].0.activity
            &&& r.work@[k].product_name == lines_of(self.spec_parsed())[k].0.product_name
            &&& r.work@[k].worked_hour == lines_of(self.spec_parsed())[k].0.worked_hours
            &&& r.work@[k].product_list_price == lines_of(self.spec_parsed())[k].0.product_list_price
            &&& r.work@[k].price_raw == price_raw@[k]
            &&& r.work@[k].product_description_sale == lines_of(self.spec_parsed())[k].0.product_description_sale
            &&& r.work@[k].note == lines_of(self.spec_parsed())[k].1
        } by {
            law_work_entry_of_its_line(r.work@[k], lines_of(self.spec_parsed())[k], price_raw@[k]);
        }
        r
    }
}

/// The distinct activities of `lines`, in the order they first appear.
fn distinct_activities(lines: &Vec<(HrLigne, String)>) -> (r: Vec<String>)
    ensures
        r.len() == first_seen(lines@).len(),
        forall|g: int| 0 <= g < r.len() ==> #[trigger] r@[g]@ == first_seen(lines@)[g],
{
    let mut acts: Vec<String> = Vec::new();
    let n = lines.len();
    let mut i: usize = 0;
    assert(lines@.take(0) =~= Seq::<(HrLigne, String)>::empty());
    while i < n
        invariant
            n == lines.len(),
            i <= n,
            acts.len() == first_seen(lines@.take(i as int)).len(),
            forall|g: int| 0 <= g < acts.len() ==> #[trigger] acts@[g]@ == first_seen(lines@.take(i as int))[g],
        decreases n - i,
    {
        let ghost before = first_seen(lines@.take(i as int));
        let act = &lines[i].0.activity;
        let mut found = false;
        let mut g: usize = 0;
        while g < acts.len()
            invariant
                g <= acts.len(),
                acts.len() == before.len(),
                forall|h: int| 0 <= h < acts.len() ==> #[trigger] acts@[h]@ == before[h],
                found <==> exists|h: int| 0 <= h < g && before[h] == act@,
            decreases acts.len() - g,
        {
            if acts[g] == *act {
                found = true;
            }
            g = g + 1;
        }
        proof {
            assert(lines@.take(i + 1).drop_last() =~= lines@.take(i as int));
            assert(lines@.take(i + 1).last() == lines@[i as int]);
            if found {
                let h = choose|h: int| 0 <= h < g && before[h] == act@;
                assert(before.contains(act@));
            } else {
                assert(!before.contains(act@));
            }
        }
        if !found {
            acts.push(act.clone());
        }
        i = i + 1;
    }
    assert(lines@.take(n as int) =~= lines@);
    acts
}

/// The worked hours of the lines of `activity`, in order.
fn activity_hours(lines: &Vec<(HrLigne, String)>, activity: &String) -> (r: Vec<u64>)
    ensures
        r@ == hours_of(lines@, activity@),
{
    let mut hours: Vec<u64> = Vec::new();
    let n = lines.len();
    let mut i: usize = 0;
    assert(lines@.take(0) =~= Seq::<(HrLigne, String)>::empty());
    while i < n
        invariant
            n == lines.len(),
            i <= n,
            hours@ == hours_of(lines@.take(i as int), activity@),
        decreases n - i,
    {
        assert(lines@.take(i + 1).drop_last() =~= lines@.take(i as int));
        assert(lines@.take(i + 1).last() == lines@[i as int]);
        if lines[i].0.activity == *activity {
            hours.push(lines[i].0.worked_hours);
        }
        i = i + 1;
    }
    assert(lines@.take(n as int) =~= lines@);
    hours
}

impl HrData {
    /// The activities of the day in the order they first appear, each with
    /// the worked hours of its lines in order; none where nothing was read.
    pub fn activity_groups(&self) -> (r: Vec<ActivityGroup>)
        ensures
            r.len() == first_seen(lines_of(self.spec_parsed())).len(),
            forall|g: int|
                0 <= g < r.len() ==> {
                    &&& #[trigger] r@[g].activity@ == first_seen(lines_of(self.spec_parsed()))[g]
                    &&& r@[g].worked_hours@ == hours_of(lines_of(self.spec_parsed()), r@[g].activity@)
                },
    {
        let mut groups: Vec<ActivityGroup> = Vec::new();
        match self.data_ref() {
            None => {},
            Some(p) => {
                let acts = distinct_activities(&p.ligne_note);
                let mut g: usize = 0;
                while g < acts.len()
                    invariant
                        g <= acts.len(),
                        acts.len() == first_seen(p.ligne_note@).len(),
                        forall|h: int| 0 <= h < acts.len() ==> #[trigger] acts@[h]@ == first_seen(p.ligne_note@)[h],
                        groups.len() == g,
                        forall|h: int|
                            0 <= h < g ==> {
                                &&& #[trigger] groups@[h].activity@ == first_seen(p.ligne_note@)[h]
                                &&& groups@[h].worked_hours@ == hours_of(p.ligne_note@, groups@[h].activity@)
                            },
                    decreases acts.len() - g,
                {
                    let hours = activity_hours(&p.ligne_note, &acts[g]);
                    groups.push(ActivityGroup { activity: acts[g].clone(), worked_hours: hours });
                    g = g + 1;
                }
            },
        }
        groups
    }

    /// The work of the day gathered by activity: one entry per group of
    /// `activity_groups`, in the same order, with the total hours and the
    /// amount `totals[g]` and every other field empty (zero).
    pub fn day_work_total(&self, totals: &Vec<(u64, u64)>) -> (r: DayWork)
        requires
            totals.len() == first_seen(lines_of(self.spec_parsed())).len(),
        ensures
            r.day == report_day(*self),
            r.work.len() == totals.len(),
            forall|g: int|
                0 <= g < r.work.len() ==> {
                    &&& (#[trigger] r.work@[g]).activity@ == Seq::<char>::empty()
                    &&& r.work@[g].product_name@ == Seq::<char>::empty()
                    &&& r.work@[g].worked_hour == totals@[g].0
                    &&& r.work@[g].product_list_price == 0
                    &&& r.work@[g].price_raw == totals@[g].1
                    &&& r.work@[g].product_description_sale@ == Seq::<char>::empty()
                    &&& r.work@[g].note@ == Seq::<char>::empty()
                },
    {
        let day = self.report_day_text();
        let mut work: Vec<Work> = Vec::new();
        let mut g: usize = 0;
        while g < totals.len()
            invariant
                g <= totals.len(),
                work.len() == g,
                forall|h: int|
                    0 <= h < g ==> {
                        &&& (#[trigger] work@[h]).activity@ == Seq::<char>::empty()
                        &&& work@[h].product_name@ == Seq::<char>::empty()
                        &&& work@[h].worked_hour == totals@[h].0
                        &&& work@[h].product_list_price == 0
                        &&& work@[h].price_raw == totals@[h].1
                        &&& work@[h].product_description_sale@ == Seq::<char>::empty()
                        &&& work@[h].note@ == Seq::<char>::empty()
                    },
            decreases totals.len() - g,
        {
            let mut entry = Work::new();
            entry.worked_hour = totals[g].0;
            entry.price_raw = totals[g].1;
            work.push(entry);
            g = g + 1;
        }
        DayWork { day, work }
    }
}

/// The first row of a line: `[activity] product` in 49 places, then the
/// hours, the price and the amount (as written in `figures`) in 10 places
/// each, separated by spaces.
pub open spec fn row_text(line: (HrLigne, String), figures: (String, String, String)) -> Seq<char> {
    pad_right(seq!['['] + line.0.activity@ + seq![']', ' '] + line.0.product_name@, 49) + seq![' ']
        + pad_right(figures.0@, 10) + seq![' '] + pad_right(figures.1@, 10) + seq![' '] + pad_right(
        figures.2@,
        10,
    )
}

/// The rows of a line: the first row, the sale description, the note and
/// an empty row, each ended by a newline.
pub open spec fn line_block(line: (HrLigne, String), figures: (String, String, String)) -> Seq<char> {
    row_text(line, figures) + seq!['\n'] + line.0.product_description_sale@ + seq!['\n'] + line.1@ + seq![
        '\n',
    ] + seq!['\n']
}

/// The rows of all the lines, in order.
pub open spec fn blocks(lines: Seq<(HrLigne, String)>, figures: Seq<(String, String, String)>) -> Seq<char>
    decreases lines.len(),
{
    if lines.len() == 0 {
        Seq::empty()
    } else {
        blocks(lines.drop_last(), figures) + line_block(lines.last(), figures[lines.len() - 1])
    }
}

/// The text listing of the day: its name, an empty row and the rows of its
/// lines; where nothing was read, a note that there is nothing to show.
pub open spec fn day_text_of(data: HrData, figures: Seq<(String, String, String)>) -> Seq<char> {
    match data.spec_parsed() {
        Some(p) => p.section@ + seq!['\n', '\n'] + blocks(p.ligne_note@, figures),
        None => "Nothing to display for: "@ + data.spec_selection().invoice_date@,
    }
}

/// Appends the rows of one line.
fn push_line_block(s: &mut String, line: &(HrLigne, String), figures: &(String, String, String))
    ensures
        final(s)@ == old(s)@ + line_block(*line, *figures),
{
    let mut label = String::new();
    push_char(&mut label, '[');
    label.append(line.0.activity.as_str());
    push_char(&mut label, ']');
    push_char(&mut label, ' ');
    label.append(line.0.product_name.as_str());
    let first = pad_right_text(label.as_str(), 49);
    s.append(first.as_str());
    push_char(s, ' ');
    let hours = pad_right_text(figures.0.as_str(), 10);
    s.append(hours.as_str());
    push_char(s, ' ');
    let price = pad_right_text(figures.1.as_str(), 10);
    s.append(price.as_str());
    push_char(s, ' ');
    let amount = pad_right_text(figures.2.as_str(), 10);
    s.append(amount.as_str());
    push_char(s, '\n');
    s.append(line.0.product_description_sale.as_str());
    push_char(s, '\n');
    s.append(line.1.as_str());
    push_char(s, '\n');
    push_char(s, '\n');
    assert(label@ =~= seq!['['] + line.0.activity@ + seq![']', ' '] + line.0.product_name@);
    assert(s@ =~= old(s)@ + line_block(*line, *figures));
}

impl HrData {
    /// The text listing of the day, with `figures[k]` the hours, the price
    /// and the amount of the k-th line as they are to be written.
    pub fn day_text(&self, figures: &Vec<(String, String, String)>) -> (r: String)
        requires
            figures.len() == lines_of(self.spec_parsed()).len(),
        ensures
            r@ == day_text_of(*self, figures@),
    {
        match self.data_ref() {
            None => {
                let mut r = String::from_str("Nothing to display for: ");
                r.append(self.selection_ref().invoice_date.as_str());
                r
            },
            Some(p) => {
                let mut r = p.section.clone();
                push_char(&mut r, '\n');
                push_char(&mut r, '\n');
                let ghost head = r@;
                let n = p.ligne_note.len();
                let mut k: usize = 0;
                assert(p.ligne_note@.take(0) =~= Seq::<(HrLigne, String)>::empty());
                while k < n
                    invariant
                        n == p.ligne_note.len(),
                        n == figures.len(),
                        k <= n,
                        r@ == head + blocks(p.ligne_note@.take(k as int), figures@),
                    decreases n - k,
                {
                    proof {
                        let next = p.ligne_note@.take(k + 1);
                        assert(next.drop_last() =~= p.ligne_note@.take(k as int));
                        assert(next.last() == p.ligne_note@[k as int]);
                    }
                    push_line_block(&mut r, &p.ligne_note[k], &figures[k]);
                    assert(r@ =~= head + blocks(p.ligne_note@.take(k + 1), figures@));
                    k = k + 1;
                }
                assert(p.ligne_note@.take(n as int) =~= p.ligne_note@);
                assert(head =~= p.section@ + seq!['\n', '\n']);
                r
            },
        }
    }
}

/// Law: a work entry of a line carries that line's own activity, product,
/// hours, price, sale description and note, and the amount it was given.
pub proof fn law_work_entry_of_its_line(w: Work, line: (HrLigne, String), price_raw: u64)
    requires
        work_of_line(w, line, price_raw),
    ensures
        w.activity == line.0.activity,
        w.product_name == line.0.product_name,
        w.worked_hour == line.0.worked_hours,
        w.product_list_price == line.0.product_list_price,
        w.price_raw == price_raw,
        w.product_description_sale == line.0.product_description_sale,
        w.note == line.1,
{
}

/// The rows of the first `k` lines, then those of the next, are the rows of
/// the first `k + 1` lines.
proof fn lemma_blocks_step(lines: Seq<(HrLigne, String)>, figures: Seq<(String, String, String)>, k: int)
    requires
        0 <= k < lines.len(),
    ensures
        blocks(lines.take(k + 1), figures) == blocks(lines.take(k), figures) + line_block(lines[k], figures[k]),
{
    assert(lines.take(k + 1).drop_last() =~= lines.take(k));
    assert(lines.take(k + 1).last() == lines[k]);
}

/// The rows of the first `m` lines begin the rows of all the lines.
proof fn lemma_blocks_prefix(lines: Seq<(HrLigne, String)>, figures: Seq<(String, String, String)>, m: int)
    requires
        0 <= m <= lines.len(),
    ensures
        blocks(lines, figures).len() >= blocks(lines.take(m), figures).len(),
        blocks(lines, figures).subrange(0, blocks(lines.take(m), figures).len() as int) == blocks(
            lines.take(m),
            figures,
        ),
    decreases lines.len() - m,
{
    if m == lines.len() {
        assert(lines.take(m) =~= lines);
    } else {
        lemma_blocks_prefix(lines, figures, m + 1);
        lemma_blocks_step(lines, figures, m);
        let whole = blocks(lines, figures);
        let next = blocks(lines.take(m + 1), figures);
        let before = blocks(lines.take(m), figures);
        assert(whole.subrange(0, before.len() as int) =~= next.subrange(0, before.len() as int));
        assert(next.subrange(0, before.len() as int) =~= before);
    }
}

/// Law: in the text listing of a day, the rows of the k-th line are written
/// with the k-th figures: after the day's name, an empty row and the rows
/// of the lines before it, come the rows of line k with `figures[k]`, for
/// every line.
pub proof fn law_listing_rows_use_own_figures(
    section: Seq<char>,
    lines: Seq<(HrLigne, String)>,
    figures: Seq<(String, String, String)>,
    k: int,
)
    requires
        0 <= k < lines.len(),
    ensures
        ({
            let text = section + seq!['\n', '\n'] + blocks(lines, figures);
            let start = (section.len() + 2 + blocks(lines.take(k), figures).len()) as int;
            let row = line_block(lines[k], figures[k]);
            &&& start + row.len() <= text.len()
            &&& text.subrange(start, start + row.len() as int) == row
            &&& row.subrange(0, row_text(lines[k], figures[k]).len() as int) == pad_right(
                seq!['['] + lines[k].0.activity@ + seq![']', ' '] + lines[k].0.product_name@,
                49,
            ) + seq![' '] + pad_right(figures[k].0@, 10) + seq![' '] + pad_right(figures[k].1@, 10) + seq![' ']
                + pad_right(figures[k].2@, 10)
        }),
{
    lemma_blocks_prefix(lines, figures, k + 1);
    lemma_blocks_step(lines, figures, k);
    let head = section + seq!['\n', '\n'];
    let all = blocks(lines, figures);
    let before = blocks(lines.take(k), figures);
    let next = blocks(lines.take(k + 1), figures);
    let row = line_block(lines[k], figures[k]);
    let text = head + all;
    assert(next.len() == before.len() + row.len());
    assert(all.subrange(0, next.len() as int) == next);
    let start = (head.len() + before.len()) as int;
    assert(text.subrange(start, start + row.len() as int) =~= row) by {
        assert forall|i: int| 0 <= i < row.len() implies text[head.len() + before.len() + i] == row[i] by {
            assert(text[head.len() + before.len() + i] == all[before.len() + i]);
            assert(all[before.len() + i] == all.subrange(0, next.len() as int)[before.len() + i]);
            assert(next[before.len() + i] == row[i]);
        }
    }
    assert(row.subrange(0, row_text(lines[k], figures[k]).len() as int) =~= row_text(lines[k], figures[k]));
}

/// Whether `w` is an empty entry: no text, and zero (`0.0`) for every number.
pub open spec fn is_blank(w: Work) -> bool {
    &&& w.activity@ == Seq::<char>::empty()
    &&& w.product_name@ == Seq::<char>::empty()
    &&& w.worked_hour == 0
    &&& w.product_list_price == 0
    &&& w.price_raw == 0
    &&& w.product_description_sale@ == Seq::<char>::empty()
    &&& w.note@ == Seq::<char>::empty()
}

impl HrData {
    /// The per-activity report of the day: one empty entry (zero hours and
    /// amount) for each activity, in the order the activities first appear.
    pub fn day_work_total_blank(&self) -> (r: DayWork)
        ensures
            r.day == report_day(*self),
            r.work.len() == first_seen(lines_of(self.spec_parsed())).len(),
            forall|g: int| 0 <= g < r.work.len() ==> is_blank(#[trigger] r.work@[g]),
    {
        let groups = self.activity_groups();
        let mut totals: Vec<(u64, u64)> = Vec::new();
        let mut g: usize = 0;
        while g < groups.len()
            invariant
                g <= groups.len(),
                totals.len() == g,
                forall|h: int| 0 <= h < g ==> #[trigger] totals@[h] == (0u64, 0u64),
            decreases groups.len() - g,
        {
            totals.push((0, 0));
            g = g + 1;
        }
        let r = self.day_work_total(&totals);
        assert forall|g: int| 0 <= g < r.work.len() implies is_blank(#[trigger] r.work@[g]) by {
            assert(totals@[g] == (0u64, 0u64));
        }
        r
    }
}

/// The number of worked hours that the groups of `activities` hold together.
pub open spec fn grouped_count(lines: Seq<(HrLigne, String)>, activities: Seq<Seq<char>>) -> nat
    decreases activities.len(),
{
    if activities.len() == 0 {
        0
    } else {
        grouped_count(lines, activities.drop_last()) + hours_of(lines, activities.last()).len()
    }
}

/// An activity without lines has no hours, and one with hours is among the
/// activities seen.
pub proof fn lemma_hours_seen(lines: Seq<(HrLigne, String)>, activity: Seq<char>)
    ensures
        !first_seen(lines).contains(activity) ==> hours_of(lines, activity).len() == 0,
    decreases lines.len(),
{
    if lines.len() > 0 {
        let init = lines.drop_last();
        let a = lines.last().0.activity@;
        lemma_hours_seen(init, activity);
        let before = first_seen(init);
        let seen = first_seen(lines);
        if !seen.contains(activity) {
            if before.contains(activity) {
                let j = choose|j: int| 0 <= j < before.len() && before[j] == activity;
                if !before.contains(a) {
                    assert(seen[j] == activity);
                }
            }
            if a == activity {
                if !before.contains(a) {
                    assert(seen[before.len() as int] == a);
                }
            }
        }
    }
}

/// Groups over activities that do not hold the activity of `line` keep
/// their count when `line` is added.
proof fn lemma_grouped_count_other(lines: Seq<(HrLigne, String)>, line: (HrLigne, String), activities: Seq<Seq<char>>)
    requires
        !activities.contains(line.0.activity@),
    ensures
        grouped_count(lines.push(line), activities) == grouped_count(lines, activities),
    decreases activities.len(),
{
    if activities.len() > 0 {
        assert(lines.push(line).drop_last() =~= lines);
        assert(!activities.drop_last().contains(line.0.activity@)) by {
            if activities.drop_last().contains(line.0.activity@) {
                let j = choose|j: int| 0 <= j < activities.drop_last().len() && activities.drop_last()[j] == line.0.activity@;
                assert(activities[j] == line.0.activity@);
            }
        }
        lemma_grouped_count_other(lines, line, activities.drop_last());
        assert(activities.last() != line.0.activity@);
    }
}

/// Groups over distinct activities, one of which is that of `line`, gain
/// one when `line` is added.
proof fn lemma_grouped_count_same(lines: Seq<(HrLigne, String)>, line: (HrLigne, String), activities: Seq<Seq<char>>)
    requires
        activities.contains(line.0.activity@),
        activities.no_duplicates(),
    ensures
        grouped_count(lines.push(line), activities) == grouped_count(lines, activities) + 1,
    decreases activities.len(),
{
    assert(lines.push(line).drop_last() =~= lines);
    let init = activities.drop_last();
    if activities.last() == line.0.activity@ {
        assert(!init.contains(line.0.activity@)) by {
            if init.contains(line.0.activity@) {
                let j = choose|j: int| 0 <= j < init.len() && init[j] == line.0.activity@;
                assert(activities[j] == activities[activities.len() - 1]);
            }
        }
        lemma_grouped_count_other(lines, line, init);
    } else {
        let j = choose|j: int| 0 <= j < activities.len() && activities[j] == line.0.activity@;
        assert(init[j] == line.0.activity@);
        lemma_grouped_count_same(lines, line, init);
    }
}

/// The activities seen are distinct.
pub proof fn lemma_first_seen_distinct(lines: Seq<(HrLigne, String)>)
    ensures
        first_seen(lines).no_duplicates(),
    decreases lines.len(),
{
    if lines.len() > 0 {
        lemma_first_seen_distinct(lines.drop_last());
    }
}

/// Law: gathering the lines by activity loses and repeats none of them.
/// The activities of the groups are distinct, every line's activity has a
/// group, and the groups hold as many worked hours as there are lines.
pub proof fn law_groups_partition_lines(lines: Seq<(HrLigne, String)>)
    ensures
        first_seen(lines).no_duplicates(),
        forall|k: int| 0 <= k < lines.len() ==> first_seen(lines).contains(#[trigger] lines[k].0.activity@),
        grouped_count(lines, first_seen(lines)) == lines.len(),
    decreases lines.len(),
{
    lemma_first_seen_distinct(lines);
    if lines.len() > 0 {
        let init = lines.drop_last();
        let last = lines.last();
        law_groups_partition_lines(init);
        assert(lines =~= init.push(last));
        let before = first_seen(init);
        lemma_first_seen_distinct(init);
        if before.contains(last.0.activity@) {
            lemma_grouped_count_same(init, last, before);
        } else {
            lemma_grouped_count_other(init, last, before);
            lemma_hours_seen(init, last.0.activity@);
            assert(before.push(last.0.activity@).drop_last() =~= before);
            assert(hours_of(lines, last.0.activity@).len() == 1);
        }
        assert forall|k: int| 0 <= k < lines.len() implies first_seen(lines).contains(#[trigger] lines[k].0.activity@) by {
            if k < init.len() {
                assert(init[k] == lines[k]);
                let j = choose|j: int| 0 <= j < before.len() && before[j] == init[k].0.activity@;
                if !before.contains(last.0.activity@) {
                    assert(first_seen(lines)[j] == before[j]);
                }
            } else {
                if !before.contains(last.0.activity@) {
                    assert(first_seen(lines)[before.len() as int] == last.0.activity@);
                }
            }
        }
    }
}

} // verus!
