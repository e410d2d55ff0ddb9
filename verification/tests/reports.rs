use odoo::config::{Connection, HrSelection};
use odoo::hr::{HrData, HrLigne, HrParse};
use odoo::master::OdooConnection;

fn line(activity: &str, hours: u64, name: &str) -> (HrLigne, String) {
    (
        HrLigne::new(1, activity.to_string(), hours, name.to_string(), "desc".to_string(), 7),
        "09:00 10:00".to_string(),
    )
}

fn day(lines: Option<Vec<(HrLigne, String)>>) -> HrData {
    let c = OdooConnection::new(Connection {
        url: "u".to_string(),
        db: "d".to_string(),
        username: "n".to_string(),
        password: "p".to_string(),
    });
    let mut d = HrData::new(c, HrSelection::for_day(2021, 3, 5));
    d.store_selection(lines.map(|l| HrParse::new("2021-03-05".to_string(), l)));
    d
}

#[test]
fn work_of_the_day() {
    let d = day(Some(vec![line("A", 10, "pa"), line("B", 20, "pb")]));
    let w = d.day_work(&vec![100, 200]);
    assert_eq!(w.day, "2021-03-05");
    assert_eq!(w.work.len(), 2);
    assert_eq!(w.work[1].activity, "B");
    assert_eq!(w.work[1].product_name, "pb");
    assert_eq!(w.work[1].worked_hour, 20);
    assert_eq!(w.work[1].product_list_price, 7);
    assert_eq!(w.work[1].price_raw, 200);
    assert_eq!(w.work[1].note, "09:00 10:00");
    let empty = day(None).day_work(&vec![]);
    assert_eq!(empty.day, "2021-03-05");
    assert!(empty.work.is_empty());
}

#[test]
fn groups_by_activity() {
    let d = day(Some(vec![line("A", 1, "x"), line("B", 2, "y"), line("A", 3, "z")]));
    let g = d.activity_groups();
    assert_eq!(g.len(), 2);
    assert_eq!(g[0].activity, "A");
    assert_eq!(g[0].worked_hours, vec![1, 3]);
    assert_eq!(g[1].activity, "B");
    assert_eq!(g[1].worked_hours, vec![2]);
    let total: usize = g.iter().map(|x| x.worked_hours.len()).sum();
    assert_eq!(total, 3);
    assert!(day(None).activity_groups().is_empty());
}

#[test]
fn totals_of_the_day() {
    let d = day(Some(vec![line("A", 1, "x"), line("B", 2, "y")]));
    let t = d.day_work_total(&vec![(11, 0), (22, 0)]);
    assert_eq!(t.day, "2021-03-05");
    assert_eq!(t.work.len(), 2);
    assert_eq!(t.work[0].activity, "");
    assert_eq!(t.work[0].worked_hour, 11);
    assert_eq!(t.work[1].worked_hour, 22);
    assert_eq!(t.work[1].note, "");
}

#[test]
fn text_of_the_day() {
    let d = day(Some(vec![line("A", 1, "x")]));
    let t = d.day_text(&vec![("1.50".to_string(), "100.00".to_string(), "150.00".to_string())]);
    let row = format!("{:<49} {:<10} {:<10} {:<10}", "[A] x", "1.50", "100.00", "150.00");
    assert_eq!(t, format!("2021-03-05\n\n{}\ndesc\n09:00 10:00\n\n", row));
}

#[test]
fn text_of_an_unread_day() {
    assert_eq!(day(None).day_text(&vec![]), "Nothing to display for: 2021-03-05");
}

#[test]
fn an_empty_day_keeps_what_was_read() {
    let mut d = day(Some(vec![line("A", 1, "x")]));
    d.store_selection(None);
    assert_eq!(d.data.as_ref().unwrap().ligne_note.len(), 1);
    d.store_selection(Some(HrParse::new("other".to_string(), vec![])));
    assert_eq!(d.data.as_ref().unwrap().section, "other");
}

#[test]
fn blank_totals_of_the_day() {
    let d = day(Some(vec![line("A", 1, "x"), line("B", 2, "y"), line("A", 3, "z")]));
    let t = d.day_work_total_blank();
    assert_eq!(t.day, "2021-03-05");
    assert_eq!(t.work.len(), 2);
    for w in t.work.iter() {
        assert_eq!(w.activity, "");
        assert_eq!(w.worked_hour, 0);
        assert_eq!(w.price_raw, 0);
        assert_eq!(w.product_list_price, 0);
        assert_eq!(w.note, "");
    }
    assert!(day(None).day_work_total_blank().work.is_empty());
}
