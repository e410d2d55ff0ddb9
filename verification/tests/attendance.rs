use odoo::config::{Connection, HrSelection};
use odoo::error::OdooError;
use odoo::hr::{read_attendance_head, read_note, read_product, read_template, HrData, HrLigne, HrParse, Outcome};
use odoo::master::OdooConnection;
use odoo::report::Work;
use odoo::rpc::{IsoDate, RpcValue};
use odoo::selection::{FlowAction, FlowEvent, FlowPhase, HrFlow};

fn s(t: &str) -> RpcValue {
    RpcValue::Str(t.to_string())
}

fn rec(entries: Vec<(&str, RpcValue)>) -> RpcValue {
    let mut v: Vec<(String, RpcValue)> = entries.into_iter().map(|(k, v)| (k.to_string(), v)).collect();
    v.sort_by(|a, b| a.0.cmp(&b.0));
    RpcValue::Struct(v)
}

fn attendance(id: i32, activity: &str, hours: f64, check_in: &str, check_out: &str) -> RpcValue {
    rec(vec![
        ("employee_id", RpcValue::Array(vec![RpcValue::Int(id), s(activity)])),
        ("worked_hours", RpcValue::Double(hours.to_bits())),
        ("check_in", s(check_in)),
        ("check_out", s(check_out)),
    ])
}

fn data(uid: Option<i32>) -> HrData {
    let mut c = OdooConnection::new(Connection {
        url: "http://odoo".to_string(),
        db: "db".to_string(),
        username: "me".to_string(),
        password: "pw".to_string(),
    });
    if let Some(u) = uid {
        c.apply_login_reply(&RpcValue::Int(u));
    }
    HrData::new(c, HrSelection::for_day(2021, 3, 5))
}

#[test]
fn head_of_records() {
    let r = attendance(7, "DEV", 1.5, "2021-03-05 08:00:00", "2021-03-05 09:30:00");
    assert_eq!(read_attendance_head(&r), Outcome::Value((7, "DEV".to_string(), 1.5f64.to_bits())));
    assert_eq!(read_attendance_head(&RpcValue::Int(1)), Outcome::Failed(OdooError::InvalidResponse));
    assert_eq!(read_attendance_head(&rec(vec![("worked_hours", RpcValue::Double(0))])), Outcome::Aborts);
    let not_array = rec(vec![("employee_id", RpcValue::Int(1)), ("worked_hours", RpcValue::Double(0))]);
    assert_eq!(read_attendance_head(&not_array), Outcome::Failed(OdooError::InvalidResponse));
    let empty = rec(vec![("employee_id", RpcValue::Array(vec![])), ("worked_hours", RpcValue::Double(0))]);
    assert_eq!(read_attendance_head(&empty), Outcome::Value((0, String::new(), 0)));
    let no_hours = rec(vec![("employee_id", RpcValue::Array(vec![RpcValue::Int(1)]))]);
    assert_eq!(read_attendance_head(&no_hours), Outcome::Aborts);
    let bad_name = rec(vec![("employee_id", RpcValue::Array(vec![RpcValue::Int(1), RpcValue::Int(2)]))]);
    assert_eq!(read_attendance_head(&bad_name), Outcome::Failed(OdooError::InvalidResponse));
}

#[test]
fn products_and_templates() {
    assert_eq!(read_product(&RpcValue::Array(vec![])), Outcome::Value(None));
    assert_eq!(read_product(&RpcValue::Array(vec![rec(vec![("id", RpcValue::Int(42))])])), Outcome::Value(Some(42)));
    assert_eq!(read_product(&RpcValue::Array(vec![rec(vec![])])), Outcome::Aborts);
    assert_eq!(read_product(&RpcValue::Nil), Outcome::Failed(OdooError::InvalidResponse));
    let t = RpcValue::Array(vec![rec(vec![
        ("name", s("Consulting")),
        ("description_sale", s("Advice")),
        ("list_price", RpcValue::Double(120.0f64.to_bits())),
    ])]);
    assert_eq!(
        read_template(&t, Some(42)),
        Outcome::Value((Some("Consulting".to_string()), Some("Advice".to_string()), Some(120.0f64.to_bits())))
    );
    assert_eq!(
        read_template(&t, Some(18)),
        Outcome::Value((None, Some("Advice".to_string()), Some(120.0f64.to_bits())))
    );
    assert_eq!(read_template(&RpcValue::Array(vec![]), Some(1)), Outcome::Value((None, None, None)));
    let no_description = RpcValue::Array(vec![rec(vec![("description_sale", RpcValue::Bool(false))])]);
    assert_eq!(read_template(&no_description, None), Outcome::Failed(OdooError::InvalidResponse));
    let nameless = RpcValue::Array(vec![rec(vec![("description_sale", s("x"))])]);
    assert_eq!(read_template(&nameless, Some(5)), Outcome::Aborts);
}

#[test]
fn notes_shift_an_hour() {
    let r = attendance(7, "DEV", 1.5, "2021-03-05 08:00:00", "2021-03-05 16:30:00");
    assert_eq!(read_note(&r), Outcome::Value("09:00 17:30".to_string()));
    let late = attendance(7, "DEV", 1.5, "2021-03-05 23:10:00", "2021-03-05 23:59:59");
    assert_eq!(read_note(&late), Outcome::Value("00:10 00:59".to_string()));
    let bad = attendance(7, "DEV", 1.5, "yesterday", "2021-03-05 16:30:00");
    assert_eq!(read_note(&bad), Outcome::Aborts);
    let open = rec(vec![("check_in", s("2021-03-05 08:00:00")), ("check_out", RpcValue::Bool(false))]);
    assert_eq!(read_note(&open), Outcome::Failed(OdooError::InvalidResponse));
}

#[test]
fn times_read_and_shifted() {
    let at = |t: &str| rec(vec![("check_in", s(t)), ("check_out", s("1970-01-01 00:00:00"))]);
    assert_eq!(read_note(&at("1970-01-01 00:00:00")), Outcome::Value("01:00 01:00".to_string()));
    assert_eq!(read_note(&at("1969-12-31 22:59:00")), Outcome::Value("23:59 01:00".to_string()));
    assert_eq!(read_note(&at("2021-03-05")), Outcome::Aborts);
    assert_eq!(read_note(&at("262142-12-31 22:30:00")), Outcome::Aborts);
    assert_eq!(read_note(&at("+262142-12-31 23:30:00")), Outcome::Aborts);
    assert_eq!(read_note(&at("+262142-12-31 22:30:00")), Outcome::Value("23:30 01:00".to_string()));
}

#[test]
fn window_of_a_hand_made_day() {
    let c = OdooConnection::new(Connection {
        url: String::new(),
        db: String::new(),
        username: String::new(),
        password: String::new(),
    });
    let sel = HrSelection {
        invoice_date: "d".to_string(),
        invoice_date_in: "2021-03-05T10:20".to_string(),
        invoice_date_out: "nonsense".to_string(),
    };
    assert!(HrData::new(c, sel).attendance_window().is_none());
}

#[test]
fn window_of_the_day() {
    let d = data(Some(2));
    let (a, b) = d.attendance_window().unwrap();
    assert_eq!(a.date, IsoDate::YMD { year: 2021, month: 3, day: 5 });
    assert_eq!((a.time.hour, a.time.minute, a.time.second), (0, 0, 0));
    assert_eq!((b.time.hour, b.time.minute, b.time.second), (23, 59, 59));
}

fn call(action: FlowAction) -> odoo::rpc::RpcRequest {
    match action {
        FlowAction::Call(r) => r,
        other => panic!("expected a call, got {:?}", other),
    }
}

fn template(name: &str, price: f64) -> RpcValue {
    RpcValue::Array(vec![rec(vec![
        ("name", s(name)),
        ("description_sale", s("desc")),
        ("list_price", RpcValue::Double(price.to_bits())),
    ])])
}

#[test]
fn reading_a_day() {
    let d = data(Some(2));
    let (din, dout) = d.attendance_window().unwrap();
    let (mut flow, action) = HrFlow::start(&d, din, dout);
    let req = call(action);
    assert_eq!(req.url, "http://odoo/xmlrpc/2/object");
    assert_eq!(req.args[3], s("hr.attendance"));
    assert_eq!(
        req.args[5],
        RpcValue::Array(vec![RpcValue::Array(vec![
            RpcValue::Array(vec![s("check_in"), s(">="), RpcValue::DateTime(din)]),
            RpcValue::Array(vec![s("check_out"), s("<="), RpcValue::DateTime(dout)]),
        ])])
    );
    let records = RpcValue::Array(vec![
        attendance(7, "DEV", 1.5, "2021-03-05 08:00:00", "2021-03-05 09:30:00"),
        attendance(8, "OPS", 2.25, "2021-03-05 10:00:00", "2021-03-05 12:15:00"),
    ]);
    assert_eq!(flow.step(FlowEvent::Reply(records)), FlowAction::Round(1.5f64.to_bits()));
    let req = call(flow.step(FlowEvent::Rounded(1.5f64.to_bits())));
    assert_eq!(req.args[3], s("product.product"));
    assert_eq!(
        req.args[5],
        RpcValue::Array(vec![RpcValue::Array(vec![RpcValue::Array(vec![s("default_code"), s("="), s("DEV")])])])
    );
    let req = call(flow.step(FlowEvent::Reply(RpcValue::Array(vec![rec(vec![("id", RpcValue::Int(42))])]))));
    assert_eq!(req.args[3], s("product.template"));
    assert_eq!(
        req.args[5],
        RpcValue::Array(vec![RpcValue::Array(vec![RpcValue::Array(vec![s("id"), s("="), RpcValue::Int(42)])])])
    );
    assert_eq!(flow.step(FlowEvent::Reply(template("Development", 100.0))), FlowAction::Round(2.25f64.to_bits()));
    let _ = call(flow.step(FlowEvent::Rounded(2.25f64.to_bits())));
    let req = call(flow.step(FlowEvent::Reply(RpcValue::Array(vec![]))));
    assert_eq!(
        req.args[5],
        RpcValue::Array(vec![RpcValue::Array(vec![RpcValue::Array(vec![s("id"), s("="), RpcValue::Int(18)])])])
    );
    let end = flow.step(FlowEvent::Reply(template("Unknown", 80.0)));
    let expected = HrParse::new(
        "2021-03-05".to_string(),
        vec![
            (
                HrLigne::new(8, "OPS".to_string(), 2.25f64.to_bits(), "?".to_string(), "desc".to_string(), 80.0f64.to_bits()),
                "11:00 13:15".to_string(),
            ),
            (
                HrLigne::new(7, "DEV".to_string(), 1.5f64.to_bits(), "Development".to_string(), "desc".to_string(), 100.0f64.to_bits()),
                "09:00 10:30".to_string(),
            ),
        ],
    );
    assert_eq!(end, FlowAction::Finish(Ok(Some(expected))));
    assert_eq!(flow.phase, FlowPhase::Finished);
}

#[test]
fn reading_a_day_without_login() {
    let d = data(None);
    let (din, dout) = d.attendance_window().unwrap();
    let (flow, action) = HrFlow::start(&d, din, dout);
    assert_eq!(action, FlowAction::Finish(Err(OdooError::InvalidCredential)));
    assert_eq!(flow.phase, FlowPhase::Finished);
}

#[test]
fn reading_an_empty_day() {
    let mut d = data(Some(2));
    let (din, dout) = d.attendance_window().unwrap();
    let (mut flow, _) = HrFlow::start(&d, din, dout);
    assert_eq!(flow.step(FlowEvent::Reply(RpcValue::Array(vec![]))), FlowAction::Finish(Ok(None)));
    d.store_selection(None);
    assert_eq!(d.data, None);
}

#[test]
fn reading_a_bad_reply() {
    let d = data(Some(2));
    let (din, dout) = d.attendance_window().unwrap();
    let (mut flow, _) = HrFlow::start(&d, din, dout);
    assert_eq!(flow.step(FlowEvent::Reply(RpcValue::Nil)), FlowAction::Finish(Err(OdooError::InvalidResponse)));
}

#[test]
fn refused_outright_leaves_the_flow() {
    let d = data(Some(2));
    let (din, dout) = d.attendance_window().unwrap();
    let (mut flow, _) = HrFlow::start(&d, din, dout);
    let missing = RpcValue::Array(vec![rec(vec![("worked_hours", RpcValue::Double(0))])]);
    assert_eq!(flow.try_step(FlowEvent::Reply(missing)), None);
    assert_eq!(flow.phase, FlowPhase::AwaitAttendances);
    let records = RpcValue::Array(vec![attendance(7, "DEV", 1.0, "soon", "later")]);
    assert_eq!(flow.try_step(FlowEvent::Reply(records)), Some(FlowAction::Round(1.0f64.to_bits())));
    let _ = flow.try_step(FlowEvent::Rounded(1.0f64.to_bits()));
    let _ = flow.try_step(FlowEvent::Reply(RpcValue::Array(vec![])));
    assert_eq!(flow.try_step(FlowEvent::Reply(template("x", 1.0))), None);
}

#[test]
fn empty_work_entry() {
    let w = Work::new();
    assert_eq!(w.activity, "");
    assert_eq!(w.worked_hour, 0.0f64.to_bits());
    assert_eq!(w.price_raw, 0);
}

#[test]
fn a_malformed_reply_ends_the_reading_and_keeps_nothing() {
    let mut d = data(Some(2));
    let (din, dout) = d.attendance_window().unwrap();
    let (mut flow, _) = HrFlow::start(&d, din, dout);
    let records = RpcValue::Array(vec![attendance(7, "DEV", 1.0, "2021-03-05 08:00:00", "2021-03-05 09:00:00")]);
    let _ = flow.step(FlowEvent::Reply(records));
    let _ = flow.step(FlowEvent::Rounded(1.0f64.to_bits()));
    let end = flow.step(FlowEvent::Reply(RpcValue::Array(vec![rec(vec![("id", s("42"))])])));
    assert_eq!(end, FlowAction::Finish(Err(OdooError::InvalidResponse)));
    assert_eq!(flow.phase, FlowPhase::Finished);
    let before = d.data.clone();
    match end {
        FlowAction::Finish(outcome) => assert_eq!(d.finish_selection(outcome), Err(OdooError::InvalidResponse)),
        _ => unreachable!(),
    }
    assert_eq!(d.data, before);
}

#[test]
fn a_good_reading_is_kept() {
    let mut d = data(Some(2));
    let p = HrParse::new("2021-03-05".to_string(), vec![]);
    assert_eq!(d.finish_selection(Ok(Some(p.clone()))), Ok(()));
    assert_eq!(d.data, Some(p));
    assert_eq!(d.finish_selection(Ok(None)), Ok(()));
    assert_eq!(d.data.as_ref().unwrap().section, "2021-03-05");
}
