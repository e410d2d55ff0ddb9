use odoo::bridge::swift_reply;
use odoo::config::Connection;
use odoo::error::OdooError;
use odoo::invoice::InvoiceData;
use odoo::master::OdooConnection;
use odoo::odoo_const::Arrondi;
use odoo::rpc::{RpcRequest, RpcValue};

fn conn() -> OdooConnection {
    OdooConnection::new(Connection {
        url: "http://odoo".to_string(),
        db: "db".to_string(),
        username: "me".to_string(),
        password: "pw".to_string(),
    })
}

fn s(t: &str) -> RpcValue {
    RpcValue::Str(t.to_string())
}

#[test]
fn login_request_and_reply() {
    let mut c = conn();
    assert_eq!(c.uid, None);
    let req = c.login_request();
    assert_eq!(req.url, "http://odoo/xmlrpc/2/common");
    assert_eq!(req.method, "authenticate");
    assert_eq!(req.args, vec![s("db"), s("me"), s("pw"), RpcValue::Nil]);
    c.apply_login_reply(&RpcValue::Int(7));
    assert_eq!(c.uid, Some(7));
    c.apply_login_reply(&RpcValue::Bool(false));
    assert_eq!(c.uid, None);
}

#[test]
fn requests_need_a_user() {
    let c = conn();
    let r = c.search_read_request("res.partner", vec![], vec![s("name")]);
    assert_eq!(r, Err(OdooError::InvalidCredential));
    assert_eq!(OdooError::InvalidCredential.message(), "invalid credential");
    assert_eq!(OdooError::InvalidResponse.message(), "invalid xml-rpc response");
}

fn invoice_request(state: &str) -> RpcRequest {
    let mut c = conn();
    c.apply_login_reply(&RpcValue::Int(3));
    InvoiceData::new(c, state.to_string()).selection_request().unwrap()
}

#[test]
fn invoice_requests_by_state() {
    let sent = invoice_request("sent");
    assert_eq!(sent.url, "http://odoo/xmlrpc/2/object");
    assert_eq!(sent.method, "execute_kw");
    assert_eq!(
        sent.args,
        vec![
            s("db"),
            RpcValue::Int(3),
            s("pw"),
            s("account.move"),
            s("search_read"),
            RpcValue::Array(vec![RpcValue::Array(vec![RpcValue::Array(vec![s("state"), s("="), s("sent")])])]),
            RpcValue::Struct(vec![(
                "fields".to_string(),
                RpcValue::Array(vec![s("name"), s("date"), s("invoice_partner_display_name"), s("state")]),
            )]),
        ]
    );
    let posted = invoice_request("posted");
    assert_eq!(
        posted.args[5],
        RpcValue::Array(vec![RpcValue::Array(vec![RpcValue::Array(vec![s("state"), s("!="), s("sent")])])])
    );
}

#[test]
fn invoice_request_without_login() {
    let i = InvoiceData::new(conn(), "sent".to_string());
    assert_eq!(i.selection_request(), Err(OdooError::InvalidCredential));
}

#[test]
fn invoice_replies() {
    let i = InvoiceData::new(conn(), "sent".to_string());
    let reply = RpcValue::Array(vec![RpcValue::Int(1)]);
    assert_eq!(i.selection_reply(&reply).unwrap().len(), 1);
    assert_eq!(i.selection_reply(&RpcValue::Int(1)), Err(OdooError::InvalidResponse));
}

#[test]
fn members_of_structs() {
    let v = RpcValue::Struct(vec![("a".to_string(), RpcValue::Int(1)), ("b".to_string(), s("x"))]);
    assert_eq!(v.member(&"b".to_string()), Some(&s("x")));
    assert_eq!(v.member(&"c".to_string()), None);
    assert_eq!(RpcValue::Int(1).member(&"a".to_string()), None);
    let repeated = RpcValue::Struct(vec![("a".to_string(), RpcValue::Int(1)), ("a".to_string(), RpcValue::Int(2))]);
    assert_eq!(repeated.member(&"a".to_string()), Some(&RpcValue::Int(1)));
    assert_eq!(v.as_i32(), None);
    assert_eq!(RpcValue::Double(5).as_f64(), Some(5));
}

#[test]
fn rounding_table() {
    assert_eq!(Arrondi::_Arrondi5Centime._table(), "account_cach_rounding");
}

#[test]
fn swift_greeting() {
    assert_eq!(swift_reply("Hello"), "Hello -> Odoo");
}

#[test]
fn login_gates_requests() {
    let mut c = conn();
    c.apply_login_reply(&RpcValue::Int(9));
    let req = c.search_read_request("res.partner", vec![], vec![s("name")]).unwrap();
    assert_eq!(req.args[1], RpcValue::Int(9));
    assert_eq!(req.args[3], s("res.partner"));
    assert_eq!(req.args[6], RpcValue::Struct(vec![("fields".to_string(), RpcValue::Array(vec![s("name")]))]));
    c.apply_login_reply(&s("9"));
    assert_eq!(c.search_read_request("res.partner", vec![], vec![]), Err(OdooError::InvalidCredential));
}
