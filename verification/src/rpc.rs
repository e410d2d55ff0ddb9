//! The XML-RPC values exchanged with an Odoo server, as plain data.
use vstd::prelude::*;

verus! {

/// The date of an ISO 8601 datetime, in one of its three forms.
#[derive(Clone, Copy, PartialEq, Eq, Structural, Debug)]
pub enum IsoDate {
    YMD { year: i32, month: u32, day: u32 },
    Week { year: i32, ww: u32, d: u32 },
    Ordinal { year: i32, ddd: u32 },
}

/// The time of an ISO 8601 datetime, with its offset from UTC.
#[derive(Clone, Copy, PartialEq, Eq, Structural, Debug)]
pub struct IsoTime {
    pub hour: u32,
    pub minute: u32,
    pub second: u32,
    pub millisecond: u32,
    pub tz_offset_hours: i32,
    pub tz_offset_minutes: i32,
}

/// An ISO 8601 datetime (`<dateTime.iso8601>`).
#[derive(Clone, Copy, PartialEq, Eq, Structural, Debug)]
pub struct IsoDateTime {
    pub date: IsoDate,
    pub time: IsoTime,
}

/// An XML-RPC value. A `double` is held by its IEEE-754 bit pattern; the
/// members of a `<struct>` are held in order, and where their names are
/// distinct (`keys_distinct`), as in a struct that a server sends, reading a
/// member gives the one of that name.
#[derive(Debug, PartialEq)]
pub enum RpcValue {
    Int(i32),
    Int64(i64),
    Bool(bool),
    Str(String),
    Double(u64),
    DateTime(IsoDateTime),
    Base64(Vec<u8>),
    Struct(Vec<(String, RpcValue)>),
    Array(Vec<RpcValue>),
    Nil,
}

/// The mathematical model of an [`RpcValue`].
pub enum RpcModel {
    Int(i32),
    Int64(i64),
    Bool(bool),
    Str(Seq<char>),
    Double(u64),
    DateTime(IsoDateTime),
    Base64(Seq<u8>),
    Struct(Seq<(Seq<char>, RpcModel)>),
    Array(Seq<RpcModel>),
    Nil,
}

impl RpcValue {
    pub open spec fn model(self) -> RpcModel
        decreases self,
    {
        match self {
            RpcValue::Int(i) => RpcModel::Int(i),
            RpcValue::Int64(i) => RpcModel::Int64(i),
            RpcValue::Bool(b) => RpcModel::Bool(b),
            RpcValue::Str(s) => RpcModel::Str(s@),
            RpcValue::Double(d) => RpcModel::Double(d),
            RpcValue::DateTime(dt) => RpcModel::DateTime(dt),
            RpcValue::Base64(b) => RpcModel::Base64(b@),
            RpcValue::Struct(entries) => RpcModel::Struct(
                Seq::new(
                    entries@.len(),
                    |i: int|
                        if 0 <= i < entries@.len() {
                            (entries@[i].0@, entries@[i].1.model())
                        } else {
                            (Seq::empty(), RpcModel::Nil)
                        },
                ),
            ),
            RpcValue::Array(items) => RpcModel::Array(
                Seq::new(
                    items@.len(),
                    |i: int|
                        if 0 <= i < items@.len() {
                            items@[i].model()
                        } else {
                            RpcModel::Nil
                        },
                ),
            ),
            RpcValue::Nil => RpcModel::Nil,
        }
    }
}

impl View for RpcValue {
    type V = RpcModel;

    open spec fn view(&self) -> RpcModel {
        self.model()
    }
}

impl RpcModel {
    /// The integer of an `<int>` value.
    pub open spec fn as_i32(self) -> Option<i32> {
        match self {
            RpcModel::Int(i) => Some(i),
            _ => None,
        }
    }

    /// The text of a `<string>` value.
    pub open spec fn as_str(self) -> Option<Seq<char>> {
        match self {
            RpcModel::Str(s) => Some(s),
            _ => None,
        }
    }

    /// The bit pattern of a `<double>` value.
    pub open spec fn as_f64(self) -> Option<u64> {
        match self {
            RpcModel::Double(d) => Some(d),
            _ => None,
        }
    }

    /// The items of an `<array>` value.
    pub open spec fn as_array(self) -> Option<Seq<RpcModel>> {
        match self {
            RpcModel::Array(items) => Some(items),
            _ => None,
        }
    }

    /// The member named `key` of a `<struct>` value; `None` when `self` is
    /// no struct or has no such member.
    pub open spec fn member(self, key: Seq<char>) -> Option<RpcModel> {
        match self {
            RpcModel::Struct(entries) => lookup(entries, key),
            _ => None,
        }
    }
}

/// Whether no two entries have the same name.
pub open spec fn keys_distinct(entries: Seq<(Seq<char>, RpcModel)>) -> bool {
    forall|i: int, j: int| 0 <= i < j < entries.len() ==> entries[i].0 != entries[j].0
}

/// What `lookup` gives: the value of an entry named `key`, none where no
/// entry has that name; where the names are distinct, the value of the one
/// entry of that name.
pub proof fn lemma_lookup(entries: Seq<(Seq<char>, RpcModel)>, key: Seq<char>)
    ensures
        lookup(entries, key) is None <==> forall|i: int| 0 <= i < entries.len() ==> entries[i].0 != key,
        lookup(entries, key) matches Some(v) ==> exists|i: int| 0 <= i < entries.len() && entries[i] == (key, v),
        keys_distinct(entries) ==> forall|i: int|
            0 <= i < entries.len() && entries[i].0 == key ==> lookup(entries, key) == Some(entries[i].1),
    decreases entries.len(),
{
    if entries.len() > 0 {
        let rest = entries.drop_first();
        lemma_lookup(rest, key);
        if lookup(entries, key) is None {
            assert forall|i: int| 0 <= i < entries.len() implies entries[i].0 != key by {
                if i > 0 {
                    assert(entries[i] == rest[i - 1]);
                }
            }
        }
        if entries[0].0 != key {
            if lookup(rest, key) is Some {
                let v = lookup(rest, key).unwrap();
                let j = choose|j: int| 0 <= j < rest.len() && rest[j] == (key, v);
                assert(entries[j + 1] == rest[j]);
            }
            if forall|i: int| 0 <= i < entries.len() ==> entries[i].0 != key {
                assert forall|i: int| 0 <= i < rest.len() implies rest[i].0 != key by {
                    assert(rest[i] == entries[i + 1]);
                }
            }
        }
        if keys_distinct(entries) {
            assert(keys_distinct(rest)) by {
                assert forall|i: int, j: int| 0 <= i < j < rest.len() implies rest[i].0 != rest[j].0 by {
                    assert(rest[i] == entries[i + 1] && rest[j] == entries[j + 1]);
                }
            }
            assert forall|i: int| 0 <= i < entries.len() && entries[i].0 == key implies lookup(entries, key)
                == Some(entries[i].1) by {
                if i > 0 {
                    assert(entries[i] == rest[i - 1]);
                    assert(entries[0].0 != entries[i].0);
                }
            }
        }
    }
}

/// The value of the first entry whose name is `key`.
pub open spec fn lookup(entries: Seq<(Seq<char>, RpcModel)>, key: Seq<char>) -> Option<RpcModel>
    decreases entries.len(),
{
    if entries.len() == 0 {
        None
    } else if entries[0].0 == key {
        Some(entries[0].1)
    } else {
        lookup(entries.drop_first(), key)
    }
}

impl RpcValue {
    pub fn as_i32(&self) -> (r: Option<i32>)
        ensures
            r == self@.as_i32(),
    {
        match self {
            RpcValue::Int(i) => Some(*i),
            _ => None,
        }
    }

    pub fn as_str(&self) -> (r: Option<&String>)
        ensures
            match r {
                Some(s) => self@.as_str() == Some(s@),
                None => self@.as_str() is None,
            },
    {
        match self {
            RpcValue::Str(s) => Some(s),
            _ => None,
        }
    }

    pub fn as_f64(&self) -> (r: Option<u64>)
        ensures
            r == self@.as_f64(),
    {
        match self {
            RpcValue::Double(d) => Some(*d),
            _ => None,
        }
    }

    pub fn as_array(&self) -> (r: Option<&Vec<RpcValue>>)
        ensures
            match r {
                Some(items) => self@.as_array() == Some(models(items@)),
                None => self@.as_array() is None,
            },
    {
        match self {
            RpcValue::Array(items) => Some(items),
            _ => None,
        }
    }

    pub fn is_struct(&self) -> (r: bool)
        ensures
            r == self@ is Struct,
    {
        match self {
            RpcValue::Struct(_) => true,
            _ => false,
        }
    }

    /// The member named `key`, where `self` is a struct: where the names of
    /// its members are distinct, the one of that name; none where no member
    /// has that name.
    pub fn member(&self, key: &String) -> (r: Option<&RpcValue>)
        ensures
            match r {
                Some(v) => self@.member(key@) == Some(v@),
                None => self@.member(key@) is None,
            },
            self@ is Struct ==> (r is None <==> forall|i: int|
                0 <= i < self@->Struct_0.len() ==> self@->Struct_0[i].0 != key@),
            self@ is Struct && keys_distinct(self@->Struct_0) ==> forall|i: int|
                0 <= i < self@->Struct_0.len() && self@->Struct_0[i].0 == key@ ==> (r matches Some(v)
                    && v@ == self@->Struct_0[i].1),
    {
        proof {
            if let RpcModel::Struct(es) = self@ {
                lemma_lookup(es, key@);
            }
        }
        match self {
            RpcValue::Struct(entries) => {
                let ghost es = self@->Struct_0;
                let mut i: usize = 0;
                assert(es.skip(0) =~= es);
                while i < entries.len()
                    invariant
                        0 <= i <= entries@.len(),
                        self@ == RpcModel::Struct(es),
                        es.len() == entries@.len(),
                        forall|j: int| 0 <= j < es.len() ==> #[trigger] es[j] == (entries@[j].0@, entries@[j].1@),
                        lookup(es, key@) == lookup(es.skip(i as int), key@),
                    decreases entries.len() - i,
                {
                    assert(es.skip(i as int).drop_first() =~= es.skip(i + 1));
                    if entries[i].0 == *key {
                        return Some(&entries[i].1);
                    }
                    i = i + 1;
                }
                None
            },
            _ => None,
        }
    }
}

/// The models of a sequence of values.
pub open spec fn models(items: Seq<RpcValue>) -> Seq<RpcModel> {
    Seq::new(items.len(), |i: int| items[i]@)
}

/// An XML-RPC call: the endpoint, the method and its arguments.
#[derive(Debug, PartialEq)]
pub struct RpcRequest {
    pub url: String,
    pub method: String,
    pub args: Vec<RpcValue>,
}

impl RpcRequest {
    /// The models of the arguments.
    pub open spec fn args_model(&self) -> Seq<RpcModel> {
        models(self.args@)
    }
}

/// The endpoint of an Odoo XML-RPC service (`common` or `object`).
pub open spec fn endpoint(url: Seq<char>, service: Seq<char>) -> Seq<char> {
    url + "/xmlrpc/2/"@ + service
}

/// One condition of a search domain: `[field, operator, value]`.
pub open spec fn condition_model(field: Seq<char>, operator: Seq<char>, value: RpcModel) -> RpcModel {
    RpcModel::Array(seq![RpcModel::Str(field), RpcModel::Str(operator), value])
}

/// The arguments of `execute_kw` for a `search_read` of `model` with the
/// conditions `domain`, reading `fields`.
pub open spec fn search_read_args(
    db: Seq<char>,
    uid: i32,
    password: Seq<char>,
    model: Seq<char>,
    domain: Seq<RpcModel>,
    fields: Seq<RpcModel>,
) -> Seq<RpcModel> {
    seq![
        RpcModel::Str(db),
        RpcModel::Int(uid),
        RpcModel::Str(password),
        RpcModel::Str(model),
        RpcModel::Str("search_read"@),
        RpcModel::Array(seq![RpcModel::Array(domain)]),
        RpcModel::Struct(seq![("fields"@, RpcModel::Array(fields))]),
    ]
}

/// A `<string>` value of `s`.
pub fn text_value(s: &str) -> (r: RpcValue)
    ensures
        r@ == RpcModel::Str(s@),
{
    RpcValue::Str(String::from_str(s))
}

/// An `<array>` value of `items`.
pub fn array_value(items: Vec<RpcValue>) -> (r: RpcValue)
    ensures
        r@ == RpcModel::Array(models(items@)),
{
    let r = RpcValue::Array(items);
    assert(r@->Array_0 =~= models(items@));
    r
}

/// The condition `[field, operator, value]`.
pub fn condition(field: &str, operator: &str, value: RpcValue) -> (r: RpcValue)
    ensures
        r@ == condition_model(field@, operator@, value@),
{
    let items = vec![text_value(field), text_value(operator), value];
    let r = array_value(items);
    assert(models(items@) =~= seq![RpcModel::Str(field@), RpcModel::Str(operator@), value@]);
    r
}

/// A `search_read` of `model` through `execute_kw` on the `object` service.
pub fn search_read(
    url: &String,
    db: &String,
    uid: i32,
    password: &String,
    model: &str,
    domain: Vec<RpcValue>,
    fields: Vec<RpcValue>,
) -> (r: RpcRequest)
    ensures
        r.url@ == endpoint(url@, "object"@),
        r.method@ == "execute_kw"@,
        r.args_model() == search_read_args(db@, uid, password@, model@, models(domain@), models(fields@)),
{
    let ghost domain_model = models(domain@);
    let ghost fields_model = models(fields@);
    let domain_value = array_value(domain);
    let filter_items = vec![domain_value];
    assert(models(filter_items@) =~= seq![RpcModel::Array(domain_model)]);
    let filter = array_value(filter_items);
    let fields_value = array_value(fields);
    let options = RpcValue::Struct(vec![(String::from_str("fields"), fields_value)]);
    assert(options@->Struct_0 =~= seq![("fields"@, RpcModel::Array(fields_model))]);
    let args = vec![
        RpcValue::Str(db.clone()),
        RpcValue::Int(uid),
        RpcValue::Str(password.clone()),
        text_value(model),
        text_value("search_read"),
        filter,
        options,
    ];
    let mut address = url.clone();
    address.append("/xmlrpc/2/object");
    proof {
        reveal_strlit("/xmlrpc/2/object");
        reveal_strlit("/xmlrpc/2/");
        reveal_strlit("object");
    }
    assert(address@ =~= endpoint(url@, "object"@));
    let r = RpcRequest { url: address, method: String::from_str("execute_kw"), args };
    assert(r.args_model() =~= search_read_args(db@, uid, password@, model@, domain_model, fields_model));
    r
}

} // verus!
