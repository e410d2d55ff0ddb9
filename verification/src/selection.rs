//! Reading the attendance of a day from the server, one call at a time.
//!
//! The flow asks for the attendance records of the day; for each record it
//! has the worked hours rounded, asks for the product sold for the activity
//! and for that product's template, and builds a line and its note. The
//! caller makes the calls and the rounding and hands back what came of them.
use vstd::prelude::*;
use crate::error::OdooError;
use crate::hr::{
    after_finish, attendance_head, note_of, product_of, read_attendance_head, read_note, read_product,
    read_template, reversed_lines, template_of, HrData, HrLigne, HrParse, Outcome,
};
use crate::odoo_const::PRODUCT_PRODUCT_ID_UNKNOWN;
use crate::rpc::{
    condition, condition_model, endpoint, models, search_read, search_read_args, text_value, IsoDateTime,
    RpcModel, RpcRequest, RpcValue,
};

verus! {

/// Where the reading of a day stands.
#[derive(Debug, Clone, PartialEq)]
pub enum FlowPhase {
    /// The attendance records were asked for.
    AwaitAttendances,
    /// The worked hours of the current record are being rounded.
    AwaitRounding { id: i32, activity: String },
    /// The product of the current record's activity was asked for.
    AwaitProduct { id: i32, activity: String, worked_hours: u64 },
    /// The template of that product was asked for.
    AwaitTemplate { id: i32, activity: String, worked_hours: u64, product_id: Option<i32> },
    /// Nothing more is to be done.
    Finished,
}

/// What the caller hands back: the reply to a call, or the rounded hours.
#[derive(Debug, PartialEq)]
pub enum FlowEvent {
    Reply(RpcValue),
    Rounded(u64),
}

/// What the caller is to do next.
#[derive(Debug, PartialEq)]
pub enum FlowAction {
    /// Make this call and hand back its reply.
    Call(RpcRequest),
    /// Round these worked hours (an IEEE-754 bit pattern) to two decimals and
    /// hand them back.
    Round(u64),
    /// The reading is over: the day read (none where it had no attendance),
    /// or the error that ended it.
    Finish(Result<Option<HrParse>, OdooError>),
}

/// The reading of a day in progress.
#[derive(Debug, PartialEq)]
pub struct HrFlow {
    pub url: String,
    pub db: String,
    pub uid: i32,
    pub password: String,
    pub section: String,
    pub records: Vec<RpcValue>,
    pub lines: Vec<(HrLigne, String)>,
    pub phase: FlowPhase,
}

/// The conditions on the attendance records of a day.
pub open spec fn attendance_domain(date_in: IsoDateTime, date_out: IsoDateTime) -> Seq<RpcModel> {
    seq![
        condition_model("check_in"@, ">="@, RpcModel::DateTime(date_in)),
        condition_model("check_out"@, "<="@, RpcModel::DateTime(date_out)),
    ]
}

/// The fields read of each attendance record.
pub open spec fn attendance_fields() -> Seq<RpcModel> {
    seq![
        RpcModel::Str("employee_id"@),
        RpcModel::Str("check_in"@),
        RpcModel::Str("check_out"@),
        RpcModel::Str("worked_hours"@),
    ]
}

/// The condition on the product of an activity.
pub open spec fn product_domain(activity: Seq<char>) -> Seq<RpcModel> {
    seq![condition_model("default_code"@, "="@, RpcModel::Str(activity))]
}

/// The fields read of the product.
pub open spec fn product_fields() -> Seq<RpcModel> {
    seq![RpcModel::Str("id"@)]
}

/// The condition on the template of a product.
pub open spec fn template_domain(product_id: i32) -> Seq<RpcModel> {
    seq![condition_model("id"@, "="@, RpcModel::Int(product_id))]
}

/// The fields read of the template.
pub open spec fn template_fields() -> Seq<RpcModel> {
    seq![RpcModel::Str("name"@), RpcModel::Str("description_sale"@), RpcModel::Str("list_price"@)]
}

/// Whether `line` is made of the attendance record `rec`: its employee, its
/// activity and its note.
pub open spec fn line_from(line: (HrLigne, String), rec: RpcModel) -> bool {
    &&& attendance_head(rec) matches Outcome::Value((id, activity, _))
    &&& line.0.id == id
    &&& line.0.activity@ == activity
    &&& note_of(rec) == Outcome::Value(line.1@)
}

/// Whether the employee `id` and the activity are those of `rec`.
pub open spec fn pending_from(id: i32, activity: Seq<char>, rec: RpcModel) -> bool {
    attendance_head(rec) matches Outcome::Value((i, a, _)) && i == id && a == activity
}

/// Whether the reading of the day ends with `action` once `lines` are read:
/// with nothing where there was no record, else with the day whose lines
/// are those read in reverse order.
pub open spec fn finished_with(lines: Seq<(HrLigne, String)>, section: String, action: FlowAction) -> bool {
    if lines.len() == 0 {
        action matches FlowAction::Finish(Ok(None))
    } else {
        action matches FlowAction::Finish(Ok(Some(p))) && p.section == section && p.ligne_note@
            == lines.reverse()
    }
}

/// Whether `action` is the call of `model` with `domain` and `fields` as the
/// user of `flow`.
pub open spec fn calls(flow: HrFlow, action: FlowAction, model: Seq<char>, domain: Seq<RpcModel>, fields: Seq<RpcModel>) -> bool {
    action matches FlowAction::Call(req) && req.url@ == endpoint(flow.url@, "object"@) && req.method@
        == "execute_kw"@ && req.args_model() == search_read_args(
        flow.db@,
        flow.uid,
        flow.password@,
        model,
        domain,
        fields,
    )
}

/// Whether `line` holds the employee, the activity and the hours read, the
/// product's name and sale description (`?` where none was read), its list
/// price (zero where none was read), and the note.
pub open spec fn line_is(
    line: (HrLigne, String),
    id: i32,
    activity: Seq<char>,
    worked_hours: u64,
    name: Option<Seq<char>>,
    description: Option<Seq<char>>,
    price: Option<u64>,
    note: Seq<char>,
) -> bool {
    &&& line.0.id == id
    &&& line.0.activity@ == activity
    &&& line.0.worked_hours == worked_hours
    &&& line.0.product_name@ == match name {
        Some(n) => n,
        None => "?"@,
    }
    &&& line.0.product_description_sale@ == match description {
        Some(d) => d,
        None => "?"@,
    }
    &&& line.0.product_list_price == match price {
        Some(p) => p,
        None => 0u64,
    }
    &&& line.1@ == note
}

impl HrFlow {
    /// The connection and the day of `new` are those of `self`.
    pub open spec fn same_session(self, new: HrFlow) -> bool {
        &&& new.url == self.url
        &&& new.db == self.db
        &&& new.uid == self.uid
        &&& new.password == self.password
        &&& new.section == self.section
    }

    /// Whether every line read so far is made of the record at its
    /// position, and the record being read is the one after them.
    pub open spec fn wf(self) -> bool {
        &&& self.lines.len() <= self.records.len()
        &&& forall|k: int|
            0 <= k < self.lines.len() ==> #[trigger] line_from(self.lines@[k], self.records@[k]@)
        &&& match self.phase {
            FlowPhase::AwaitAttendances => self.lines.len() == 0,
            FlowPhase::AwaitRounding { id, activity } => self.lines.len() < self.records.len()
                && pending_from(id, activity@, self.records@[self.lines.len() as int]@),
            FlowPhase::AwaitProduct { id, activity, .. } => self.lines.len() < self.records.len()
                && pending_from(id, activity@, self.records@[self.lines.len() as int]@),
            FlowPhase::AwaitTemplate { id, activity, .. } => self.lines.len() < self.records.len()
                && pending_from(id, activity@, self.records@[self.lines.len() as int]@),
            FlowPhase::Finished => true,
        }
    }

    /// How far the reading has come: four steps per record read, and one
    /// for each of rounding, asking for the product and asking for its
    /// template within the current record.
    pub open spec fn progress(self) -> int {
        4 * self.lines.len() + match self.phase {
            FlowPhase::AwaitAttendances => 0int,
            FlowPhase::AwaitRounding { .. } => 1,
            FlowPhase::AwaitProduct { .. } => 2,
            FlowPhase::AwaitTemplate { .. } => 3,
            FlowPhase::Finished => 0,
        }
    }

    /// Whether `event` is what the flow waits for.
    pub open spec fn accepts(self, event: FlowEvent) -> bool {
        match self.phase {
            FlowPhase::AwaitRounding { .. } => event is Rounded,
            FlowPhase::Finished => false,
            _ => event is Reply,
        }
    }

    /// Whether the record at `i`, where there is one, can be read without
    /// being refused outright.
    pub open spec fn head_defined(self, i: int) -> bool {
        i < self.records.len() ==> !(attendance_head(self.records@[i]@) is Aborts)
    }

    /// Whether taking in `event` is not refused outright: no member that the
    /// reading needs is missing, and every time can be read and shifted.
    pub open spec fn step_defined(self, event: FlowEvent) -> bool {
        match (self.phase, event) {
            (FlowPhase::AwaitAttendances, FlowEvent::Reply(v)) => match v@.as_array() {
                Some(items) => items.len() > 0 ==> !(attendance_head(items[0]) is Aborts),
                None => true,
            },
            (FlowPhase::AwaitProduct { .. }, FlowEvent::Reply(v)) => !(product_of(v@) is Aborts),
            (FlowPhase::AwaitTemplate { product_id, .. }, FlowEvent::Reply(v)) => match template_of(
                v@,
                product_id,
            ) {
                Outcome::Aborts => false,
                Outcome::Failed(_) => true,
                Outcome::Value(_) => match note_of(self.records@[self.lines.len() as int]@) {
                    Outcome::Aborts => false,
                    Outcome::Failed(_) => true,
                    Outcome::Value(_) => self.head_defined(self.lines.len() + 1),
                },
            },
            _ => true,
        }
    }

    /// Whether `new` and `action` begin reading the record after the lines
    /// of `new`: rounding its hours, or ending with the error it holds; after
    /// the last record, ending with the day.
    pub open spec fn begun(new: HrFlow, action: FlowAction) -> bool {
        let i = new.lines.len() as int;
        if i >= new.records.len() {
            new.phase is Finished && finished_with(new.lines@, new.section, action)
        } else {
            match attendance_head(new.records@[i]@) {
                Outcome::Value((id, activity, hours)) => new.phase matches FlowPhase::AwaitRounding {
                    id: j,
                    activity: a,
                } && j == id && a@ == activity && action == FlowAction::Round(hours),
                Outcome::Failed(e) => new.phase is Finished && action == FlowAction::Finish(
                    Err(e),
                ),
                Outcome::Aborts => false,
            }
        }
    }

    /// What taking in `event` makes of the flow `self`: the flow `new` and
    /// the `action` to do.
    pub open spec fn step_post(self, event: FlowEvent, new: HrFlow, action: FlowAction) -> bool {
        &&& self.same_session(new)
        &&& match (self.phase, event) {
            (FlowPhase::AwaitAttendances, FlowEvent::Reply(v)) => match v@.as_array() {
                None => new.phase is Finished && action == FlowAction::Finish(
                    Err(OdooError::InvalidResponse),
                ),
                Some(items) => models(new.records@) == items && new.lines.len() == 0 && HrFlow::begun(
                    new,
                    action,
                ),
            },
            (FlowPhase::AwaitRounding { id, activity }, FlowEvent::Rounded(hours)) => {
                &&& new.records == self.records
                &&& new.lines == self.lines
                &&& new.phase matches FlowPhase::AwaitProduct { id: i, activity: a, worked_hours: h } && i
                    == id && a@ == activity@ && h == hours
                &&& calls(new, action, "product.product"@, product_domain(activity@), product_fields())
            },
            (FlowPhase::AwaitProduct { id, activity, worked_hours }, FlowEvent::Reply(v)) => match product_of(
                v@,
            ) {
                Outcome::Value(product_id) => {
                    &&& new.records == self.records
                    &&& new.lines == self.lines
                    &&& new.phase matches FlowPhase::AwaitTemplate {
                        id: i,
                        activity: a,
                        worked_hours: h,
                        product_id: p,
                    } && i == id && a@ == activity@ && h == worked_hours && p == product_id
                    &&& calls(
                        new,
                        action,
                        "product.template"@,
                        template_domain(
                            match product_id {
                                Some(p) => p,
                                None => PRODUCT_PRODUCT_ID_UNKNOWN,
                            },
                        ),
                        template_fields(),
                    )
                },
                Outcome::Failed(e) => new.phase is Finished && action == FlowAction::Finish(Err(e)),
                Outcome::Aborts => false,
            },
            (
                FlowPhase::AwaitTemplate { id, activity, worked_hours, product_id },
                FlowEvent::Reply(v),
            ) => match template_of(v@, product_id) {
                Outcome::Value((name, description, price)) => match note_of(
                    self.records@[self.lines.len() as int]@,
                ) {
                    Outcome::Value(note) => {
                        &&& new.records == self.records
                        &&& new.lines.len() == self.lines.len() + 1
                        &&& new.lines@.drop_last() == self.lines@
                        &&& HrFlow::begun(new, action)
                        &&& line_is(
                            new.lines@.last(),
                            id,
                            activity@,
                            worked_hours,
                            name,
                            description,
                            price,
                            note,
                        )
                    },
                    Outcome::Failed(e) => new.phase is Finished && action == FlowAction::Finish(
                        Err(e),
                    ),
                    Outcome::Aborts => false,
                },
                Outcome::Failed(e) => new.phase is Finished && action == FlowAction::Finish(Err(e)),
                Outcome::Aborts => false,
            },
            _ => false,
        }
    }
}

/// Whether the day `p` has one line per record of `records`, its k-th line
/// made of the record at the mirrored position.
pub open spec fn mirrors(p: HrParse, records: Seq<RpcValue>) -> bool {
    &&& p.ligne_note.len() == records.len()
    &&& forall|k: int|
        0 <= k < records.len() ==> #[trigger] line_from(p.ligne_note@[k], records[records.len() - 1 - k]@)
}

impl HrFlow {
    /// Whether `event` holds a malformed reply: one of the wrong kind, or
    /// that lacks a value of the kind called for (the attendance records,
    /// an employee, worked hours, a product id, a template's name,
    /// description or price, or a check-in or check-out text), where the
    /// reading of it, or of the next attendance record that it leads to,
    /// ends with an error.
    pub open spec fn step_fails(self, event: FlowEvent) -> bool {
        match (self.phase, event) {
            (FlowPhase::AwaitAttendances, FlowEvent::Reply(v)) => match v@.as_array() {
                None => true,
                Some(items) => items.len() > 0 && attendance_head(items[0]) is Failed,
            },
            (FlowPhase::AwaitProduct { .. }, FlowEvent::Reply(v)) => product_of(v@) is Failed,
            (FlowPhase::AwaitTemplate { product_id, .. }, FlowEvent::Reply(v)) => match template_of(
                v@,
                product_id,
            ) {
                Outcome::Failed(_) => true,
                Outcome::Aborts => false,
                Outcome::Value(_) => match note_of(self.records@[self.lines.len() as int]@) {
                    Outcome::Failed(_) => true,
                    Outcome::Aborts => false,
                    Outcome::Value(_) => self.lines.len() + 1 < self.records.len() && attendance_head(
                        self.records@[self.lines.len() + 1]@,
                    ) is Failed,
                },
            },
            _ => false,
        }
    }
}

/// Law: a template reply is refused outright only where a member that the
/// reading needs is missing or a time cannot be read, whatever product was
/// found: where the template, the record's note and the next record's head
/// can all be read, the step is defined, also where no product was found.
pub proof fn law_template_step_defined(flow: HrFlow, v: RpcValue)
    requires
        flow.wf(),
        flow.phase is AwaitTemplate,
    ensures
        flow.step_defined(FlowEvent::Reply(v)) <==> {
            let i = flow.lines.len() as int;
            match template_of(v@, flow.phase->AwaitTemplate_product_id) {
                Outcome::Aborts => false,
                Outcome::Failed(_) => true,
                Outcome::Value(_) => match note_of(flow.records@[i]@) {
                    Outcome::Aborts => false,
                    Outcome::Failed(_) => true,
                    Outcome::Value(_) => i + 1 < flow.records.len() ==> !(attendance_head(
                        flow.records@[i + 1]@,
                    ) is Aborts),
                },
            }
        },
        flow.phase->AwaitTemplate_product_id is None && template_of(v@, None) is Value && note_of(
            flow.records@[flow.lines.len() as int]@,
        ) is Value && flow.head_defined(flow.lines.len() + 1) ==> flow.step_defined(FlowEvent::Reply(v)),
{
}

/// Law: the attendance records are asked for with every member that reading
/// a record looks up, so that two records that agree on the requested
/// members are read alike: the same employee, activity and hours, and the
/// same note.
pub proof fn law_attendance_fields_cover_reading(rec: RpcModel, other: RpcModel)
    requires
        rec is Struct,
        other is Struct,
        forall|k: Seq<char>| attendance_fields().contains(RpcModel::Str(k)) ==> rec.member(k) == other.member(k),
    ensures
        attendance_head(rec) == attendance_head(other),
        note_of(rec) == note_of(other),
        attendance_fields().contains(RpcModel::Str("employee_id"@)),
        attendance_fields().contains(RpcModel::Str("worked_hours"@)),
        attendance_fields().contains(RpcModel::Str("check_in"@)),
        attendance_fields().contains(RpcModel::Str("check_out"@)),
{
    assert(attendance_fields()[0] == RpcModel::Str("employee_id"@));
    assert(attendance_fields()[1] == RpcModel::Str("check_in"@));
    assert(attendance_fields()[2] == RpcModel::Str("check_out"@));
    assert(attendance_fields()[3] == RpcModel::Str("worked_hours"@));
    assert(rec.member("employee_id"@) == other.member("employee_id"@));
    assert(rec.member("worked_hours"@) == other.member("worked_hours"@));
    assert(rec.member("check_in"@) == other.member("check_in"@));
    assert(rec.member("check_out"@) == other.member("check_out"@));
}

/// The outcome that `action` ends a reading with; none where it does not
/// end it.
pub open spec fn outcome_of(action: FlowAction) -> Option<Result<Option<HrParse>, OdooError>> {
    match action {
        FlowAction::Finish(outcome) => Some(outcome),
        _ => None,
    }
}

/// Whether `flows`, `events` and `actions` are a run of the reading: each
/// flow takes in its event, as `step` allows, and becomes the next flow with
/// the action.
pub open spec fn is_run(flows: Seq<HrFlow>, events: Seq<FlowEvent>, actions: Seq<FlowAction>) -> bool {
    &&& flows.len() == events.len() + 1
    &&& actions.len() == events.len()
    &&& forall|i: int|
        0 <= i < events.len() ==> {
            &&& #[trigger] flows[i].wf()
            &&& flows[i].accepts(events[i])
            &&& flows[i].step_defined(events[i])
            &&& flows[i].step_post(events[i], flows[i + 1], actions[i])
        }
}

/// A step that takes in a malformed reply ends the reading with the
/// response error.
pub proof fn lemma_failing_step(flow: HrFlow, event: FlowEvent, new: HrFlow, action: FlowAction)
    requires
        flow.wf(),
        flow.step_post(event, new, action),
        flow.step_fails(event),
    ensures
        action == FlowAction::Finish(Err(OdooError::InvalidResponse)),
        new.phase is Finished,
{
    match (flow.phase, event) {
        (FlowPhase::AwaitAttendances, FlowEvent::Reply(v)) => {
            match v@.as_array() {
                None => {},
                Some(items) => {
                    assert(models(new.records@)[0] == new.records@[0]@);
                },
            }
        },
        _ => {},
    }
}

/// A step ends the reading exactly when it leaves the flow finished.
pub proof fn lemma_finish_finishes(flow: HrFlow, event: FlowEvent, new: HrFlow, action: FlowAction)
    requires
        flow.step_post(event, new, action),
    ensures
        action is Finish <==> new.phase is Finished,
{
}

/// Law: a malformed reply ends the whole reading of a day. In any run, the
/// step that takes one in is the last; it ends the reading with the response
/// error, no step before it ends the reading, and ending a selection with
/// it keeps what was kept before, whatever that was.
pub proof fn law_malformed_reply_ends_run(
    flows: Seq<HrFlow>,
    events: Seq<FlowEvent>,
    actions: Seq<FlowAction>,
    k: int,
    kept: Option<HrParse>,
)
    requires
        is_run(flows, events, actions),
        0 <= k < events.len(),
        flows[k].step_fails(events[k]),
    ensures
        actions[k] == FlowAction::Finish(Err(OdooError::InvalidResponse)),
        k == events.len() - 1,
        forall|j: int| 0 <= j < k ==> !(#[trigger] actions[j] is Finish),
        outcome_of(actions[k]) == Some(Err::<Option<HrParse>, OdooError>(OdooError::InvalidResponse)),
        after_finish(kept, Err(OdooError::InvalidResponse)) == kept,
{
    assert(flows[k].wf());
    lemma_failing_step(flows[k], events[k], flows[k + 1], actions[k]);
    if k + 1 < events.len() {
        assert(flows[k + 1].wf());
        assert(!flows[k + 1].accepts(events[k + 1]));
    }
    assert forall|j: int| 0 <= j < k implies !(#[trigger] actions[j] is Finish) by {
        assert(flows[j].wf());
        lemma_finish_finishes(flows[j], events[j], flows[j + 1], actions[j]);
        assert(flows[j + 1].wf());
        assert(flows[j + 1].accepts(events[j + 1]));
    }
}

impl HrFlow {
    /// Starts reading the day of `data` between `date_in` and `date_out`
    /// (the day's first and last second): asks for its attendance records,
    /// or ends with `InvalidCredential` where the connection has no user id.
    pub fn start(data: &HrData, date_in: IsoDateTime, date_out: IsoDateTime) -> (r: (HrFlow, FlowAction))
        ensures
            r.0.wf(),
            r.0.url == data.spec_connection().connection.url,
            r.0.db == data.spec_connection().connection.db,
            r.0.password == data.spec_connection().connection.password,
            r.0.section == data.spec_selection().invoice_date,
            match data.spec_connection().uid {
                None => r.0.phase is Finished && r.1 == FlowAction::Finish(Err(OdooError::InvalidCredential)),
                Some(uid) => {
                    &&& r.0.uid == uid
                    &&& r.0.phase is AwaitAttendances
                    &&& r.0.records.len() == 0
                    &&& calls(r.0, r.1, "hr.attendance"@, attendance_domain(date_in, date_out), attendance_fields())
                },
            },
    {
        let conn = data.connection_ref();
        let selection = data.selection_ref();
        let mut flow = HrFlow {
            url: conn.connection.url.clone(),
            db: conn.connection.db.clone(),
            uid: 0,
            password: conn.connection.password.clone(),
            section: selection.invoice_date.clone(),
            records: Vec::new(),
            lines: Vec::new(),
            phase: FlowPhase::Finished,
        };
        match conn.uid {
            None => (flow, FlowAction::Finish(Err(OdooError::InvalidCredential))),
            Some(uid) => {
                flow.uid = uid;
                flow.phase = FlowPhase::AwaitAttendances;
                let domain = vec![
                    condition("check_in", ">=", RpcValue::DateTime(date_in)),
                    condition("check_out", "<=", RpcValue::DateTime(date_out)),
                ];
                assert(models(domain@) =~= attendance_domain(date_in, date_out));
                let fields = vec![
                    text_value("employee_id"),
                    text_value("check_in"),
                    text_value("check_out"),
                    text_value("worked_hours"),
                ];
                assert(models(fields@) =~= attendance_fields());
                let req = search_read(&flow.url, &flow.db, uid, &flow.password, "hr.attendance", domain, fields);
                (flow, FlowAction::Call(req))
            },
        }
    }

    /// Begins reading the record after the lines read so far.
    fn begin_next(&mut self) -> (r: FlowAction)
        requires
            old(self).lines.len() <= old(self).records.len(),
            forall|k: int|
                0 <= k < old(self).lines.len() ==> #[trigger] line_from(old(self).lines@[k], old(self).records@[k]@),
            old(self).head_defined(old(self).lines.len() as int),
        ensures
            old(self).same_session(*final(self)),
            final(self).records == old(self).records,
            final(self).lines == old(self).lines,
            HrFlow::begun(*final(self), r),
            final(self).wf(),
            r matches FlowAction::Finish(Ok(Some(p))) ==> mirrors(p, final(self).records@),
    {
        let i = self.lines.len();
        if i >= self.records.len() {
            self.phase = FlowPhase::Finished;
            if i == 0 {
                FlowAction::Finish(Ok(None))
            } else {
                let lines = reversed_lines(&self.lines);
                let p = HrParse::new(self.section.clone(), lines);
                proof {
                    let n = self.records.len() as int;
                    assert forall|k: int| 0 <= k < n implies #[trigger] line_from(
                        p.ligne_note@[k],
                        self.records@[n - 1 - k]@,
                    ) by {
                        assert(p.ligne_note@[k] == self.lines@[n - 1 - k]);
                    }
                }
                FlowAction::Finish(Ok(Some(p)))
            }
        } else {
            let head = read_attendance_head(&self.records[i]);
            match head {
                Outcome::Value((id, activity, hours)) => {
                    self.phase = FlowPhase::AwaitRounding { id, activity };
                    FlowAction::Round(hours)
                },
                Outcome::Failed(e) => {
                    self.phase = FlowPhase::Finished;
                    FlowAction::Finish(Err(e))
                },
                Outcome::Aborts => {
                    assert(false);
                    FlowAction::Finish(Err(OdooError::InvalidResponse))
                },
            }
        }
    }

    /// Takes in `event`, where that is not refused outright.
    pub fn step(&mut self, event: FlowEvent) -> (r: FlowAction)
        requires
            old(self).wf(),
            old(self).accepts(event),
            old(self).step_defined(event),
        ensures
            final(self).wf(),
            old(self).step_post(event, *final(self), r),
            r matches FlowAction::Finish(Ok(Some(p))) ==> mirrors(p, final(self).records@),
            r is Finish <==> final(self).phase is Finished,
            !(r is Finish) ==> old(self).progress() < final(self).progress() < 4 * final(self).records.len(),
    {
        let ghost old_flow = *self;
        let phase = self.take_phase();
        match (phase, event) {
            (FlowPhase::AwaitAttendances, FlowEvent::Reply(v)) => {
                match v {
                    RpcValue::Array(items) => {
                        proof {
                            let m = v@->Array_0;
                            assert(m =~= models(items@));
                        }
                        self.records = items;
                        self.begin_next()
                    },
                    _ => FlowAction::Finish(Err(OdooError::InvalidResponse)),
                }
            },
            (FlowPhase::AwaitRounding { id, activity }, FlowEvent::Rounded(hours)) => {
                let domain = vec![condition("default_code", "=", RpcValue::Str(activity.clone()))];
                assert(models(domain@) =~= product_domain(activity@));
                let fields = vec![text_value("id")];
                assert(models(fields@) =~= product_fields());
                let req = search_read(&self.url, &self.db, self.uid, &self.password, "product.product", domain, fields);
                self.phase = FlowPhase::AwaitProduct { id, activity, worked_hours: hours };
                FlowAction::Call(req)
            },
            (FlowPhase::AwaitProduct { id, activity, worked_hours }, FlowEvent::Reply(v)) => {
                match read_product(&v) {
                    Outcome::Value(product_id) => {
                        let p = match product_id {
                            Some(p) => p,
                            None => PRODUCT_PRODUCT_ID_UNKNOWN,
                        };
                        let domain = vec![condition("id", "=", RpcValue::Int(p))];
                        assert(models(domain@) =~= template_domain(p));
                        let fields = vec![
                            text_value("name"),
                            text_value("description_sale"),
                            text_value("list_price"),
                        ];
                        assert(models(fields@) =~= template_fields());
                        let req = search_read(&self.url, &self.db, self.uid, &self.password, "product.template", domain, fields);
                        self.phase = FlowPhase::AwaitTemplate { id, activity, worked_hours, product_id };
                        FlowAction::Call(req)
                    },
                    Outcome::Failed(e) => FlowAction::Finish(Err(e)),
                    Outcome::Aborts => {
                        assert(false);
                        FlowAction::Finish(Err(OdooError::InvalidResponse))
                    },
                }
            },
            (FlowPhase::AwaitTemplate { id, activity, worked_hours, product_id }, FlowEvent::Reply(v)) => {
                match read_template(&v, product_id) {
                    Outcome::Value((name, description, price)) => {
                        let i = self.lines.len();
                        match read_note(&self.records[i]) {
                            Outcome::Value(note) => {
                                let line = HrLigne::new(
                                    id,
                                    activity,
                                    worked_hours,
                                    name.unwrap_or(String::from_str("?")),
                                    description.unwrap_or(String::from_str("?")),
                                    price.unwrap_or(0u64),
                                );
                                self.lines.push((line, note));
                                proof {
                                    assert(self.lines@.drop_last() =~= old_flow.lines@);
                                    assert forall|k: int| 0 <= k < self.lines.len() implies #[trigger] line_from(
                                        self.lines@[k],
                                        self.records@[k]@,
                                    ) by {
                                        if k < i {
                                            assert(self.lines@[k] == old_flow.lines@[k]);
                                        }
                                    }
                                }
                                self.begin_next()
                            },
                            Outcome::Failed(e) => FlowAction::Finish(Err(e)),
                            Outcome::Aborts => {
                                assert(false);
                                FlowAction::Finish(Err(OdooError::InvalidResponse))
                            },
                        }
                    },
                    Outcome::Failed(e) => FlowAction::Finish(Err(e)),
                    Outcome::Aborts => {
                        assert(false);
                        FlowAction::Finish(Err(OdooError::InvalidResponse))
                    },
                }
            },
            _ => {
                assert(false);
                FlowAction::Finish(Err(OdooError::InvalidResponse))
            },
        }
    }

    /// Whether taking in `event` is not refused outright.
    pub fn is_defined(&self, event: &FlowEvent) -> (r: bool)
        requires
            self.wf(),
            self.accepts(*event),
        ensures
            r == self.step_defined(*event),
    {
        match (&self.phase, event) {
            (FlowPhase::AwaitAttendances, FlowEvent::Reply(v)) => match v.as_array() {
                Some(items) => {
                    if items.len() > 0 {
                        assert(models(items@)[0] == items@[0]@);
                        !read_attendance_head(&items[0]).aborts()
                    } else {
                        true
                    }
                },
                None => true,
            },
            (FlowPhase::AwaitProduct { .. }, FlowEvent::Reply(v)) => !read_product(v).aborts(),
            (FlowPhase::AwaitTemplate { product_id, .. }, FlowEvent::Reply(v)) => {
                match read_template(v, *product_id) {
                    Outcome::Aborts => false,
                    Outcome::Failed(_) => true,
                    Outcome::Value(_) => {
                        let i = self.lines.len();
                        match read_note(&self.records[i]) {
                            Outcome::Aborts => false,
                            Outcome::Failed(_) => true,
                            Outcome::Value(_) => {
                                if i + 1 < self.records.len() {
                                    !read_attendance_head(&self.records[i + 1]).aborts()
                                } else {
                                    true
                                }
                            },
                        }
                    },
                }
            },
            _ => true,
        }
    }

    /// Takes in `event`; `None`, leaving the flow as it was, where that is
    /// refused outright.
    pub fn try_step(&mut self, event: FlowEvent) -> (r: Option<FlowAction>)
        requires
            old(self).wf(),
            old(self).accepts(event),
        ensures
            match r {
                None => !old(self).step_defined(event) && *final(self) == *old(self),
                Some(action) => old(self).step_defined(event) && final(self).wf() && old(self).step_post(
                    event,
                    *final(self),
                    action,
                ) && (action matches FlowAction::Finish(Ok(Some(p))) ==> mirrors(p, final(self).records@)) && (
                action is Finish <==> final(self).phase is Finished) && (!(action is Finish) ==> old(
                    self,
                ).progress() < final(self).progress() < 4 * final(self).records.len()),
            },
    {
        if self.is_defined(&event) {
            Some(self.step(event))
        } else {
            None
        }
    }

    /// Takes the phase out, leaving `Finished`.
    fn take_phase(&mut self) -> (r: FlowPhase)
        ensures
            r == old(self).phase,
            final(self).phase is Finished,
            final(self).url == old(self).url,
            final(self).db == old(self).db,
            final(self).uid == old(self).uid,
            final(self).password == old(self).password,
            final(self).section == old(self).section,
            final(self).records == old(self).records,
            final(self).lines == old(self).lines,
    {
        let mut phase = FlowPhase::Finished;
        std::mem::swap(&mut phase, &mut self.phase);
        phase
    }
}

} // verus!
