//! The invoices (`account.move`) that have, or have not, been sent.
use vstd::prelude::*;
use crate::error::OdooError;
use crate::master::OdooConnection;
use crate::rpc::{condition, condition_model, endpoint, models, search_read_args, text_value, RpcModel, RpcRequest, RpcValue};

verus! {

/// A query of the invoices in the state `state`: `"sent"` selects the sent
/// invoices, any other state those not sent.
#[derive(Debug, Clone, PartialEq)]
pub struct InvoiceData {
    odoo_connection: OdooConnection,
    pub state: String,
}

/// The search domain of the invoices in `state`.
pub open spec fn invoice_domain(state: Seq<char>) -> Seq<RpcModel> {
    seq![
        condition_model(
            "state"@,
            if state == "sent"@ {
                "="@
            } else {
                "!="@
            },
            RpcModel::Str("sent"@),
        ),
    ]
}

/// The fields read of each invoice.
pub open spec fn invoice_fields() -> Seq<RpcModel> {
    seq![
        RpcModel::Str("name"@),
        RpcModel::Str("date"@),
        RpcModel::Str("invoice_partner_display_name"@),
        RpcModel::Str("state"@),
    ]
}

/// Law: the invoices asked for are the sent ones exactly for the state
/// `"sent"`; for every other state the query is for the invoices whose state
/// is not `sent`.
pub proof fn law_invoice_domain_by_state(state: Seq<char>)
    ensures
        state == "sent"@ ==> invoice_domain(state) == seq![
            RpcModel::Array(seq![RpcModel::Str("state"@), RpcModel::Str("="@), RpcModel::Str("sent"@)]),
        ],
        state != "sent"@ ==> invoice_domain(state) == seq![
            RpcModel::Array(seq![RpcModel::Str("state"@), RpcModel::Str("!="@), RpcModel::Str("sent"@)]),
        ],
{
}

impl InvoiceData {
    pub fn new(odoo_connection: OdooConnection, state: String) -> (r: Self)
        ensures
            r.spec_connection() == odoo_connection,
            r.spec_state() == state,
    {
        Self { odoo_connection, state }
    }

    /// The state whose invoices are read.
    pub closed spec fn spec_state(&self) -> String {
        self.state
    }

    /// The connection the invoices are read through.
    pub closed spec fn spec_connection(&self) -> OdooConnection {
        self.odoo_connection
    }

    /// The `search_read` of `account.move` for the state of `self`; refused
    /// with `InvalidCredential` where the connection has no user id.
    pub fn selection_request(&self) -> (r: Result<RpcRequest, OdooError>)
        ensures
            match self.spec_connection().uid {
                None => r == Err::<RpcRequest, OdooError>(OdooError::InvalidCredential),
                Some(uid) => r matches Ok(req) && req.url@ == endpoint(self.spec_connection().connection.url@, "object"@)
                    && req.method@ == "execute_kw"@ && req.args_model() == search_read_args(
                    self.spec_connection().connection.db@,
                    uid,
                    self.spec_connection().connection.password@,
                    "account.move"@,
                    invoice_domain(self.spec_state()@),
                    invoice_fields(),
                ),
            },
    {
        let sent = String::from_str("sent");
        let operator = if self.state == sent {
            "="
        } else {
            "!="
        };
        let domain = vec![condition("state", operator, text_value("sent"))];
        assert(models(domain@) =~= invoice_domain(self.state@));
        let fields = vec![
            text_value("name"),
            text_value("date"),
            text_value("invoice_partner_display_name"),
            text_value("state"),
        ];
        assert(models(fields@) =~= invoice_fields());
        self.odoo_connection.search_read_request("account.move", domain, fields)
    }

    /// The invoices of the reply to `selection_request`; refused with
    /// `InvalidResponse` where the reply is no array.
    pub fn selection_reply<'a>(&self, reply: &'a RpcValue) -> (r: Result<&'a Vec<RpcValue>, OdooError>)
        ensures
            match r {
                Ok(items) => reply@.as_array() == Some(models(items@)),
                Err(e) => reply@.as_array() is None && e == OdooError::InvalidResponse,
            },
    {
        match reply.as_array() {
            Some(items) => Ok(items),
            None => Err(OdooError::InvalidResponse),
        }
    }
}

} // verus!
