//! A connection to an Odoo server and the user id that its login gives.
use vstd::prelude::*;
use crate::config::Connection;
use crate::error::OdooError;
use crate::rpc::{endpoint, models, search_read, search_read_args, RpcModel, RpcRequest, RpcValue};

verus! {

/// The settings of a connection and, once logged in, the user id.
#[derive(Debug, Clone, PartialEq)]
pub struct OdooConnection {
    pub connection: Connection,
    pub uid: Option<i32>,
}

impl OdooConnection {
    /// A connection that has not logged in yet.
    pub fn new(connection: Connection) -> (r: Self)
        ensures
            r.connection == connection,
            r.uid is None,
    {
        Self { connection, uid: None }
    }

    /// The arguments of `authenticate`: database, user name, password and nil.
    pub open spec fn login_args(&self) -> Seq<RpcModel> {
        seq![
            RpcModel::Str(self.connection.db@),
            RpcModel::Str(self.connection.username@),
            RpcModel::Str(self.connection.password@),
            RpcModel::Nil,
        ]
    }

    /// The login call: `authenticate` on the `common` service.
    pub fn login_request(&self) -> (r: RpcRequest)
        ensures
            r.url@ == endpoint(self.connection.url@, "common"@),
            r.method@ == "authenticate"@,
            r.args_model() == self.login_args(),
    {
        let args = vec![
            RpcValue::Str(self.connection.db.clone()),
            RpcValue::Str(self.connection.username.clone()),
            RpcValue::Str(self.connection.password.clone()),
            RpcValue::Nil,
        ];
        let mut address = self.connection.url.clone();
        address.append("/xmlrpc/2/common");
        proof {
            reveal_strlit("/xmlrpc/2/common");
            reveal_strlit("/xmlrpc/2/");
            reveal_strlit("common");
        }
        assert(address@ =~= endpoint(self.connection.url@, "common"@));
        let r = RpcRequest { url: address, method: String::from_str("authenticate"), args };
        assert(r.args_model() =~= self.login_args());
        r
    }

    /// Takes in the reply to the login: the user id is the reply where it
    /// is an `<int>`, and none otherwise.
    pub fn apply_login_reply(&mut self, reply: &RpcValue)
        ensures
            final(self).connection == old(self).connection,
            final(self).uid == reply@.as_i32(),
    {
        self.uid = reply.as_i32();
    }

    /// A `search_read` of `model` as the logged-in user; refused with
    /// `InvalidCredential` where there is no user id.
    pub fn search_read_request(&self, model: &str, domain: Vec<RpcValue>, fields: Vec<RpcValue>) -> (r: Result<
        RpcRequest,
        OdooError,
    >)
        ensures
            match self.uid {
                None => r == Err::<RpcRequest, OdooError>(OdooError::InvalidCredential),
                Some(uid) => r matches Ok(req) && req.url@ == endpoint(self.connection.url@, "object"@)
                    && req.method@ == "execute_kw"@ && req.args_model() == search_read_args(
                    self.connection.db@,
                    uid,
                    self.connection.password@,
                    model@,
                    models(domain@),
                    models(fields@),
                ),
            },
    {
        match self.uid {
            None => Err(OdooError::InvalidCredential),
            Some(uid) => Ok(
                search_read(
                    &self.connection.url,
                    &self.connection.db,
                    uid,
                    &self.connection.password,
                    model,
                    domain,
                    fields,
                ),
            ),
        }
    }
}

} // verus!
