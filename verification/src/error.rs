//! The errors that the library itself finds in what the server says.
use vstd::prelude::*;

verus! {

/// An answer of the server that the library cannot use.
#[derive(Clone, Copy, PartialEq, Eq, Structural, Debug)]
pub enum OdooError {
    /// A request needs the user id, and the login gave none.
    InvalidCredential,
    /// A reply does not have the shape the request calls for.
    InvalidResponse,
}

impl OdooError {
    /// The message of the error.
    pub open spec fn spec_message(self) -> Seq<char> {
        match self {
            OdooError::InvalidCredential => "invalid credential"@,
            OdooError::InvalidResponse => "invalid xml-rpc response"@,
        }
    }

    pub fn message(&self) -> (r: &'static str)
        ensures
            r@ == self.spec_message(),
    {
        match self {
            OdooError::InvalidCredential => "invalid credential",
            OdooError::InvalidResponse => "invalid xml-rpc response",
        }
    }
}

} // verus!
