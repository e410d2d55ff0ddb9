//! Text exchanged with a native front end.
use vstd::prelude::*;

verus! {

/// The answer to a greeting: the greeting followed by ` -> Odoo`.
pub fn swift_reply(hello: &str) -> (r: String)
    ensures
        r@ == hello@ + " -> Odoo"@,
{
    let mut r = String::from_str(hello);
    r.append(" -> Odoo");
    r
}

} // verus!
