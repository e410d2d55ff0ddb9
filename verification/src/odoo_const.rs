//! Constants of the Odoo data model that the library relies on.
use vstd::prelude::*;

verus! {

/// How amounts are rounded.
#[derive(Debug)]
pub enum Arrondi {
    /// Rounding to 5 centimes.
    _Arrondi5Centime,
}

impl Arrondi {
    /// The table that holds the rounding rules.
    pub fn _table(self) -> (r: &'static str)
        ensures
            r@ == "account_cach_rounding"@,
    {
        "account_cach_rounding"
    }
}

/// The product id used when no product matches an activity.
pub const PRODUCT_PRODUCT_ID_UNKNOWN: i32 = 18;

/// How Odoo writes a datetime.
pub const FMT_DATE_ODOO: &'static str = "%Y-%m-%d %H:%M:%S";

/// How the notes write a time of day.
pub const FMT_DATE_INVOICE: &'static str = "%H:%M";

} // verus!
