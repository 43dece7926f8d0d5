//! Base URLs of the payments API.

use vstd::prelude::*;

verus! {

pub const PRODUCTION: &'static str = "https://api.intuit.com";

pub const SANDBOX: &'static str = "https://sandbox.api.intuit.com/quickbooks/v4/payments";

} // verus!
