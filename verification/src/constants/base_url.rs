//! Base URLs of the accounting API.

use vstd::prelude::*;

pub mod payments_api;

verus! {

pub const PRODUCTION: &'static str = "https://quickbooks.api.intuit.com";

pub const SANDBOX: &'static str = "https://sandbox-quickbooks.api.intuit.com";

} // verus!
