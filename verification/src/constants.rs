//! Fixed values of the remote service.

use vstd::prelude::*;

pub mod base_url;

verus! {

/// The largest page the service returns for one query.
pub const MAX_QUERY_LENGTH: usize = 1000;

/// Where new credentials are asked for.
pub const TOKEN_ENDPOINT: &'static str = "https://oauth.platform.intuit.com/oauth2/v1/tokens/bearer";

/// The revision of the API that is asked for when a configuration names
/// none.
pub const DEFAULT_MINOR_VERSION: &'static str = "65";

/// How many seconds a transport may spend on one call.
pub const TIMEOUT_SECS: u64 = 5;

/// Whether a transport must refuse to send in the clear.
pub const HTTPS_ONLY: bool = true;

} // verus!
