//! HTTP Basic credentials for the token endpoint.

use vstd::prelude::*;

verus! {

/// What the Basic scheme sends in place of a user id and a password: the
/// text that `http_auth_basic::Credentials::encode` returns for the pair.
pub uninterp spec fn basic_credentials(user_id: Seq<char>, password: Seq<char>) -> Seq<char>;

/// The value of an `Authorization` header that presents `user_id` and
/// `password` under the Basic scheme.
pub open spec fn basic_authorization(user_id: Seq<char>, password: Seq<char>) -> Seq<char> {
    "Basic "@ + basic_credentials(user_id, password)
}

/// Calls `http_auth_basic::Credentials::new` with the two arguments and
/// `as_http_header` on what it returns.
///
/// Trusted, not proved: the header is `Basic ` followed by a text that
/// depends on the two arguments alone. The crate takes that text from
/// `Credentials::encode`, the Base64 encoding of the user id, a colon and
/// the password; the encoding is not spelled out here.
#[verifier::external_body]
pub(crate) fn basic_authorization_header(user_id: &str, password: &str) -> (header: String)
    ensures
        header@ == "Basic "@ + basic_credentials(user_id@, password@),
{
    http_auth_basic::Credentials::new(user_id, password).as_http_header()
}

} // verus!
