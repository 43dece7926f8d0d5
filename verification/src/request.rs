//! Descriptions of requests: where to send, how, and with what.

use crate::constants::TOKEN_ENDPOINT;
use crate::types::AccessToken;
use crate::types::TokenView;
use vstd::prelude::*;

verus! {

/// How a request is sent.
#[derive(Clone, Copy, Debug, PartialEq, Eq)]
pub enum Method {
    Get,
    Post,
}

/// A request that has not been sent. Headers, query parameters and form
/// fields are pairs of a name and a value, in the order they were added.
#[derive(Debug, PartialEq)]
pub struct Request {
    pub method: Method,
    pub url: String,
    pub headers: Vec<(String, String)>,
    pub query: Vec<(String, String)>,
    pub form: Vec<(String, String)>,
}

/// What a [`Request`] holds, as text.
pub struct RequestView {
    pub method: Method,
    pub url: Seq<char>,
    pub headers: Seq<(Seq<char>, Seq<char>)>,
    pub query: Seq<(Seq<char>, Seq<char>)>,
    pub form: Seq<(Seq<char>, Seq<char>)>,
}

impl View for Request {
    type V = RequestView;

    open spec fn view(&self) -> RequestView {
        RequestView {
            method: self.method,
            url: self.url@,
            headers: self.headers.deep_view(),
            query: self.query.deep_view(),
            form: self.form.deep_view(),
        }
    }
}

/// A request to `url` with nothing attached.
pub open spec fn bare(method: Method, url: Seq<char>) -> RequestView {
    RequestView {
        method,
        url,
        headers: Seq::empty(),
        query: Seq::empty(),
        form: Seq::empty(),
    }
}

/// The value of the `Authorization` header for a token: the scheme, one
/// space, the access token.
pub open spec fn authorization(token: TokenView) -> Seq<char> {
    token.token_type + seq![' '] + token.access_token
}

/// The headers that every call to the accounting API carries.
pub open spec fn auth_headers(token: TokenView) -> Seq<(Seq<char>, Seq<char>)> {
    seq![
        ("Accept"@, "application/json"@),
        ("Content-Type"@, "application/json"@),
        ("Authorization"@, authorization(token)),
    ]
}

/// `request` with the headers of `auth_headers` added after its own.
pub open spec fn with_auth_headers(request: RequestView, token: TokenView) -> RequestView {
    RequestView { headers: request.headers + auth_headers(token), ..request }
}

/// The request that asks the token endpoint for new credentials: the
/// caller's `authorization`, and the refresh grant as a form.
pub open spec fn refresh_grant(authorization: Seq<char>, refresh_token: Seq<char>) -> RequestView {
    RequestView {
        method: Method::Post,
        url: TOKEN_ENDPOINT@,
        headers: seq![
            ("Accept"@, "application/json"@),
            ("Authorization"@, authorization),
            ("Content-Type"@, "application/x-www-form-urlencoded"@),
        ],
        query: Seq::empty(),
        form: seq![("grant_type"@, "refresh_token"@), ("refresh_token"@, refresh_token)],
    }
}

/// Adds one pair at the end of a list.
fn push_pair(list: &mut Vec<(String, String)>, name: &str, value: &str)
    ensures
        final(list).deep_view() == old(list).deep_view().push((name@, value@)),
{
    list.push((String::from_str(name), String::from_str(value)));
}

impl Request {
    /// A request to `url` with nothing attached.
    pub fn new(method: Method, url: &str) -> (request: Self)
        ensures
            request@ == bare(method, url@),
    {
        let request = Request {
            method,
            url: String::from_str(url),
            headers: Vec::new(),
            query: Vec::new(),
            form: Vec::new(),
        };
        assert(request.headers.deep_view() =~= Seq::empty());
        assert(request.query.deep_view() =~= Seq::empty());
        assert(request.form.deep_view() =~= Seq::empty());
        request
    }

    /// Adds a header after those already there.
    pub fn set(self, header: &str, value: &str) -> (request: Self)
        ensures
            request@ == (RequestView { headers: self@.headers.push((header@, value@)), ..self@ }),
    {
        let mut request = self;
        push_pair(&mut request.headers, header, value);
        request
    }

    /// Adds a query parameter after those already there. The value is
    /// kept as given; encoding it is left to whoever sends the request.
    pub fn query(self, param: &str, value: &str) -> (request: Self)
        ensures
            request@ == (RequestView { query: self@.query.push((param@, value@)), ..self@ }),
    {
        let mut request = self;
        push_pair(&mut request.query, param, value);
        request
    }

    /// Adds a form field after those already there.
    pub fn field(self, name: &str, value: &str) -> (request: Self)
        ensures
            request@ == (RequestView { form: self@.form.push((name@, value@)), ..self@ }),
    {
        let mut request = self;
        push_pair(&mut request.form, name, value);
        request
    }

    /// The request for new credentials, given the value of its
    /// `Authorization` header and the refresh token to present.
    pub fn token_refresh(authorization: &str, refresh_token: &str) -> (request: Self)
        ensures
            request@ == refresh_grant(authorization@, refresh_token@),
    {
        let request = Request::new(Method::Post, TOKEN_ENDPOINT)
            .set("Accept", "application/json")
            .set("Authorization", authorization)
            .set("Content-Type", "application/x-www-form-urlencoded")
            .field("grant_type", "refresh_token")
            .field("refresh_token", refresh_token);
        assert(request@.headers =~= refresh_grant(authorization@, refresh_token@).headers);
        assert(request@.form =~= refresh_grant(authorization@, refresh_token@).form);
        request
    }
}

/// The value of the `Authorization` header for `token`.
pub fn authorization_value(token: &AccessToken) -> (value: String)
    ensures
        value@ == authorization(token@),
{
    proof {
        reveal_strlit(" ");
    }
    let mut value = token.token_type.clone();
    value.append(" ");
    value.append(token.access_token.as_str());
    value
}

/// Adds to `request` the headers that every call to the accounting API
/// carries: JSON in both directions, and the token as authorisation.
pub fn apply_auth_headers(request: Request, token: &AccessToken) -> (authorized: Request)
    ensures
        authorized@ == with_auth_headers(request@, token@),
{
    let value = authorization_value(token);
    let authorized = request
        .set("Accept", "application/json")
        .set("Content-Type", "application/json")
        .set("Authorization", value.as_str());
    assert(authorized@.headers =~= request@.headers + auth_headers(token@));
    authorized
}

} // verus!
