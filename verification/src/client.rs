//! The client: a configuration, the credentials in use, and the paths that
//! follow from them. It describes each call to make and takes in what came
//! back; sending is left to the caller.

use crate::auth::basic_authorization;
use crate::auth::basic_credentials;
use crate::auth::basic_authorization_header;
use crate::constants::DEFAULT_MINOR_VERSION;
use crate::constants::TOKEN_ENDPOINT;
use crate::error::Error;
use crate::error::Precondition;
use crate::query::build_query_string;
use crate::query::query_text;
use crate::query::COMPANY_INFO_QUERY;
use crate::reply::token_of;
use crate::reply::token_outcome;
use crate::reply::Reply;
use crate::request::apply_auth_headers;
use crate::request::bare;
use crate::request::refresh_grant;
use crate::request::with_auth_headers;
use crate::request::Method;
use crate::request::Request;
use crate::request::RequestView;
use crate::types::config::ConfigView;
use crate::types::config::QueryConfig;
use crate::types::config::QuickbooksConfig;
use crate::types::AccessToken;
use crate::types::TokenFields;
use vstd::prelude::*;
use vstd::std_specs::convert::FromSpecImpl;

verus! {

/// The revision of the API that a configuration asks for.
pub open spec fn minor_version(config: ConfigView) -> Seq<char> {
    match config.api {
        Some(api) => api.minor_version,
        None => DEFAULT_MINOR_VERSION@,
    }
}

/// The end of every URL: the revision asked for, as a parameter.
pub open spec fn version_suffix(config: ConfigView) -> Seq<char> {
    "?minorversion="@ + minor_version(config)
}

/// The URL that all paths of one company start with.
pub open spec fn base_path(config: ConfigView) -> Seq<char> {
    config.base_url + "/v3/company/"@ + config.company_id
}

/// The URL that queries are sent to.
pub open spec fn query_path(config: ConfigView) -> Seq<char> {
    base_path(config) + "/query"@ + version_suffix(config)
}

/// The URL of the record `id` of the resource `key`.
pub open spec fn read_path(config: ConfigView, key: Seq<char>, id: Seq<char>) -> Seq<char> {
    base_path(config) + "/"@ + key + "/"@ + id + version_suffix(config)
}

/// The request that runs the query `text`.
pub open spec fn query_request(config: ConfigView, text: Seq<char>) -> RequestView {
    RequestView {
        query: seq![("query"@, text)],
        ..with_auth_headers(bare(Method::Get, query_path(config)), config.token)
    }
}

/// The request that reads the record `id` of the resource `key`.
pub open spec fn read_request(config: ConfigView, key: Seq<char>, id: Seq<char>) -> RequestView {
    with_auth_headers(bare(Method::Get, read_path(config, key, id)), config.token)
}

/// The request that asks for new credentials in exchange for the refresh
/// token held, with the client's id and secret as Basic credentials.
pub open spec fn refresh_request(config: ConfigView) -> RequestView {
    refresh_grant(
        basic_authorization(config.client_id, config.client_secret),
        config.token.refresh_token,
    )
}

/// Every call to the accounting API presents the credentials in use: its
/// third header is `Authorization`, and the value is the scheme, a single
/// space and the access token.
pub proof fn lemma_calls_present_the_token(
    config: ConfigView,
    text: Seq<char>,
    key: Seq<char>,
    id: Seq<char>,
)
    ensures
        query_request(config, text).headers[2] == (
            "Authorization"@,
            config.token.token_type + seq![' '] + config.token.access_token,
        ),
        read_request(config, key, id).headers[2] == (
            "Authorization"@,
            config.token.token_type + seq![' '] + config.token.access_token,
        ),
{
}

/// The URLs follow from the base URL, the company and the revision alone.
/// Two configurations that agree on these give the same URLs, whatever
/// credentials they hold: new credentials leave every URL as it was.
pub proof fn lemma_paths_follow_from_endpoint(
    one: ConfigView,
    other: ConfigView,
    key: Seq<char>,
    id: Seq<char>,
)
    requires
        one.base_url == other.base_url,
        one.company_id == other.company_id,
        one.api == other.api,
    ensures
        base_path(one) == base_path(other),
        query_path(one) == query_path(other),
        read_path(one, key, id) == read_path(other, key, id),
{
}

/// A request for new credentials is a form sent to the token endpoint. It
/// presents the client's id and secret under the Basic scheme, and asks for
/// a refresh grant on the refresh token held.
pub proof fn lemma_refresh_presents_basic_credentials(config: ConfigView)
    ensures
        refresh_request(config).method == Method::Post,
        refresh_request(config).url == TOKEN_ENDPOINT@,
        refresh_request(config).query.len() == 0,
        refresh_request(config).headers[1] == (
            "Authorization"@,
            "Basic "@ + basic_credentials(config.client_id, config.client_secret),
        ),
        refresh_request(config).form == seq![
            ("grant_type"@, "refresh_token"@),
            ("refresh_token"@, config.token.refresh_token),
        ],
{
}

/// The paths that follow from a configuration, worked out once.
#[derive(Debug)]
struct ApiPaths {
    base: String,
    query: String,
}

/// A client of the accounting API for one company.
#[derive(Debug)]
pub struct Quickbooks {
    config: QuickbooksConfig,
    paths: ApiPaths,
}

impl View for Quickbooks {
    type V = ConfigView;

    /// A client is what it was configured with, the credentials being those
    /// of the last successful refresh.
    closed spec fn view(&self) -> ConfigView {
        self.config@
    }
}

impl Clone for Quickbooks {
    fn clone(&self) -> (copy: Self)
        ensures
            copy == *self,
    {
        proof {
            use_type_invariant(self);
        }
        Quickbooks {
            config: self.config.clone(),
            paths: ApiPaths { base: self.paths.base.clone(), query: self.paths.query.clone() },
        }
    }
}

impl FromSpecImpl<QuickbooksConfig> for Quickbooks {
    /// `from` promises a client with the view of the configuration, and
    /// leaves open which of the values with that view it is.
    open spec fn obeys_from_spec() -> bool {
        false
    }

    open spec fn from_spec(config: QuickbooksConfig) -> Self {
        choose|client: Quickbooks| client@ == config@
    }
}

impl From<QuickbooksConfig> for Quickbooks {
    /// Builds a client and works out its paths. Nothing is checked here: a
    /// configuration that names no company gives a client whose calls the
    /// service will refuse.
    fn from(config: QuickbooksConfig) -> (client: Self)
        ensures
            client@ == config@,
    {
        let mut suffix = String::from_str("?minorversion=");
        match &config.api {
            Some(api) => suffix.append(api.minor_version.as_str()),
            None => suffix.append(DEFAULT_MINOR_VERSION),
        }
        let mut base = config.base_url.clone();
        base.append("/v3/company/");
        base.append(config.company_id.as_str());
        let mut query = base.clone();
        query.append("/query");
        query.append(suffix.as_str());
        Quickbooks { config, paths: ApiPaths { base, query } }
    }
}

impl Quickbooks {
    /// The paths are those that follow from the configuration.
    #[verifier::type_invariant]
    spec fn paths_derived(&self) -> bool {
        &&& self.paths.base@ == base_path(self.config@)
        &&& self.paths.query@ == query_path(self.config@)
    }

    /// The configuration, with the credentials now in use.
    pub fn config(&self) -> (config: &QuickbooksConfig)
        ensures
            config@ == self@,
    {
        &self.config
    }

    /// The credentials now in use.
    pub fn token(&self) -> (token: &AccessToken)
        ensures
            token@ == self@.token,
    {
        &self.config.token
    }

    /// Describes the call that runs the query `query`.
    pub fn build_query(&self, query: &str) -> (request: Request)
        ensures
            request@ == query_request(self@, query@),
    {
        proof {
            use_type_invariant(self);
        }
        let request = apply_auth_headers(
            Request::new(Method::Get, self.paths.query.as_str()),
            &self.config.token,
        ).query("query", query);
        request
    }

    /// Describes the call that lists records of the resource `key`.
    ///
    /// Position zero is refused, and then no call is described. A page size
    /// above the service's maximum is lowered to that maximum.
    pub fn query(&self, key: &str, config: &QueryConfig) -> (request: Result<Request, Error>)
        ensures
            config.start_position == 0 ==> request == Err::<Request, Error>(
                Error::Precondition(Precondition::StartPosition),
            ),
            config.start_position >= 1 ==> request is Ok && request->Ok_0@ == query_request(
                self@,
                query_text(key@, config@),
            ),
    {
        match build_query_string(key, config) {
            Ok(text) => Ok(self.build_query(text.as_str())),
            Err(error) => Err(error),
        }
    }

    /// Describes the call that reads the record `id` of the resource `key`.
    pub fn read(&self, key: &str, id: &str) -> (request: Request)
        ensures
            request@ == read_request(self@, key@, id@),
    {
        proof {
            use_type_invariant(self);
        }
        let mut url = self.paths.base.clone();
        url.append("/");
        url.append(key);
        url.append("/");
        url.append(id);
        url.append("?minorversion=");
        match &self.config.api {
            Some(api) => url.append(api.minor_version.as_str()),
            None => url.append(DEFAULT_MINOR_VERSION),
        }
        assert(url@ =~= read_path(self@, key@, id@));
        let request = apply_auth_headers(
            Request::new(Method::Get, url.as_str()),
            &self.config.token,
        );
        request
    }

    /// Describes the call that fetches the company's own record.
    pub fn company_info(&self) -> (request: Request)
        ensures
            request@ == query_request(self@, COMPANY_INFO_QUERY@),
    {
        self.build_query(COMPANY_INFO_QUERY)
    }

    /// Describes the call that reads the item `id`.
    pub fn read_item(&self, id: &str) -> (request: Request)
        ensures
            request@ == read_request(self@, "item"@, id@),
    {
        self.read("item", id)
    }

    /// Describes the call that lists customers.
    pub fn query_customers(&self, config: &QueryConfig) -> (request: Result<Request, Error>)
        ensures
            config.start_position == 0 ==> request == Err::<Request, Error>(
                Error::Precondition(Precondition::StartPosition),
            ),
            config.start_position >= 1 ==> request is Ok && request->Ok_0@ == query_request(
                self@,
                query_text("Customer"@, config@),
            ),
    {
        self.query("Customer", config)
    }

    /// Describes the call that lists items, at most a page of them, from
    /// the position that `config` names.
    pub fn query_items(&self, config: &QueryConfig) -> (request: Result<Request, Error>)
        ensures
            config.start_position == 0 ==> request == Err::<Request, Error>(
                Error::Precondition(Precondition::StartPosition),
            ),
            config.start_position >= 1 ==> request is Ok && request->Ok_0@ == query_request(
                self@,
                query_text("Item"@, config@),
            ),
    {
        self.query("Item", config)
    }

    /// Describes the call that asks for new credentials.
    ///
    /// Refused, and no call described, while the refresh token is empty.
    pub fn refresh_request(&self) -> (request: Result<Request, Error>)
        ensures
            self@.token.refresh_token.len() == 0 ==> request == Err::<Request, Error>(
                Error::Precondition(Precondition::RefreshToken),
            ),
            self@.token.refresh_token.len() > 0 ==> request is Ok && request->Ok_0@
                == refresh_request(self@),
    {
        if self.config.token.refresh_token.as_str().is_empty() {
            return Err(Error::Precondition(Precondition::RefreshToken));
        }
        let authorization = basic_authorization_header(
            self.config.client_id.as_str(),
            self.config.client_secret.as_str(),
        );
        Ok(Request::token_refresh(authorization.as_str(), self.config.token.refresh_token.as_str()))
    }

    /// Takes in the reply to a request for new credentials, `record` being
    /// its body decoded as a token record, or the reason why it could not
    /// be.
    ///
    /// The credentials of a successful answer that could be decoded replace
    /// the old ones whole, and are handed back. Anything else leaves the
    /// client as it was and comes back as the error that it is: no answer, an
    /// answer that is not a success, a body that could not be decoded.
    pub fn refresh_access_token(
        &mut self,
        reply: Reply,
        record: Result<TokenFields, String>,
    ) -> (refreshed: Result<AccessToken, Error>)
        ensures
            match token_of(reply, record) {
                Ok(token) => {
                    &&& refreshed is Ok
                    &&& refreshed->Ok_0@ == token
                    &&& final(self)@ == (ConfigView { token, ..old(self)@ })
                },
                Err(error) => {
                    &&& refreshed == Err::<AccessToken, Error>(error)
                    &&& *final(self) == *old(self)
                },
            },
    {
        proof {
            use_type_invariant(&*self);
        }
        match token_outcome(reply, record) {
            Ok(token) => {
                self.config.token = token.clone();
                Ok(token)
            },
            Err(error) => Err(error),
        }
    }
}

} // verus!
