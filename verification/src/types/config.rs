//! Configuration of a client and of a single query.

use crate::constants::MAX_QUERY_LENGTH;
use crate::types::AccessToken;
use crate::types::TokenView;
use vstd::prelude::*;

verus! {

/// The revision of the remote API to ask for.
#[derive(Debug, PartialEq)]
pub struct ApiConfig {
    pub minor_version: String,
}

/// What an [`ApiConfig`] holds, as text.
pub struct ApiView {
    pub minor_version: Seq<char>,
}

impl View for ApiConfig {
    type V = ApiView;

    open spec fn view(&self) -> ApiView {
        ApiView { minor_version: self.minor_version@ }
    }
}

impl Clone for ApiConfig {
    fn clone(&self) -> (copy: Self)
        ensures
            copy == *self,
    {
        ApiConfig { minor_version: self.minor_version.clone() }
    }
}

/// The filter, the order and the window of one query.
///
/// Positions count from one. Both clauses are handed on as they are: what
/// they may hold is for the caller to decide.
#[derive(Debug, PartialEq)]
pub struct QueryConfig<'a> {
    pub where_clause: Option<&'a str>,
    pub order_by: Option<&'a str>,
    pub start_position: usize,
    pub max_results: usize,
}

/// What a [`QueryConfig`] holds, as text and numbers.
pub struct QueryView {
    pub where_clause: Option<Seq<char>>,
    pub order_by: Option<Seq<char>>,
    pub start_position: nat,
    pub max_results: nat,
}

impl<'a> View for QueryConfig<'a> {
    type V = QueryView;

    open spec fn view(&self) -> QueryView {
        QueryView {
            where_clause: self.where_clause.deep_view(),
            order_by: self.order_by.deep_view(),
            start_position: self.start_position as nat,
            max_results: self.max_results as nat,
        }
    }
}

impl<'a> Clone for QueryConfig<'a> {
    fn clone(&self) -> (copy: Self)
        ensures
            copy == *self,
    {
        QueryConfig {
            where_clause: self.where_clause,
            order_by: self.order_by,
            start_position: self.start_position,
            max_results: self.max_results,
        }
    }
}

impl Default for QueryConfig<'_> {
    /// The first page, as large as the service allows, unfiltered and in the
    /// service's own order.
    fn default() -> (config: Self)
        ensures
            config@ == (QueryView {
                where_clause: None,
                order_by: None,
                start_position: 1,
                max_results: MAX_QUERY_LENGTH as nat,
            }),
    {
        QueryConfig {
            where_clause: None,
            order_by: None,
            start_position: 1,
            max_results: MAX_QUERY_LENGTH,
        }
    }
}

/// Everything a client is built from.
#[derive(Debug, PartialEq)]
pub struct QuickbooksConfig {
    pub client_id: String,
    pub client_secret: String,
    pub base_url: String,
    pub company_id: String,
    pub token: AccessToken,
    pub api: Option<ApiConfig>,
}

/// What a [`QuickbooksConfig`] holds, as text.
pub struct ConfigView {
    pub client_id: Seq<char>,
    pub client_secret: Seq<char>,
    pub base_url: Seq<char>,
    pub company_id: Seq<char>,
    pub token: TokenView,
    pub api: Option<ApiView>,
}

impl View for QuickbooksConfig {
    type V = ConfigView;

    open spec fn view(&self) -> ConfigView {
        ConfigView {
            client_id: self.client_id@,
            client_secret: self.client_secret@,
            base_url: self.base_url@,
            company_id: self.company_id@,
            token: self.token@,
            api: match self.api {
                Some(api) => Some(api@),
                None => None,
            },
        }
    }
}

impl Clone for QuickbooksConfig {
    fn clone(&self) -> (copy: Self)
        ensures
            copy == *self,
    {
        QuickbooksConfig {
            client_id: self.client_id.clone(),
            client_secret: self.client_secret.clone(),
            base_url: self.base_url.clone(),
            company_id: self.company_id.clone(),
            token: self.token.clone(),
            api: match &self.api {
                Some(api) => Some(api.clone()),
                None => None,
            },
        }
    }
}

} // verus!
