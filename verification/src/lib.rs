//! A verified core for a QuickBooks Online client.
//!
//! The crate describes requests and decides what a reply means; it never
//! touches the network itself. A caller sends each [`Request`] with the
//! transport of its choice and hands the [`Reply`] back.
//!
//! What each function returns is stated over plain text and numbers: the
//! view of a value, written `value@`, and the functions marked `spec` that
//! say what a query, a URL or a request looks like.

pub mod auth;
pub mod client;
pub mod constants;
pub mod error;
pub mod query;
pub mod reply;
pub mod request;
pub mod text;
pub mod types;

pub use client::Quickbooks;
pub use error::Error;
pub use error::Precondition;
pub use reply::Reply;
pub use request::Method;
pub use request::Request;
pub use types::config::ApiConfig;
pub use types::config::QueryConfig;
pub use types::config::QuickbooksConfig;
pub use types::AccessToken;
pub use types::TokenFields;
