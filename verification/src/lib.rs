//! Bindings for the Pinterest REST API: permission scopes, the OAuth2
//! authorization flow, and the session state that holds an access token.

pub mod client;
pub mod config;
pub mod error;
pub mod oauth;
pub mod query;
pub mod scope;
pub mod token;

pub use client::{Client, API_BASE};
pub use config::PinterestConfig;
pub use error::PinterestError;
pub use scope::Scope;
pub use token::TokenBuilder;
