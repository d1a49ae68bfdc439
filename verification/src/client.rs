//! The `Client` is used to access all API methods.

use vstd::prelude::*;

verus! {

/// Base API request string.
pub const API_BASE: &'static str = "https://api.pinterest.com/v1/";

/// The state of a session with the API: the access token, once there is one.
/// The transport that sends the requests belongs to the application.
pub struct Client {
    token: Option<oauth2::Token>,
}

impl View for Client {
    type V = Option<oauth2::Token>;

    /// The token that the client holds, if any.
    closed spec fn view(&self) -> Option<oauth2::Token> {
        self.token
    }
}

impl Default for Client {
    /// A client that holds no token.
    fn default() -> (client: Client)
        ensures
            client@ is None,
    {
        Client { token: None }
    }
}

impl Client {
    /// A client that holds `token`.
    pub fn new(token: oauth2::Token) -> (client: Client)
        ensures
            client@ == Some(token),
    {
        Client { token: Some(token) }
    }

    /// The token that the client holds, if any.
    pub fn token(&self) -> (token: Option<&oauth2::Token>)
        ensures
            token is Some <==> self@ is Some,
            token matches Some(held) ==> self@ == Some(*held),
    {
        self.token.as_ref()
    }
}

} // verus!
