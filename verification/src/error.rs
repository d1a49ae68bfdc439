//! What can go wrong.

use vstd::prelude::*;

verus! {

/// Defines Pinterest error types.
#[derive(Debug)]
pub enum PinterestError {
    /// The exchange of an authorization code for an access token failed; the
    /// error is the one that the OAuth2 layer reported.
    Token(oauth2::TokenError),
}

impl From<oauth2::TokenError> for PinterestError {
    fn from(err: oauth2::TokenError) -> (error: PinterestError) {
        PinterestError::Token(err)
    }
}

impl vstd::std_specs::convert::FromSpecImpl<oauth2::TokenError> for PinterestError {
    open spec fn obeys_from_spec() -> bool {
        true
    }

    open spec fn from_spec(err: oauth2::TokenError) -> PinterestError {
        PinterestError::Token(err)
    }
}

} // verus!
