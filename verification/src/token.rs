//! The authorization flow: from a configuration to the URL that the user is
//! sent to, and from the answer of the token endpoint to an access token.

use crate::config::{lemma_accepted_fits, PinterestConfig, URL_OVERHEAD};
use crate::error::PinterestError;
use crate::oauth;
use crate::oauth::{
    authorization_pairs, authorization_url, offsets_fit, parsed_url, settings, url_with_query,
    Settings,
};
use crate::query::joined;
use crate::scope::scope_names;
use vstd::prelude::*;

verus! {

/// Handles authentication with OAuth flow.
pub struct TokenBuilder {
    config: oauth2::Config,
}

impl View for TokenBuilder {
    type V = Settings;

    closed spec fn view(&self) -> Settings {
        settings(self.config)
    }
}

impl TokenBuilder {
    #[verifier::type_invariant]
    spec fn url_fits(self) -> bool {
        offsets_fit(settings(self.config))
    }

    /// Create and return a `TokenBuilder` structure using a custom config
    /// type. Note that the parameter is not an `oauth2::Config` but this
    /// library's own `PinterestConfig`. After generating the authorization
    /// URL, the application implementer must find a way to listen to the
    /// callback URL and receive an authorization code.
    ///
    /// The configuration has to be accepted: see [`TokenBuilder::try_new`] for
    /// a constructor that tests this.
    pub fn new(config: PinterestConfig) -> (builder: TokenBuilder)
        requires
            config.accepted(),
        ensures
            builder@ == config.settings(),
    {
        // build the oauth2 config structure
        let mut oauth_config = oauth::config_new(
            config.client_id,
            config.client_secret,
            config.authorize_url,
            config.token_url,
        );
        let ghost bare = settings(oauth_config);

        // add scope to config
        let names = config.scope.names();
        let mut added: usize = 0;
        assert(names.deep_view().take(0) =~= bare.scopes);
        while added < names.len()
            invariant
                added <= names.len(),
                settings(oauth_config) == (Settings {
                    scopes: names.deep_view().take(added as int),
                    ..bare
                }),
            decreases names.len() - added,
        {
            oauth_config = oauth::add_scope(oauth_config, names[added]);
            assert(names.deep_view().take(added as int).push(names[added as int]@)
                =~= names.deep_view().take(added + 1));
            added += 1;
        }
        assert(names.deep_view().take(added as int) =~= names.deep_view());

        // set redirect URL
        oauth_config = oauth::set_redirect_url(oauth_config, config.redirect_url);

        proof {
            lemma_accepted_fits(config);
        }
        TokenBuilder { config: oauth_config }
    }

    /// Like [`TokenBuilder::new`], for any configuration: `None` where the
    /// configuration is not accepted.
    pub fn try_new(config: PinterestConfig) -> (builder: Option<TokenBuilder>)
        ensures
            builder is Some <==> config.accepted(),
            builder matches Some(b) ==> b@ == config.settings(),
    {
        let endpoint = match oauth::parse_url(config.authorize_url) {
            Some(endpoint) => endpoint,
            None => {
                return None;
            },
        };
        if oauth::parse_url(config.token_url).is_none() {
            return None;
        }
        let endpoint_bytes = endpoint.as_str().as_bytes().len() as u128;
        let client_id_bytes = config.client_id.as_bytes().len() as u128;
        let redirect_bytes = config.redirect_url.as_bytes().len() as u128;
        let room: u128 = endpoint_bytes + 3 * client_id_bytes + 3 * redirect_bytes
            + URL_OVERHEAD as u128;
        assert(room == config.url_room(endpoint@));
        if room <= u32::MAX as u128 {
            Some(TokenBuilder::new(config))
        } else {
            None
        }
    }

    /// The text of the authorization URL: the authorization endpoint with
    /// `client_id`, `scope`, `response_type` and `redirect_uri` in its query.
    pub fn authorize_url(&self) -> (url: String)
        ensures
            url@ == authorization_url(self@),
    {
        proof {
            use_type_invariant(self);
        }
        oauth::authorize_url(&self.config)
    }

    /// The OAuth2 configuration that this builder resolved to, for the caller
    /// who sends the authorization code to the token endpoint.
    pub fn config(&self) -> (config: &oauth2::Config)
        ensures
            settings(*config) == self@,
    {
        &self.config
    }

    /// Settles the exchange of an authorization code. `outcome` is what the
    /// OAuth2 layer answered when the code was sent to the token endpoint: a
    /// token is handed on to the caller, who may then create a `Client` with
    /// it, and a failure is returned as `PinterestError::Token`.
    pub fn exchange_code(&self, outcome: Result<oauth2::Token, oauth2::TokenError>) -> (result:
        Result<oauth2::Token, PinterestError>)
        ensures
            result == match outcome {
                Ok(token) => Ok::<oauth2::Token, PinterestError>(token),
                Err(err) => Err(PinterestError::Token(err)),
            },
    {
        match outcome {
            Ok(token) => Ok(token),
            Err(err) => Err(PinterestError::from(err)),
        }
    }
}

/// The authorization URL made for a configuration is its authorization
/// endpoint, as parsed, with exactly four pairs appended to the query, in this
/// order: `client_id` with the client identifier, `scope` with the names of the
/// granted permissions joined by single spaces, `response_type` with `code`,
/// and `redirect_uri` with the redirect URL. The client secret and the token
/// endpoint are no part of it.
pub proof fn lemma_authorization_url(config: PinterestConfig)
    ensures
        authorization_url(config.settings()) == url_with_query(
            parsed_url(config.authorize_url@)->0,
            seq![
                ("client_id"@, config.client_id@),
                ("scope"@, joined(scope_names(config.scope))),
                ("response_type"@, "code"@),
                ("redirect_uri"@, config.redirect_url@),
            ],
        ),
{
    assert(authorization_pairs(config.settings()) =~= seq![
        ("client_id"@, config.client_id@),
        ("scope"@, joined(scope_names(config.scope))),
        ("response_type"@, "code"@),
        ("redirect_uri"@, config.redirect_url@),
    ]);
}

} // verus!
