//! The OAuth2 layer. Building the configuration, parsing URLs and writing the
//! authorization URL are the work of the `oauth2` and `url` crates; this
//! module states what the rest of the library takes from them on trust.
//!
//! Nothing here is proved: every `external_body` function below is a direct
//! call into one of the two crates, and its contract is a reading of that
//! crate's source.

use crate::query::{joined, query_room};
use vstd::prelude::*;
use vstd::utf8::encode_utf8;

verus! {

/// `oauth2::Config`, carried as an opaque value. What it holds is spoken of
/// through [`settings`].
#[verifier::external_type_specification]
#[verifier::external_body]
pub struct ExConfig(oauth2::Config);

/// `oauth2::Token`, carried as an opaque value.
#[verifier::external_type_specification]
#[verifier::external_body]
pub struct ExToken(oauth2::Token);

/// `oauth2::TokenError`, carried as an opaque value.
#[verifier::external_type_specification]
#[verifier::external_body]
pub struct ExTokenError(oauth2::TokenError);

/// What an OAuth2 configuration holds, as plain text.
pub struct Settings {
    /// The identifier of the client.
    pub client_id: Seq<char>,
    /// The secret of the client.
    pub client_secret: Seq<char>,
    /// The authorization endpoint, as its URL is written out after parsing.
    pub auth_url: Seq<char>,
    /// The token endpoint, as its URL is written out after parsing.
    pub token_url: Seq<char>,
    /// The scopes to request, in the order in which they were added.
    pub scopes: Seq<Seq<char>>,
    /// The response type, as it is written into the authorization URL.
    pub response_type: Seq<char>,
    /// Where the authorization server sends the user back to, if set.
    pub redirect_url: Option<Seq<char>>,
    /// The state parameter, if set.
    pub state: Option<Seq<char>>,
}

/// What `config` holds: the fields of `oauth2::Config` that go into the
/// authorization URL and the token request, each as text.
pub uninterp spec fn settings(config: oauth2::Config) -> Settings;

/// The text that `url::Url::parse` makes of `text`: `None` where it returns an
/// error, else the serialization of the URL it returns. Parsing normalizes, so
/// the result need not be `text` itself.
pub uninterp spec fn parsed_url(text: Seq<char>) -> Option<Seq<char>>;

/// The serialization of the parsed URL `url` after `pairs` have been appended
/// to its query by `url::form_urlencoded::Serializer::extend_pairs`: each pair
/// as `name=value`, both percent-encoded, behind what query `url` already has
/// and before its fragment.
pub uninterp spec fn url_with_query(url: Seq<char>, pairs: Seq<(Seq<char>, Seq<char>)>) -> Seq<
    char,
>;

/// The query pairs that `oauth2::Config::authorize_url` writes, in its order:
/// `client_id`, `scope`, `response_type`, then `redirect_uri` and `state` where
/// they are set.
pub open spec fn authorization_pairs(s: Settings) -> Seq<(Seq<char>, Seq<char>)> {
    seq![("client_id"@, s.client_id), ("scope"@, joined(s.scopes)), ("response_type"@, s.response_type)]
        + match s.redirect_url {
        Some(url) => seq![("redirect_uri"@, url)],
        None => Seq::empty(),
    } + match s.state {
        Some(state) => seq![("state"@, state)],
        None => Seq::empty(),
    }
}

/// The authorization URL for `s`: its authorization endpoint with the
/// authorization pairs appended to the query.
pub open spec fn authorization_url(s: Settings) -> Seq<char> {
    url_with_query(s.auth_url, authorization_pairs(s))
}

/// The `url` crate keeps positions in a URL as 32-bit numbers and panics on
/// one that does not fit. This holds where the authorization URL for `s` is
/// sure to stay below that limit.
pub open spec fn offsets_fit(s: Settings) -> bool {
    encode_utf8(s.auth_url).len() + 1 + query_room(authorization_pairs(s)) <= u32::MAX
}

/// Calls `url::Url::parse` and hands back the serialization of the URL, or
/// `None` for any parse error. Trusted: the result is what [`parsed_url`]
/// names.
#[verifier::external_body]
pub(crate) fn parse_url(text: &str) -> (url: Option<String>)
    ensures
        url matches Some(u) ==> parsed_url(text@) == Some(u@),
        url is None ==> parsed_url(text@) is None,
{
    match url::Url::parse(text) {
        Ok(url) => Some(url.into_string()),
        Err(_) => None,
    }
}

/// Calls `oauth2::Config::new`, which parses both URLs and panics where one
/// does not parse. Trusted: the new configuration holds the two credentials as
/// given and the two URLs as parsed; it has no scope, no redirect URL and no
/// state, and its response type is `code`.
#[verifier::external_body]
pub(crate) fn config_new(
    client_id: &str,
    client_secret: &str,
    auth_url: &str,
    token_url: &str,
) -> (config: oauth2::Config)
    requires
        parsed_url(auth_url@) is Some,
        parsed_url(token_url@) is Some,
    ensures
        settings(config) == (Settings {
            client_id: client_id@,
            client_secret: client_secret@,
            auth_url: parsed_url(auth_url@)->0,
            token_url: parsed_url(token_url@)->0,
            scopes: Seq::empty(),
            response_type: "code"@,
            redirect_url: None,
            state: None,
        }),
{
    oauth2::Config::new(client_id, client_secret, auth_url, token_url)
}

/// Calls `oauth2::Config::add_scope`. Trusted: `scope` is appended to the
/// scopes, and nothing else changes.
#[verifier::external_body]
pub(crate) fn add_scope(config: oauth2::Config, scope: &str) -> (added: oauth2::Config)
    ensures
        settings(added) == (Settings {
            scopes: settings(config).scopes.push(scope@),
            ..settings(config)
        }),
{
    config.add_scope(scope)
}

/// Calls `oauth2::Config::set_redirect_url`. Trusted: the redirect URL is set
/// to `url`, kept as given, and nothing else changes.
#[verifier::external_body]
pub(crate) fn set_redirect_url(config: oauth2::Config, url: &str) -> (set: oauth2::Config)
    ensures
        settings(set) == (Settings { redirect_url: Some(url@), ..settings(config) }),
{
    config.set_redirect_url(url)
}

/// Calls `oauth2::Config::authorize_url` and hands back the text of the URL.
/// Trusted: the URL is the authorization endpoint with the authorization
/// pairs of the configuration appended to its query, and the call does not
/// panic while the offsets fit.
#[verifier::external_body]
pub(crate) fn authorize_url(config: &oauth2::Config) -> (url: String)
    requires
        offsets_fit(settings(*config)),
    ensures
        url@ == url_with_query(
            settings(*config).auth_url,
            authorization_pairs(settings(*config)),
        ),
{
    config.authorize_url().into_string()
}

} // verus!
