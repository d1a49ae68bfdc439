//! The configuration of the OAuth2 flow as the caller writes it down.

use crate::oauth::{authorization_pairs, offsets_fit, parsed_url, Settings};
use crate::query::{joined, lemma_ascii_bytes, lemma_joined_ascii, lemma_joined_len, query_room};
use crate::scope::{lemma_scope_names, scope_names, Scope};
use vstd::prelude::*;
use vstd::utf8::{encode_utf8, is_ascii_chars};

verus! {

/// Room kept for everything in the authorization URL but the endpoint, the
/// client identifier and the redirect URL: the names of the parameters, the
/// scopes, the response type and the separators.
pub const URL_OVERHEAD: usize = 512;

/// Defines general OAuth2 configuration with Pinterest specific options.
pub struct PinterestConfig<'a> {
    /// The identifier that Pinterest gave the application.
    pub client_id: &'a str,
    /// The secret that Pinterest gave the application.
    pub client_secret: &'a str,
    /// The URL of the authorization endpoint.
    pub authorize_url: &'a str,
    /// The URL of the token endpoint.
    pub token_url: &'a str,
    /// Where the user is sent back to after authorizing.
    pub redirect_url: &'a str,
    /// The permissions to ask for.
    pub scope: Scope,
}

impl<'a> PinterestConfig<'a> {
    /// Whether both endpoints are URLs.
    pub open spec fn parses(self) -> bool {
        &&& parsed_url(self.authorize_url@) is Some
        &&& parsed_url(self.token_url@) is Some
    }

    /// The number of bytes that the authorization URL can come to at most,
    /// given `endpoint` as the parsed authorization endpoint.
    pub open spec fn url_room(self, endpoint: Seq<char>) -> nat {
        encode_utf8(endpoint).len() + 3 * encode_utf8(self.client_id@).len() + 3 * encode_utf8(
            self.redirect_url@,
        ).len() + URL_OVERHEAD as nat
    }

    /// Whether a `TokenBuilder` can be made of this configuration: both
    /// endpoints are URLs, and the authorization URL stays within the 32-bit
    /// positions that URLs are held with.
    pub open spec fn accepted(self) -> bool {
        &&& self.parses()
        &&& self.url_room(parsed_url(self.authorize_url@)->0) <= u32::MAX
    }

    /// The OAuth2 settings that this configuration resolves to: the
    /// credentials as given, the two endpoints as parsed, the names of the
    /// granted permissions as scopes, the response type `code`, the redirect
    /// URL set and no state.
    pub open spec fn settings(self) -> Settings {
        Settings {
            client_id: self.client_id@,
            client_secret: self.client_secret@,
            auth_url: parsed_url(self.authorize_url@)->0,
            token_url: parsed_url(self.token_url@)->0,
            scopes: scope_names(self.scope),
            response_type: "code"@,
            redirect_url: Some(self.redirect_url@),
            state: None,
        }
    }
}

/// The scopes of a configuration, joined, are ASCII text of at most 80
/// characters.
proof fn lemma_scopes_are_short(scope: Scope)
    ensures
        is_ascii_chars(joined(scope_names(scope))),
        joined(scope_names(scope)).len() <= 80,
{
    reveal_strlit("read_public");
    reveal_strlit("read_relationships");
    reveal_strlit("write_public");
    reveal_strlit("write_relationships");
    let names = scope_names(scope);
    lemma_scope_names(scope);
    assert forall|i: int| 0 <= i < names.len() implies is_ascii_chars(#[trigger] names[i])
        && names[i].len() <= 19 by {
        assert(names.contains(names[i]));
    }
    lemma_joined_ascii(names);
    lemma_joined_len(names, 19);
    assert(names.len() * 20 <= 80) by (nonlinear_arith)
        requires
            names.len() <= 4,
    ;
}

/// An accepted configuration resolves to settings whose authorization URL
/// stays within 32-bit positions.
pub proof fn lemma_accepted_fits(config: PinterestConfig)
    requires
        config.accepted(),
    ensures
        offsets_fit(config.settings()),
{
    reveal_strlit("client_id");
    reveal_strlit("scope");
    reveal_strlit("response_type");
    reveal_strlit("redirect_uri");
    reveal_strlit("code");
    lemma_ascii_bytes("client_id"@);
    lemma_ascii_bytes("scope"@);
    lemma_ascii_bytes("response_type"@);
    lemma_ascii_bytes("redirect_uri"@);
    lemma_ascii_bytes("code"@);
    lemma_scopes_are_short(config.scope);
    lemma_ascii_bytes(joined(scope_names(config.scope)));
    let s = config.settings();
    let pairs = authorization_pairs(s);
    let first = seq![("client_id"@, s.client_id)];
    let second = first.push(("scope"@, joined(s.scopes)));
    let third = second.push(("response_type"@, s.response_type));
    assert(pairs =~= third.push(("redirect_uri"@, config.redirect_url@)));
    assert(pairs.drop_last() =~= third);
    assert(third.drop_last() =~= second);
    assert(second.drop_last() =~= first);
    assert(first.drop_last() =~= Seq::<(Seq<char>, Seq<char>)>::empty());
    assert(query_room(first.drop_last()) == 0);
    assert(query_room(first) == 3 * 9 + 3 * encode_utf8(s.client_id).len() + 2);
    assert(query_room(second) == query_room(first) + 3 * 5 + 3 * joined(s.scopes).len() + 2);
    assert(query_room(third) == query_room(second) + 3 * 13 + 3 * 4 + 2);
    assert(query_room(pairs) == query_room(third) + 3 * 12 + 3 * encode_utf8(
        config.redirect_url@,
    ).len() + 2);
}

} // verus!
