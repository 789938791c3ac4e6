//! Provider endpoints, the authorization request, the URL builder, and the
//! configuration check that must pass before a listener is started.

use crate::encoding::{pct_encoded, percent_encode};
use crate::secrets::CsrfState;
use crate::text::{contains_char, has_char};
use vstd::prelude::*;
use vstd::string::*;

verus! {

/// The provider's authorization and token endpoints.
pub struct ProviderEndpoints {
    pub authorize_url: String,
    pub token_url: String,
}

impl ProviderEndpoints {
    pub fn new(authorize_url: String, token_url: String) -> (e: ProviderEndpoints)
        ensures
            e.authorize_url@ == authorize_url@,
            e.token_url@ == token_url@,
    {
        ProviderEndpoints { authorize_url, token_url }
    }
}

/// Whether `url::Url::parse` accepts a string.
pub uninterp spec fn url_well_formed(s: Seq<char>) -> bool;

/// Relies on `url::Url::parse`: whether a string parses as a URL depends on
/// its characters alone.
#[verifier::external_body]
fn url_parse_ok(s: &str) -> (r: bool)
    ensures
        r == url_well_formed(s@),
{
    url::Url::parse(s).is_ok()
}

/// A configuration is acceptable when both endpoints and the redirect URI
/// parse as URLs.
pub open spec fn config_well_formed(
    authorize_url: Seq<char>,
    token_url: Seq<char>,
    redirect_uri: Seq<char>,
) -> bool {
    url_well_formed(authorize_url) && url_well_formed(token_url) && url_well_formed(redirect_uri)
}

/// Checks the endpoint and redirect configuration.
pub fn check_config(endpoints: &ProviderEndpoints, redirect_uri: &str) -> (r: bool)
    ensures
        r == config_well_formed(endpoints.authorize_url@, endpoints.token_url@, redirect_uri@),
{
    url_parse_ok(endpoints.authorize_url.as_str()) && url_parse_ok(endpoints.token_url.as_str())
        && url_parse_ok(redirect_uri)
}

/// Scope identifiers after the first, each preceded by one space.
pub open spec fn joined_tail(rest: Seq<Seq<char>>) -> Seq<char>
    decreases rest.len(),
{
    if rest.len() == 0 {
        Seq::empty()
    } else {
        seq![' '] + rest[0] + joined_tail(rest.drop_first())
    }
}

/// The scope parameter: scope identifiers joined with single spaces.
pub open spec fn scopes_joined(scopes: Seq<Seq<char>>) -> Seq<char> {
    if scopes.len() == 0 {
        Seq::empty()
    } else {
        scopes[0] + joined_tail(scopes.drop_first())
    }
}

/// Joins scope identifiers with single spaces.
pub fn join_scopes(scopes: &Vec<String>) -> (r: String)
    ensures
        r@ == scopes_joined(scopes.deep_view()),
{
    let ghost dv = scopes.deep_view();
    let mut out = String::new();
    if scopes.len() == 0 {
        return out;
    }
    out.append(scopes[0].as_str());
    let mut i: usize = 1;
    proof {
        assert(dv[0] == scopes@[0]@);
        assert(dv.skip(1) =~= dv.drop_first());
    }
    while i < scopes.len()
        invariant
            dv == scopes.deep_view(),
            dv.len() == scopes@.len(),
            1 <= i <= scopes@.len(),
            scopes_joined(dv) == out@ + joined_tail(dv.skip(i as int)),
        decreases scopes@.len() - i,
    {
        out.append(" ");
        out.append(scopes[i].as_str());
        proof {
            reveal_strlit(" ");
            assert(" "@ =~= seq![' ']);
            assert(dv.skip(i as int)[0] == dv[i as int]);
            assert(dv[i as int] == scopes@[i as int]@);
            assert(dv.skip(i as int).drop_first() =~= dv.skip(i + 1));
            assert(out@ + joined_tail(dv.skip(i + 1)) =~= scopes_joined(dv));
        }
        i = i + 1;
    }
    proof {
        assert(dv.skip(scopes@.len() as int) =~= Seq::<Seq<char>>::empty());
        assert(out@ + joined_tail(dv.skip(scopes@.len() as int)) =~= out@);
    }
    out
}

/// The full authorization URL for an endpoint, client, redirect URI,
/// scope set and state token.
pub open spec fn auth_url_of(
    endpoint: Seq<char>,
    client_id: Seq<char>,
    redirect_uri: Seq<char>,
    scopes: Seq<Seq<char>>,
    state: Seq<char>,
) -> Seq<char> {
    endpoint + (if has_char(endpoint, '?') {
        "&"@
    } else {
        "?"@
    }) + "response_type=code&client_id="@ + pct_encoded(client_id) + "&state="@ + pct_encoded(
        state,
    ) + "&redirect_uri="@ + pct_encoded(redirect_uri) + "&scope="@ + pct_encoded(
        scopes_joined(scopes),
    )
}

/// Everything that determines one authorization URL.
pub struct AuthorizationRequest {
    pub endpoints: ProviderEndpoints,
    pub client_id: String,
    pub redirect_uri: String,
    pub scopes: Vec<String>,
    pub state: CsrfState,
}

impl AuthorizationRequest {
    /// Composes the authorization URL that the user must visit.
    pub fn authorization_url(&self) -> (u: String)
        ensures
            u@ == auth_url_of(
                self.endpoints.authorize_url@,
                self.client_id@,
                self.redirect_uri@,
                self.scopes.deep_view(),
                self.state.spec_value(),
            ),
    {
        let mut u = self.endpoints.authorize_url.clone();
        if contains_char(self.endpoints.authorize_url.as_str(), '?') {
            u.append("&");
        } else {
            u.append("?");
        }
        u.append("response_type=code&client_id=");
        let enc_id = percent_encode(self.client_id.as_str());
        u.append(enc_id.as_str());
        u.append("&state=");
        let enc_state = percent_encode(self.state.reveal_value().as_str());
        u.append(enc_state.as_str());
        u.append("&redirect_uri=");
        let enc_redirect = percent_encode(self.redirect_uri.as_str());
        u.append(enc_redirect.as_str());
        u.append("&scope=");
        let joined = join_scopes(&self.scopes);
        let enc_scope = percent_encode(joined.as_str());
        u.append(enc_scope.as_str());
        proof {
            assert(u@ =~= auth_url_of(
                self.endpoints.authorize_url@,
                self.client_id@,
                self.redirect_uri@,
                self.scopes.deep_view(),
                self.state.spec_value(),
            ));
        }
        u
    }
}

} // verus!
