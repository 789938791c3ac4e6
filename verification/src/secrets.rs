//! Secret-bearing values: client credentials, the anti-forgery state token,
//! and the access token. The sensitive part of each is a private field that
//! only an explicit accessor reveals.

use crate::encoding::{is_unreserved_char, lemma_decode_plain_identity,
    lemma_encode_unreserved_identity, pct_decoded, pct_encoded};
use crate::text::str_eq;
use vstd::prelude::*;

verus! {

/// Characters of a generated state token: the URL-safe base64 alphabet.
pub open spec fn is_state_char(c: char) -> bool {
    ||| 0x41 <= c as u32 <= 0x5A
    ||| 0x61 <= c as u32 <= 0x7A
    ||| 0x30 <= c as u32 <= 0x39
    ||| c == '-'
    ||| c == '_'
}

/// Client identifier and secret, supplied once at flow start.
pub struct ClientCredentials {
    client_id: String,
    client_secret: String,
}

impl ClientCredentials {
    /// The public client identifier.
    pub closed spec fn spec_client_id(&self) -> Seq<char> {
        self.client_id@
    }

    /// The secret's characters; contracts speak of the secret only through this.
    pub closed spec fn spec_client_secret(&self) -> Seq<char> {
        self.client_secret@
    }

    pub fn new(client_id: String, client_secret: String) -> (c: ClientCredentials)
        ensures
            c.spec_client_id() == client_id@,
            c.spec_client_secret() == client_secret@,
    {
        ClientCredentials { client_id, client_secret }
    }

    pub fn client_id(&self) -> (s: &String)
        ensures
            s@ == self.spec_client_id(),
    {
        &self.client_id
    }

    /// Intentional exposure of the client secret.
    pub fn reveal_client_secret(&self) -> (s: &String)
        ensures
            s@ == self.spec_client_secret(),
    {
        &self.client_secret
    }
}

/// The anti-forgery token round-tripped through the authorization request
/// and the redirect.
pub struct CsrfState {
    value: String,
}

impl CsrfState {
    /// The token's characters; contracts speak of the token only through this.
    pub closed spec fn spec_value(&self) -> Seq<char> {
        self.value@
    }

    /// Wraps a known state value, as the provider echoes it back.
    pub fn new(value: String) -> (s: CsrfState)
        ensures
            s.spec_value() == value@,
    {
        CsrfState { value }
    }

    /// A fresh, unpredictable state token for one flow invocation.
    pub fn new_random() -> (s: CsrfState)
        ensures
            s.spec_value().len() == 22,
            forall|i: int| 0 <= i < s.spec_value().len() ==> is_state_char(
                #[trigger] s.spec_value()[i],
            ),
    {
        CsrfState { value: random_state_value() }
    }

    /// Intentional exposure of the state value.
    pub fn reveal_value(&self) -> (v: &String)
        ensures
            v@ == self.spec_value(),
    {
        &self.value
    }

    /// Exact equality against the state echoed in the redirect.
    pub fn matches_received(&self, received: &str) -> (r: bool)
        ensures
            r == (received@ == self.spec_value()),
    {
        str_eq(received, self.value.as_str())
    }
}

/// Relies on `oauth2::CsrfToken::new_random`: 16 random bytes, base64
/// URL-safe encoded without padding, hence 22 characters drawn from the
/// URL-safe base64 alphabet; nothing else can be promised of a random value.
#[verifier::external_body]
fn random_state_value() -> (r: String)
    ensures
        r@.len() == 22,
        forall|i: int| 0 <= i < r@.len() ==> is_state_char(#[trigger] r@[i]),
{
    oauth2::CsrfToken::new_random().secret().clone()
}

/// Law: a state token drawn from the URL-safe base64 alphabet passes
/// through percent-encoding and percent-decoding unchanged. The state
/// embedded in the authorization URL is therefore, absent tampering,
/// exactly the value the parsed redirect hands to the equality gate.
pub proof fn lemma_state_survives_the_round_trip(st: &CsrfState)
    requires
        forall|i: int| 0 <= i < st.spec_value().len() ==> is_state_char(
            #[trigger] st.spec_value()[i],
        ),
    ensures
        pct_encoded(st.spec_value()) == st.spec_value(),
        pct_decoded(pct_encoded(st.spec_value())) == st.spec_value(),
{
    let v = st.spec_value();
    assert forall|i: int| 0 <= i < v.len() implies is_unreserved_char(#[trigger] v[i]) by {
        lemma_state_char_unreserved(v[i]);
    }
    lemma_encode_unreserved_identity(v);
    assert forall|i: int| 0 <= i < v.len() implies v[i] != '+' && v[i] != '%' by {
        lemma_state_char_unreserved(v[i]);
    }
    lemma_decode_plain_identity(v);
}

/// A state character is unreserved and is neither `+` nor `%`.
proof fn lemma_state_char_unreserved(c: char)
    requires
        is_state_char(c),
    ensures
        is_unreserved_char(c),
        c != '+',
        c != '%',
{
}

/// The bearer token obtained from the token endpoint.
pub struct AccessToken {
    secret: String,
    token_type: String,
    granted_scopes: Vec<String>,
}

impl AccessToken {
    /// The token's characters; contracts speak of the token only through this.
    pub closed spec fn spec_secret(&self) -> Seq<char> {
        self.secret@
    }

    /// The token type the provider reported.
    pub closed spec fn spec_token_type(&self) -> Seq<char> {
        self.token_type@
    }

    /// The scopes the provider granted.
    pub closed spec fn spec_granted_scopes(&self) -> Seq<Seq<char>> {
        self.granted_scopes.deep_view()
    }

    pub fn new(secret: String, token_type: String, granted_scopes: Vec<String>) -> (t:
        AccessToken)
        ensures
            t.spec_secret() == secret@,
            t.spec_token_type() == token_type@,
            t.spec_granted_scopes() == granted_scopes.deep_view(),
    {
        AccessToken { secret, token_type, granted_scopes }
    }

    pub fn token_type(&self) -> (s: &String)
        ensures
            s@ == self.spec_token_type(),
    {
        &self.token_type
    }

    pub fn granted_scopes(&self) -> (v: &Vec<String>)
        ensures
            v.deep_view() == self.spec_granted_scopes(),
    {
        &self.granted_scopes
    }

    /// Intentional exposure of the token secret.
    pub fn reveal_secret(&self) -> (s: &String)
        ensures
            s@ == self.spec_secret(),
    {
        &self.secret
    }
}

} // verus!
