//! The ways a flow can end without a token.

use vstd::prelude::*;
use vstd::string::*;

verus! {

/// Everything that can end an authorization flow without a token.
/// `TokenExchangeFailed` carries the provider's diagnostic text and
/// nothing else.
pub enum FlowError {
    /// Missing credentials or a malformed endpoint / redirect URL.
    ConfigurationError,
    /// The loopback address or port was unavailable.
    ListenerBindError,
    /// The transport failed while awaiting the redirect.
    ListenerAcceptError,
    /// The request line was unparsable, or `code` or `state` was absent.
    MalformedRedirectError,
    /// The redirect's `state` did not equal the generated state.
    CsrfMismatchError,
    /// The token endpoint reported an error or could not be reached.
    TokenExchangeFailed(String),
    /// The caller's deadline passed while awaiting the redirect.
    TimeoutError,
    /// A downstream resource API answered with a non-success status. Reported
    /// at the collaborator boundary; it does not invalidate an obtained token.
    ResourceRequestFailed(String),
}

/// The diagnostic text for each error, naming the stage that failed.
pub open spec fn spec_describe(e: &FlowError) -> Seq<char> {
    match e {
        FlowError::ConfigurationError => "configuration error: malformed endpoint or redirect URL"@,
        FlowError::ListenerBindError => "listener error: could not bind the loopback address"@,
        FlowError::ListenerAcceptError => "listener error: could not accept the redirect connection"@,
        FlowError::MalformedRedirectError => "malformed redirect: request line or code/state parameter missing"@,
        FlowError::CsrfMismatchError => "csrf mismatch: the redirect state does not equal the generated state"@,
        FlowError::TokenExchangeFailed(d) => "token exchange failed: "@ + d@,
        FlowError::TimeoutError => "timed out awaiting the redirect"@,
        FlowError::ResourceRequestFailed(d) => "resource request failed: "@ + d@,
    }
}

impl FlowError {
    /// A diagnostic message identifying which stage failed.
    pub fn describe(&self) -> (s: String)
        ensures
            s@ == spec_describe(self),
    {
        match self {
            FlowError::ConfigurationError => "configuration error: malformed endpoint or redirect URL".to_owned(),
            FlowError::ListenerBindError => "listener error: could not bind the loopback address".to_owned(),
            FlowError::ListenerAcceptError => "listener error: could not accept the redirect connection".to_owned(),
            FlowError::MalformedRedirectError => "malformed redirect: request line or code/state parameter missing".to_owned(),
            FlowError::CsrfMismatchError => "csrf mismatch: the redirect state does not equal the generated state".to_owned(),
            FlowError::TokenExchangeFailed(d) => {
                let mut s = "token exchange failed: ".to_owned();
                s.append(d.as_str());
                s
            },
            FlowError::TimeoutError => "timed out awaiting the redirect".to_owned(),
            FlowError::ResourceRequestFailed(d) => {
                let mut s = "resource request failed: ".to_owned();
                s.append(d.as_str());
                s
            },
        }
    }
}

} // verus!
