//! The flow orchestrator: a linear state machine with one validation gate.
//!
//! ```text
//! start -> BuiltAuthorizationUrl -> AwaitingRedirect -> RedirectReceived
//!       -> StateValidated -> ExchangingToken -> {Succeeded | Failed}
//! ```
//!
//! The machine owns no retry logic: every terminal stage is reached after at
//! most one redirect event and at most one exchange report. The ambient work
//! — binding the listener, reading the connection, posting the exchange —
//! happens outside; each of its outcomes is fed in as one event.

use crate::authurl::{auth_url_of, check_config, config_well_formed, AuthorizationRequest,
    ProviderEndpoints};
use crate::errors::FlowError;
use crate::redirect::{parse_redirect_line, parsed_redirect, RedirectResult};
use crate::secrets::{AccessToken, ClientCredentials, CsrfState};
use vstd::prelude::*;

verus! {

/// Where a flow stands; terminal stages carry their payload.
pub enum FlowStage {
    /// The authorization URL has been composed and handed out.
    BuiltAuthorizationUrl,
    /// The loopback listener is bound and blocks for one connection.
    AwaitingRedirect,
    /// One request line was captured and parsed.
    RedirectReceived(RedirectResult),
    /// The redirect's state equalled the generated state; the code may be
    /// exchanged.
    StateValidated(String),
    /// The code has been handed out for the token-endpoint exchange.
    ExchangingToken(String),
    /// The exchange returned a token.
    Succeeded(AccessToken),
    /// The flow ended without a token.
    Failed(FlowError),
}

/// A finished flow: the token, or the failure.
pub enum FlowOutcome {
    Success(AccessToken),
    Failure(FlowError),
}

/// One authorization attempt. Created fresh per run; nothing outlives it.
pub struct Flow {
    pub credentials: ClientCredentials,
    pub request: AuthorizationRequest,
    pub stage: FlowStage,
}

/// How one captured request line moves a flow: only a flow that is awaiting
/// the redirect consumes the line; it then either holds the parsed `code`
/// and `state` or has failed on a malformed redirect. Any other flow is left
/// exactly as it was, unread.
pub open spec fn redirect_step(pre: Flow, line: Seq<char>, post: Flow, consumed: bool) -> bool {
    &&& consumed == (pre.stage is AwaitingRedirect)
    &&& if pre.stage is AwaitingRedirect {
        &&& post.credentials == pre.credentials
        &&& post.request == pre.request
        &&& match (parsed_redirect(line), post.stage) {
            (Some(cs), FlowStage::RedirectReceived(rr)) => rr.code@ == cs.0 && rr.state@ == cs.1,
            (None, FlowStage::Failed(e)) => e is MalformedRedirectError,
            _ => false,
        }
    } else {
        post == pre
    }
}

impl Flow {
    /// The validation gate: the received state must exactly equal the
    /// generated one; on a mismatch the code is discarded with the failure.
    pub open spec fn spec_validate_state(self) -> Flow {
        match self.stage {
            FlowStage::RedirectReceived(rr) => {
                if rr.state@ == self.request.state.spec_value() {
                    Flow { stage: FlowStage::StateValidated(rr.code), ..self }
                } else {
                    Flow { stage: FlowStage::Failed(FlowError::CsrfMismatchError), ..self }
                }
            },
            _ => self,
        }
    }

    /// Handing the validated code out for the exchange; only a validated
    /// flow yields a code.
    pub open spec fn spec_begin_exchange(self) -> (Flow, Option<Seq<char>>) {
        match self.stage {
            FlowStage::StateValidated(code) => {
                let c = code@;
                (Flow { stage: FlowStage::ExchangingToken(code), ..self }, Some(c))
            },
            _ => (self, None),
        }
    }

    /// A failed exchange carries the provider's diagnostic, verbatim and
    /// alone, into the failure.
    pub open spec fn spec_on_exchange_err(self, diagnostic: String) -> Flow {
        if self.stage is ExchangingToken {
            Flow { stage: FlowStage::Failed(FlowError::TokenExchangeFailed(diagnostic)), ..self }
        } else {
            self
        }
    }

    /// Composes the authorization URL for a fresh state token, or fails
    /// fast on a malformed endpoint or redirect URL, before any listener
    /// is started.
    pub fn start(
        credentials: ClientCredentials,
        endpoints: ProviderEndpoints,
        redirect_uri: String,
        scopes: Vec<String>,
    ) -> (r: Result<(Flow, String), FlowError>)
        ensures
            match r {
                Ok(p) => {
                    &&& config_well_formed(endpoints.authorize_url@, endpoints.token_url@, redirect_uri@)
                    &&& p.0.stage is BuiltAuthorizationUrl
                    &&& p.0.credentials == credentials
                    &&& p.0.request.endpoints == endpoints
                    &&& p.0.request.client_id@ == credentials.spec_client_id()
                    &&& p.0.request.redirect_uri == redirect_uri
                    &&& p.0.request.scopes == scopes
                    &&& p.0.request.state.spec_value().len() == 22
                    &&& forall|i: int| 0 <= i < p.0.request.state.spec_value().len()
                        ==> crate::secrets::is_state_char(#[trigger] p.0.request.state.spec_value()[i])
                    &&& p.1@ == auth_url_of(
                        endpoints.authorize_url@,
                        credentials.spec_client_id(),
                        redirect_uri@,
                        scopes.deep_view(),
                        p.0.request.state.spec_value(),
                    )
                },
                Err(e) => {
                    &&& !config_well_formed(endpoints.authorize_url@, endpoints.token_url@, redirect_uri@)
                    &&& e is ConfigurationError
                },
            },
    {
        if !check_config(&endpoints, redirect_uri.as_str()) {
            return Err(FlowError::ConfigurationError);
        }
        let state = CsrfState::new_random();
        let client_id = credentials.client_id().clone();
        let request = AuthorizationRequest { endpoints, client_id, redirect_uri, scopes, state };
        let url = request.authorization_url();
        Ok((Flow { credentials, request, stage: FlowStage::BuiltAuthorizationUrl }, url))
    }

    /// The listener is bound: the flow now blocks for one connection.
    pub fn on_listener_bound(self) -> (r: (Flow, bool))
        ensures
            r.1 == (self.stage is BuiltAuthorizationUrl),
            r.1 ==> r.0 == (Flow { stage: FlowStage::AwaitingRedirect, ..self }),
            !r.1 ==> r.0 == self,
    {
        let Flow { credentials, request, stage } = self;
        match stage {
            FlowStage::BuiltAuthorizationUrl => (
                Flow { credentials, request, stage: FlowStage::AwaitingRedirect },
                true,
            ),
            other => (Flow { credentials, request, stage: other }, false),
        }
    }

    /// The loopback address could not be bound: fatal for this flow.
    pub fn on_bind_failed(self) -> (r: Flow)
        ensures
            self.stage is BuiltAuthorizationUrl ==> r == (Flow {
                stage: FlowStage::Failed(FlowError::ListenerBindError),
                ..self
            }),
            !(self.stage is BuiltAuthorizationUrl) ==> r == self,
    {
        let Flow { credentials, request, stage } = self;
        match stage {
            FlowStage::BuiltAuthorizationUrl => Flow {
                credentials,
                request,
                stage: FlowStage::Failed(FlowError::ListenerBindError),
            },
            other => Flow { credentials, request, stage: other },
        }
    }

    /// The transport failed while awaiting the redirect: fatal for this flow.
    pub fn on_accept_failed(self) -> (r: Flow)
        ensures
            self.stage is AwaitingRedirect ==> r == (Flow {
                stage: FlowStage::Failed(FlowError::ListenerAcceptError),
                ..self
            }),
            !(self.stage is AwaitingRedirect) ==> r == self,
    {
        let Flow { credentials, request, stage } = self;
        match stage {
            FlowStage::AwaitingRedirect => Flow {
                credentials,
                request,
                stage: FlowStage::Failed(FlowError::ListenerAcceptError),
            },
            other => Flow { credentials, request, stage: other },
        }
    }

    /// The caller's deadline passed while awaiting the redirect.
    pub fn on_timeout(self) -> (r: Flow)
        ensures
            self.stage is AwaitingRedirect ==> r == (Flow {
                stage: FlowStage::Failed(FlowError::TimeoutError),
                ..self
            }),
            !(self.stage is AwaitingRedirect) ==> r == self,
    {
        let Flow { credentials, request, stage } = self;
        match stage {
            FlowStage::AwaitingRedirect => Flow {
                credentials,
                request,
                stage: FlowStage::Failed(FlowError::TimeoutError),
            },
            other => Flow { credentials, request, stage: other },
        }
    }

    /// Feeds the one captured request line into the flow.
    pub fn on_redirect_line(self, line: &str) -> (r: (Flow, bool))
        ensures
            redirect_step(self, line@, r.0, r.1),
    {
        let Flow { credentials, request, stage } = self;
        match stage {
            FlowStage::AwaitingRedirect => {
                match parse_redirect_line(line) {
                    Ok(rr) => (
                        Flow { credentials, request, stage: FlowStage::RedirectReceived(rr) },
                        true,
                    ),
                    Err(e) => (
                        Flow { credentials, request, stage: FlowStage::Failed(e) },
                        true,
                    ),
                }
            },
            other => (Flow { credentials, request, stage: other }, false),
        }
    }

    /// Compares the received state against the generated one; a mismatch
    /// fails the flow and the code received alongside it is never exchanged.
    pub fn validate_state(self) -> (r: (Flow, bool))
        ensures
            r.0 == self.spec_validate_state(),
            r.1 == (self.stage matches FlowStage::RedirectReceived(rr) && rr.state@
                == self.request.state.spec_value()),
    {
        let Flow { credentials, request, stage } = self;
        match stage {
            FlowStage::RedirectReceived(rr) => {
                if request.state.matches_received(rr.state.as_str()) {
                    (
                        Flow { credentials, request, stage: FlowStage::StateValidated(rr.code) },
                        true,
                    )
                } else {
                    (
                        Flow {
                            credentials,
                            request,
                            stage: FlowStage::Failed(FlowError::CsrfMismatchError),
                        },
                        false,
                    )
                }
            },
            other => (Flow { credentials, request, stage: other }, false),
        }
    }

    /// Hands the validated code out for the token-endpoint exchange.
    pub fn begin_exchange(self) -> (r: (Flow, Option<String>))
        ensures
            r.0 == self.spec_begin_exchange().0,
            match r.1 {
                Some(code) => self.spec_begin_exchange().1 == Some(code@),
                None => self.spec_begin_exchange().1 is None,
            },
    {
        let Flow { credentials, request, stage } = self;
        match stage {
            FlowStage::StateValidated(code) => {
                let handed = code.clone();
                (
                    Flow { credentials, request, stage: FlowStage::ExchangingToken(code) },
                    Some(handed),
                )
            },
            other => (Flow { credentials, request, stage: other }, None),
        }
    }

    /// The exchange returned a token: the flow succeeds with exactly the
    /// provider's secret, token type and granted scopes.
    pub fn on_exchange_ok(self, secret: String, token_type: String, granted: Vec<String>) -> (r:
        (Flow, bool))
        ensures
            r.1 == (self.stage is ExchangingToken),
            r.1 ==> {
                &&& r.0.credentials == self.credentials
                &&& r.0.request == self.request
                &&& match r.0.stage {
                    FlowStage::Succeeded(t) => {
                        &&& t.spec_secret() == secret@
                        &&& t.spec_token_type() == token_type@
                        &&& t.spec_granted_scopes() == granted.deep_view()
                    },
                    _ => false,
                }
            },
            !r.1 ==> r.0 == self,
    {
        let Flow { credentials, request, stage } = self;
        match stage {
            FlowStage::ExchangingToken(_) => {
                let token = AccessToken::new(secret, token_type, granted);
                (Flow { credentials, request, stage: FlowStage::Succeeded(token) }, true)
            },
            other => (Flow { credentials, request, stage: other }, false),
        }
    }

    /// The exchange failed: the flow fails with the provider's diagnostic,
    /// verbatim and alone.
    pub fn on_exchange_err(self, diagnostic: String) -> (r: Flow)
        ensures
            r == self.spec_on_exchange_err(diagnostic),
    {
        let Flow { credentials, request, stage } = self;
        match stage {
            FlowStage::ExchangingToken(_) => Flow {
                credentials,
                request,
                stage: FlowStage::Failed(FlowError::TokenExchangeFailed(diagnostic)),
            },
            other => Flow { credentials, request, stage: other },
        }
    }

    /// The terminal result, if the flow has reached one.
    pub fn take_outcome(self) -> (r: Option<FlowOutcome>)
        ensures
            match self.stage {
                FlowStage::Succeeded(t) => r == Some(FlowOutcome::Success(t)),
                FlowStage::Failed(e) => r == Some(FlowOutcome::Failure(e)),
                _ => r is None,
            },
    {
        match self.stage {
            FlowStage::Succeeded(t) => Some(FlowOutcome::Success(t)),
            FlowStage::Failed(e) => Some(FlowOutcome::Failure(e)),
            _ => None,
        }
    }
}

/// Law: if the redirect's state differs from the state embedded in the
/// authorization request, validation fails the flow with a CSRF error, and
/// beginning an exchange afterwards yields no code and changes nothing —
/// the token exchange is never invoked.
pub proof fn lemma_csrf_mismatch_blocks_exchange(f: Flow)
    requires
        f.stage matches FlowStage::RedirectReceived(rr) && rr.state@
            != f.request.state.spec_value(),
    ensures
        f.spec_validate_state().stage matches FlowStage::Failed(e) && e is CsrfMismatchError,
        f.spec_validate_state().spec_begin_exchange().1 is None,
        f.spec_validate_state().spec_begin_exchange().0 == f.spec_validate_state(),
{
}

/// Law: a redirect whose query lacks `code` or `state` fails the flow with
/// a malformed-redirect error, and beginning an exchange afterwards yields
/// no code — the flow fails before any exchange attempt.
pub proof fn lemma_malformed_redirect_blocks_exchange(
    f: Flow,
    line: Seq<char>,
    g: Flow,
    consumed: bool,
)
    requires
        f.stage is AwaitingRedirect,
        redirect_step(f, line, g, consumed),
        parsed_redirect(line) is None,
    ensures
        consumed,
        g.stage matches FlowStage::Failed(e) && e is MalformedRedirectError,
        g.spec_begin_exchange().1 is None,
        g.spec_begin_exchange().0 == g,
{
}

/// Law: if the redirect's `state` differs from the state embedded in the
/// authorization request, then after the captured line is consumed,
/// validation fails the flow with a CSRF error and no code is ever handed
/// to the exchange — the code that arrived beside the bad state is
/// discarded.
pub proof fn lemma_forged_redirect_never_exchanges(
    f: Flow,
    line: Seq<char>,
    g: Flow,
    consumed: bool,
    code: Seq<char>,
    state: Seq<char>,
)
    requires
        f.stage is AwaitingRedirect,
        redirect_step(f, line, g, consumed),
        parsed_redirect(line) == Some((code, state)),
        state != f.request.state.spec_value(),
    ensures
        consumed,
        g.spec_validate_state().stage matches FlowStage::Failed(e) && e is CsrfMismatchError,
        g.spec_validate_state().spec_begin_exchange().1 is None,
        g.spec_validate_state().spec_begin_exchange().0 == g.spec_validate_state(),
{
}

/// Law: a redirect carrying the matching state hands exactly its code to
/// the exchange: after the line is consumed and validated, beginning the
/// exchange yields that code and no other.
pub proof fn lemma_matching_redirect_hands_code_to_exchange(
    f: Flow,
    line: Seq<char>,
    g: Flow,
    consumed: bool,
    code: Seq<char>,
    state: Seq<char>,
)
    requires
        f.stage is AwaitingRedirect,
        redirect_step(f, line, g, consumed),
        parsed_redirect(line) == Some((code, state)),
        state == f.request.state.spec_value(),
    ensures
        consumed,
        g.spec_validate_state().stage matches FlowStage::StateValidated(c) && c@ == code,
        g.spec_validate_state().spec_begin_exchange().1 == Some(code),
{
}

/// Law: with a matching state, validation hands exactly the redirect's code
/// to the exchange stage, and beginning the exchange yields exactly that code.
pub proof fn lemma_matching_state_reaches_exchange(f: Flow, rr: RedirectResult)
    requires
        f.stage == FlowStage::RedirectReceived(rr),
        rr.state@ == f.request.state.spec_value(),
    ensures
        f.spec_validate_state().stage == FlowStage::StateValidated(rr.code),
        f.spec_validate_state().spec_begin_exchange().1 == Some(rr.code@),
        f.spec_validate_state().spec_begin_exchange().0.stage == FlowStage::ExchangingToken(
            rr.code,
        ),
{
}

/// Law: a terminal flow is final. Once succeeded or failed, validation,
/// beginning an exchange and exchange reports all leave the flow exactly
/// as it is and hand out no code: there is no retry, and re-running a
/// fresh flow is the only recovery path.
pub proof fn lemma_terminal_stages_absorb(f: Flow, diagnostic: String)
    requires
        f.stage is Succeeded || f.stage is Failed,
    ensures
        f.spec_validate_state() == f,
        f.spec_begin_exchange().0 == f,
        f.spec_begin_exchange().1 is None,
        f.spec_on_exchange_err(diagnostic) == f,
{
}

/// Law: when the token endpoint reports an error, the flow fails with a
/// token-exchange failure whose diagnostic is the provider's text, verbatim
/// and alone — nothing else, in particular not the code, is carried into
/// the failure's display form.
pub proof fn lemma_exchange_failure_reports_provider_text(f: Flow, diagnostic: String)
    requires
        f.stage is ExchangingToken,
    ensures
        f.spec_on_exchange_err(diagnostic).stage == FlowStage::Failed(
            FlowError::TokenExchangeFailed(diagnostic),
        ),
        crate::errors::spec_describe(&FlowError::TokenExchangeFailed(diagnostic))
            == "token exchange failed: "@ + diagnostic@,
{
}

/// Law: a flow consumes at most one redirect event. After a first captured
/// line moves the flow on, a second line is not consumed and leaves the
/// flow exactly as it was.
pub proof fn lemma_listener_single_shot(
    f: Flow,
    line1: Seq<char>,
    g: Flow,
    c1: bool,
    line2: Seq<char>,
    h: Flow,
    c2: bool,
)
    requires
        f.stage is AwaitingRedirect,
        redirect_step(f, line1, g, c1),
        redirect_step(g, line2, h, c2),
    ensures
        c1,
        !c2,
        h == g,
{
}

} // verus!
