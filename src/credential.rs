//! The credential-acquisition filter: on requests bound for the protected
//! downstream it pauses, asks the credential-vending endpoint for a bearer
//! token, writes it into the Authorization header and resumes. Every failure
//! lets the request through without a credential.
use crate::endpoint::{Endpoint, CALLOUT_TIMEOUT_MS};
use crate::json::{credential_request, credential_request_body};
use crate::text::{opt_chars, same_text};
use vstd::prelude::*;

verus! {

/// The names under which the protected downstream is addressed.
pub open spec fn protected_authority(a: Seq<char>) -> bool {
    a == "service-b:8083"@ || a == "service-b"@ || a == "envoy-service-b:10001"@
}

/// The identity this side presents to the credential-vending endpoint.
pub open spec fn own_service_id() -> Seq<char> {
    "service-a"@
}

/// The body of the credential call made for a request with this
/// `:authority`, or `None` where the request passes through untouched.
pub open spec fn credential_callout(authority: Option<Seq<char>>) -> Option<Seq<char>> {
    match authority {
        Some(a) => if protected_authority(a) {
            Some(credential_request(own_service_id()))
        } else {
            None
        },
        None => None,
    }
}

/// The Authorization value to install for a credential response, where it
/// carries a usable token. `None` stands for a missing or unparsable body.
pub open spec fn authorization_for(response: Option<CredentialResponse>) -> Option<Seq<char>> {
    match response {
        Some(resp) => if resp.token@.len() > 0 {
            Some("Bearer "@ + resp.token@)
        } else {
            None
        },
        None => None,
    }
}

/// A parsed answer of the credential-vending endpoint.
pub struct CredentialResponse {
    pub token: String,
    pub expires_in: i64,
}

#[derive(PartialEq, Eq, Structural, Clone, Copy, Debug)]
pub enum ClientPhase {
    AwaitingHeaders,
    AwaitingCredential,
    Forwarded,
}

/// What the host does after the request headers were seen.
pub enum CredentialHeaderAction {
    /// Let the request go on as it is.
    Continue,
    /// Send this body to the credential-vending endpoint and pause the request.
    Dispatch { body: String },
}

/// What the host does after the credential call came back.
pub enum CredentialCallAction {
    /// The request was not waiting for a credential: do nothing.
    Ignore,
    /// Resume the request with its headers as they are.
    Resume,
    /// Set the Authorization header to `value`, replacing any earlier one,
    /// then resume the request.
    SetAuthorizationAndResume { value: String },
}

/// The per-request state of the credential-acquisition filter.
pub struct CredentialFilter {
    phase: ClientPhase,
}

/// Whether a request to `authority` is one this filter fetches a credential for.
pub fn is_protected_authority(authority: &str) -> (r: bool)
    ensures
        r == protected_authority(authority@),
{
    same_text(authority, "service-b:8083") || same_text(authority, "service-b")
        || same_text(authority, "envoy-service-b:10001")
}

/// The credential-vending endpoint.
pub fn credential_endpoint() -> (r: Endpoint)
    ensures
        r.cluster@ == "jwt-vending-service"@,
        r.method@ == "POST"@,
        r.content_type@ == "application/json"@,
        r.path@ == "/token/valid"@,
        r.authority@ == "jwt-vending-service:8081"@,
        r.timeout_ms == CALLOUT_TIMEOUT_MS,
{
    Endpoint {
        cluster: String::from_str("jwt-vending-service"),
        method: String::from_str("POST"),
        content_type: String::from_str("application/json"),
        path: String::from_str("/token/valid"),
        authority: String::from_str("jwt-vending-service:8081"),
        timeout_ms: CALLOUT_TIMEOUT_MS,
    }
}

impl CredentialFilter {
    pub closed spec fn spec_phase(&self) -> ClientPhase {
        self.phase
    }

    pub fn new() -> (r: CredentialFilter)
        ensures
            r.spec_phase() == ClientPhase::AwaitingHeaders,
    {
        CredentialFilter { phase: ClientPhase::AwaitingHeaders }
    }

    pub fn phase(&self) -> (r: ClientPhase)
        ensures
            r == self.spec_phase(),
    {
        self.phase
    }

    /// Header phase: decides from the `:authority` header whether to fetch a
    /// credential.
    pub fn on_http_request_headers(&mut self, authority: Option<&str>) -> (r: CredentialHeaderAction)
        requires
            old(self).spec_phase() == ClientPhase::AwaitingHeaders,
        ensures
            match r {
                CredentialHeaderAction::Continue => {
                    &&& credential_callout(opt_chars(authority)) is None
                    &&& final(self).spec_phase() == ClientPhase::Forwarded
                },
                CredentialHeaderAction::Dispatch { body } => {
                    &&& credential_callout(opt_chars(authority)) == Some(body@)
                    &&& final(self).spec_phase() == ClientPhase::AwaitingCredential
                },
            },
    {
        let a = match authority {
            Some(a) => a,
            None => {
                self.phase = ClientPhase::Forwarded;
                return CredentialHeaderAction::Continue;
            },
        };
        if !is_protected_authority(a) {
            self.phase = ClientPhase::Forwarded;
            return CredentialHeaderAction::Continue;
        }
        let service = "service-a";
        assert(service@ == own_service_id());
        let body = credential_request_body(service);
        self.phase = ClientPhase::AwaitingCredential;
        CredentialHeaderAction::Dispatch { body }
    }

    /// The credential call could not be sent: the request goes on without a
    /// credential.
    pub fn on_dispatch_failed(&mut self) -> (r: CredentialHeaderAction)
        ensures
            r is Continue,
            old(self).spec_phase() == ClientPhase::AwaitingCredential ==> final(self).spec_phase()
                == ClientPhase::Forwarded,
            old(self).spec_phase() != ClientPhase::AwaitingCredential ==> *final(self) == *old(self),
    {
        if self.phase == ClientPhase::AwaitingCredential {
            self.phase = ClientPhase::Forwarded;
        }
        CredentialHeaderAction::Continue
    }

    /// Response phase: `response` is the parsed body of the credential call,
    /// `None` where it was missing or did not parse.
    pub fn on_http_call_response(&mut self, response: Option<CredentialResponse>) -> (r:
        CredentialCallAction)
        ensures
            authorization_for(response) is None ==> !(r is SetAuthorizationAndResume),
            old(self).spec_phase() != ClientPhase::AwaitingCredential ==> {
                &&& r is Ignore
                &&& *final(self) == *old(self)
            },
            old(self).spec_phase() == ClientPhase::AwaitingCredential ==> {
                &&& final(self).spec_phase() == ClientPhase::Forwarded
                &&& match r {
                    CredentialCallAction::Resume => authorization_for(response) is None,
                    CredentialCallAction::SetAuthorizationAndResume { value } => authorization_for(
                        response,
                    ) == Some(value@),
                    CredentialCallAction::Ignore => false,
                }
            },
    {
        if self.phase != ClientPhase::AwaitingCredential {
            return CredentialCallAction::Ignore;
        }
        self.phase = ClientPhase::Forwarded;
        match response {
            Some(resp) => {
                if resp.token.as_str().unicode_len() == 0 {
                    CredentialCallAction::Resume
                } else {
                    let value = String::from_str("Bearer ").concat(resp.token.as_str());
                    CredentialCallAction::SetAuthorizationAndResume { value }
                }
            },
            None => CredentialCallAction::Resume,
        }
    }
}

/// A request whose `:authority` is not one of the protected names causes no
/// credential call: it passes through with its headers as they were.
pub proof fn unlisted_authority_passes_through(authority: Seq<char>)
    requires
        !protected_authority(authority),
    ensures
        credential_callout(Some(authority)) is None,
{
}

/// A credential response that is missing, unparsable or carries an empty token
/// installs nothing: the request resumes with its Authorization header as it was.
pub proof fn failed_acquisition_keeps_authorization(response: Option<CredentialResponse>)
    requires
        response matches Some(r) ==> r.token@.len() == 0,
    ensures
        authorization_for(response) is None,
{
}

/// A credential response with a non-empty token sets Authorization to exactly
/// `Bearer <token>`, whatever it held before.
pub proof fn token_becomes_bearer_authorization(response: CredentialResponse)
    requires
        response.token@.len() > 0,
    ensures
        authorization_for(Some(response)) == Some("Bearer "@ + response.token@),
{
}

} // verus!
