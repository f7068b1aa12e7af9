//! The policy-enforcement filter: it checks the bearer credential of an
//! inbound request, asks the policy-decision endpoint whether the caller may
//! act on the requested resource, and either resumes the request with the
//! decision attached or rejects it. It fails closed.
use crate::endpoint::{Endpoint, CALLOUT_TIMEOUT_MS};
use crate::json::{
    evaluation_request, evaluation_request_body, forbidden_body, forbidden_json,
    unauthorized_body, unauthorized_json,
};
use crate::text::{find, find_from, has_prefix, occurs_at, opt_chars, same_text, starts_with};
use vstd::prelude::*;

verus! {

/// The query key that names the resource.
pub open spec fn asset_key() -> Seq<char> {
    "asset="@
}

/// The value of the first `asset=` in `path`, up to the next `&` or the end;
/// empty where `path` holds no `asset=`.
pub open spec fn asset_param(path: Seq<char>) -> Seq<char> {
    match find_from(path, asset_key(), 0) {
        None => Seq::empty(),
        Some(k) => {
            let rest = path.subrange((k + asset_key().len()) as int, path.len() as int);
            match find_from(rest, "&"@, 0) {
                Some(e) => rest.subrange(0, e as int),
                None => rest,
            }
        },
    }
}

/// The resource a request asks for: its `asset=` value, or `default-asset`.
pub open spec fn resource_of(path: Seq<char>) -> Seq<char> {
    if asset_param(path).len() == 0 {
        "default-asset"@
    } else {
        asset_param(path)
    }
}

/// The caller identity: the `X-Service-ID` header as given, or `service-a`.
pub open spec fn principal_of(service_id: Option<Seq<char>>) -> Seq<char> {
    match service_id {
        Some(s) => s,
        None => "service-a"@,
    }
}

pub open spec fn bearer_prefix() -> Seq<char> {
    "Bearer "@
}

/// The token of an Authorization value that begins with `Bearer `.
pub open spec fn bearer_token_of(authorization: Seq<char>) -> Seq<char> {
    authorization.subrange(bearer_prefix().len() as int, authorization.len() as int)
}

/// The outcome of the header phase.
pub enum InboundVerdict {
    /// The request goes on untouched.
    PassThrough,
    /// The request is answered with this status and body.
    Reject { status: u16, body: Seq<char> },
    /// The request waits while this body is sent to the policy-decision endpoint.
    Evaluate { body: Seq<char> },
}

/// What the header phase decides from `:path`, `Authorization` and `X-Service-ID`.
pub open spec fn inbound_verdict(
    path: Option<Seq<char>>,
    authorization: Option<Seq<char>>,
    service_id: Option<Seq<char>>,
) -> InboundVerdict {
    match (path, authorization) {
        (None, _) => InboundVerdict::PassThrough,
        (Some(_), None) => InboundVerdict::Reject {
            status: 401,
            body: unauthorized_json("Missing Authorization header"@),
        },
        (Some(p), Some(a)) => if !has_prefix(a, bearer_prefix()) {
            InboundVerdict::Reject {
                status: 401,
                body: unauthorized_json("Invalid Authorization header format"@),
            }
        } else {
            InboundVerdict::Evaluate {
                body: evaluation_request(principal_of(service_id), resource_of(p)),
            }
        },
    }
}

/// The outcome of the evaluation phase.
pub enum EvaluationVerdict {
    /// Answer with 403 and this body.
    Reject { body: Seq<char> },
    /// Resume the request; the policy gave this reason.
    Admit { reason: Seq<char> },
}

/// The 403 body for an evaluation that could not be made or read.
pub open spec fn evaluation_failed_json() -> Seq<char> {
    forbidden_json("Policy evaluation failed"@, ""@)
}

/// What the evaluation phase decides from the parsed response, `None` where
/// the body was missing or did not parse. Only the first decision counts.
pub open spec fn evaluation_verdict(response: Option<EvaluationResponse>) -> EvaluationVerdict {
    match response {
        None => EvaluationVerdict::Reject { body: evaluation_failed_json() },
        Some(r) => if r.decisions@.len() == 0 {
            EvaluationVerdict::Reject { body: evaluation_failed_json() }
        } else if r.decisions@[0].decision@ == "Allow"@ {
            EvaluationVerdict::Admit { reason: r.decisions@[0].reason@ }
        } else {
            EvaluationVerdict::Reject {
                body: forbidden_json("Access denied by policy"@, r.decisions@[0].reason@),
            }
        },
    }
}

/// The headers added to an admitted request, as name and value.
pub open spec fn admitted_headers(reason: Seq<char>, principal: Seq<char>) -> Seq<
    (Seq<char>, Seq<char>),
> {
    seq![
        ("X-PDP-Decision"@, "Allow"@),
        ("X-PDP-Reason"@, reason),
        ("X-Principal-ID"@, principal),
    ]
}

pub open spec fn header_pairs(headers: Seq<Header>) -> Seq<(Seq<char>, Seq<char>)> {
    headers.map_values(|h: Header| (h.name@, h.value@))
}

/// One decision of the policy-decision endpoint.
pub struct Decision {
    pub decision: String,
    pub reason: String,
}

/// A parsed answer of the policy-decision endpoint.
pub struct EvaluationResponse {
    pub decisions: Vec<Decision>,
}

pub struct Header {
    pub name: String,
    pub value: String,
}

/// A terminal response produced by the filter itself.
pub struct Rejection {
    pub status: u16,
    pub content_type: String,
    pub body: String,
}

#[derive(PartialEq, Eq, Structural, Clone, Copy, Debug)]
pub enum PolicyPhase {
    AwaitingHeaders,
    AwaitingEvaluation,
    Forwarded,
    Rejected,
}

/// What the host does after the request headers were seen.
pub enum PolicyHeaderAction {
    /// Let the request go on as it is.
    Continue,
    /// Send this response and keep the request paused for good.
    Reject(Rejection),
    /// Send this body to the policy-decision endpoint and pause the request.
    Dispatch { body: String },
}

/// What the host does once the evaluation is over.
pub enum PolicyCallAction {
    /// The request was not waiting for an evaluation: do nothing.
    Ignore,
    /// Send this response and keep the request paused for good.
    Reject(Rejection),
    /// Add these headers to the request and resume it.
    Resume { headers: Vec<Header> },
}

/// The per-request state of the policy-enforcement filter.
pub struct PolicyFilter {
    phase: PolicyPhase,
    bearer_token: String,
    principal_id: String,
    resource_id: String,
}

/// The value of the first `asset=` query key of `path`, up to the next `&`;
/// empty where there is none.
pub fn extract_asset_from_path(path: &str) -> (r: String)
    ensures
        r@ == asset_param(path@),
{
    let key = "asset=";
    match find(path, key) {
        None => String::new(),
        Some(k) => {
            proof {
                crate::text::lemma_find_from_occurs(path@, key@, 0);
            }
            let n = path.unicode_len();
            let rest = path.substring_char(k + key.unicode_len(), n);
            match find(rest, "&") {
                Some(e) => {
                    proof {
                        crate::text::lemma_find_from_occurs(rest@, "&"@, 0);
                    }
                    String::from_str(rest.substring_char(0, e))
                },
                None => String::from_str(rest),
            }
        },
    }
}

/// The policy-decision endpoint.
pub fn policy_endpoint() -> (r: Endpoint)
    ensures
        r.cluster@ == "sgnl-pdp-service"@,
        r.method@ == "POST"@,
        r.content_type@ == "application/json"@,
        r.path@ == "/access/v2/evaluations"@,
        r.authority@ == "sgnl-pdp-service:8082"@,
        r.timeout_ms == CALLOUT_TIMEOUT_MS,
{
    Endpoint {
        cluster: String::from_str("sgnl-pdp-service"),
        method: String::from_str("POST"),
        content_type: String::from_str("application/json"),
        path: String::from_str("/access/v2/evaluations"),
        authority: String::from_str("sgnl-pdp-service:8082"),
        timeout_ms: CALLOUT_TIMEOUT_MS,
    }
}

/// A 401 rejection with body `{"error":<message>}`, the message written as a
/// JSON string.
pub fn send_unauthorized_response(message: &str) -> (r: Rejection)
    ensures
        r.status == 401,
        r.content_type@ == "application/json"@,
        r.body@ == unauthorized_json(message@),
{
    Rejection {
        status: 401,
        content_type: String::from_str("application/json"),
        body: unauthorized_body(message),
    }
}

/// A 403 rejection carrying the policy's reason, message and reason written
/// as JSON strings.
pub fn send_forbidden_response(message: &str, reason: &str) -> (r: Rejection)
    ensures
        r.status == 403,
        r.content_type@ == "application/json"@,
        r.body@ == forbidden_json(message@, reason@),
{
    Rejection {
        status: 403,
        content_type: String::from_str("application/json"),
        body: forbidden_body(message, reason),
    }
}

impl PolicyFilter {
    pub closed spec fn spec_phase(&self) -> PolicyPhase {
        self.phase
    }

    pub closed spec fn spec_bearer_token(&self) -> Seq<char> {
        self.bearer_token@
    }

    pub closed spec fn spec_principal(&self) -> Seq<char> {
        self.principal_id@
    }

    pub closed spec fn spec_resource(&self) -> Seq<char> {
        self.resource_id@
    }

    /// Token, principal and resource are the same in both states.
    pub open spec fn same_request_data(&self, other: &PolicyFilter) -> bool {
        &&& self.spec_bearer_token() == other.spec_bearer_token()
        &&& self.spec_principal() == other.spec_principal()
        &&& self.spec_resource() == other.spec_resource()
    }

    pub fn new() -> (r: PolicyFilter)
        ensures
            r.spec_phase() == PolicyPhase::AwaitingHeaders,
            r.spec_bearer_token().len() == 0,
            r.spec_principal().len() == 0,
            r.spec_resource().len() == 0,
    {
        PolicyFilter {
            phase: PolicyPhase::AwaitingHeaders,
            bearer_token: String::new(),
            principal_id: String::new(),
            resource_id: String::new(),
        }
    }

    pub fn phase(&self) -> (r: PolicyPhase)
        ensures
            r == self.spec_phase(),
    {
        self.phase
    }

    pub fn bearer_token(&self) -> (r: &str)
        ensures
            r@ == self.spec_bearer_token(),
    {
        self.bearer_token.as_str()
    }

    pub fn principal_id(&self) -> (r: &str)
        ensures
            r@ == self.spec_principal(),
    {
        self.principal_id.as_str()
    }

    pub fn resource_id(&self) -> (r: &str)
        ensures
            r@ == self.spec_resource(),
    {
        self.resource_id.as_str()
    }
    /// Header phase: checks the credential, derives principal and resource,
    /// and either answers the request or asks for an evaluation.
    pub fn on_http_request_headers(
        &mut self,
        path: Option<&str>,
        authorization: Option<&str>,
        service_id: Option<&str>,
    ) -> (r: PolicyHeaderAction)
        requires
            old(self).spec_phase() == PolicyPhase::AwaitingHeaders,
        ensures
            match r {
                PolicyHeaderAction::Continue => {
                    &&& inbound_verdict(opt_chars(path), opt_chars(authorization), opt_chars(service_id)) is PassThrough
                    &&& final(self).spec_phase() == PolicyPhase::Forwarded
                    &&& final(self).same_request_data(old(self))
                },
                PolicyHeaderAction::Reject(rej) => {
                    &&& inbound_verdict(opt_chars(path), opt_chars(authorization), opt_chars(service_id))
                        == (InboundVerdict::Reject { status: rej.status, body: rej.body@ })
                    &&& rej.content_type@ == "application/json"@
                    &&& final(self).spec_phase() == PolicyPhase::Rejected
                    &&& final(self).same_request_data(old(self))
                },
                PolicyHeaderAction::Dispatch { body } => {
                    &&& inbound_verdict(opt_chars(path), opt_chars(authorization), opt_chars(service_id))
                        == (InboundVerdict::Evaluate { body: body@ })
                    &&& final(self).spec_phase() == PolicyPhase::AwaitingEvaluation
                    &&& final(self).spec_bearer_token() == bearer_token_of(authorization.unwrap()@)
                    &&& final(self).spec_principal() == principal_of(opt_chars(service_id))
                    &&& final(self).spec_resource() == resource_of(path.unwrap()@)
                },
            },
    {
        let p = match path {
            Some(p) => p,
            None => {
                self.phase = PolicyPhase::Forwarded;
                return PolicyHeaderAction::Continue;
            },
        };
        let auth = match authorization {
            Some(a) => a,
            None => {
                self.phase = PolicyPhase::Rejected;
                return PolicyHeaderAction::Reject(
                    send_unauthorized_response("Missing Authorization header"),
                );
            },
        };
        let prefix = "Bearer ";
        if !starts_with(auth, prefix) {
            self.phase = PolicyPhase::Rejected;
            return PolicyHeaderAction::Reject(
                send_unauthorized_response("Invalid Authorization header format"),
            );
        }
        let n = auth.unicode_len();
        self.bearer_token = String::from_str(auth.substring_char(prefix.unicode_len(), n));
        self.principal_id = match service_id {
            Some(s) => String::from_str(s),
            None => String::from_str("service-a"),
        };
        let asset = extract_asset_from_path(p);
        self.resource_id = if asset.as_str().unicode_len() == 0 {
            String::from_str("default-asset")
        } else {
            asset
        };
        let body = evaluation_request_body(self.principal_id.as_str(), self.resource_id.as_str());
        self.phase = PolicyPhase::AwaitingEvaluation;
        PolicyHeaderAction::Dispatch { body }
    }

    /// The evaluation call could not be sent: the request is refused as if the
    /// policy had denied it.
    pub fn on_dispatch_failed(&mut self) -> (r: PolicyCallAction)
        ensures
            old(self).spec_phase() != PolicyPhase::AwaitingEvaluation ==> {
                &&& r is Ignore
                &&& *final(self) == *old(self)
            },
            old(self).spec_phase() == PolicyPhase::AwaitingEvaluation ==> {
                &&& r matches PolicyCallAction::Reject(rej) && rej.status == 403
                    && rej.content_type@ == "application/json"@
                    && rej.body@ == evaluation_failed_json()
                &&& final(self).spec_phase() == PolicyPhase::Rejected
                &&& final(self).same_request_data(old(self))
            },
    {
        if self.phase != PolicyPhase::AwaitingEvaluation {
            return PolicyCallAction::Ignore;
        }
        self.phase = PolicyPhase::Rejected;
        PolicyCallAction::Reject(send_forbidden_response("Policy evaluation failed", ""))
    }

    /// Evaluation phase: `response` is the parsed body of the evaluation call,
    /// `None` where it was missing or did not parse.
    pub fn on_http_call_response(&mut self, response: Option<EvaluationResponse>) -> (r:
        PolicyCallAction)
        ensures
            old(self).spec_phase() != PolicyPhase::AwaitingEvaluation ==> {
                &&& r is Ignore
                &&& *final(self) == *old(self)
            },
            final(self).same_request_data(old(self)),
            old(self).spec_phase() == PolicyPhase::AwaitingEvaluation ==> match r {
                PolicyCallAction::Ignore => false,
                PolicyCallAction::Reject(rej) => {
                    &&& evaluation_verdict(response) == (EvaluationVerdict::Reject { body: rej.body@ })
                    &&& rej.status == 403
                    &&& rej.content_type@ == "application/json"@
                    &&& final(self).spec_phase() == PolicyPhase::Rejected
                },
                PolicyCallAction::Resume { headers } => {
                    &&& evaluation_verdict(response) matches EvaluationVerdict::Admit { reason }
                        && header_pairs(headers@) == admitted_headers(reason, old(self).spec_principal())
                    &&& final(self).spec_phase() == PolicyPhase::Forwarded
                },
            },
    {
        if self.phase != PolicyPhase::AwaitingEvaluation {
            return PolicyCallAction::Ignore;
        }
        let resp = match response {
            Some(resp) => resp,
            None => {
                self.phase = PolicyPhase::Rejected;
                return PolicyCallAction::Reject(
                    send_forbidden_response("Policy evaluation failed", ""),
                );
            },
        };
        if resp.decisions.len() == 0 {
            self.phase = PolicyPhase::Rejected;
            return PolicyCallAction::Reject(send_forbidden_response("Policy evaluation failed", ""));
        }
        let first = &resp.decisions[0];
        if !same_text(first.decision.as_str(), "Allow") {
            self.phase = PolicyPhase::Rejected;
            return PolicyCallAction::Reject(
                send_forbidden_response("Access denied by policy", first.reason.as_str()),
            );
        }
        let mut headers: Vec<Header> = Vec::new();
        headers.push(Header { name: String::from_str("X-PDP-Decision"), value: String::from_str("Allow") });
        headers.push(Header { name: String::from_str("X-PDP-Reason"), value: first.reason.clone() });
        headers.push(Header { name: String::from_str("X-Principal-ID"), value: self.principal_id.clone() });
        assert(header_pairs(headers@) =~= admitted_headers(first.reason@, self.principal_id@));
        self.phase = PolicyPhase::Forwarded;
        PolicyCallAction::Resume { headers }
    }
}

/// A request with a `:path` and no Authorization header is answered with 401
/// `{"error":"Missing Authorization header"}`, and no evaluation is asked for.
pub proof fn missing_authorization_is_unauthorized(path: Seq<char>, service_id: Option<Seq<char>>)
    ensures
        inbound_verdict(Some(path), None, service_id) == (InboundVerdict::Reject {
            status: 401,
            body: unauthorized_json("Missing Authorization header"@),
        }),
{
}

/// A request with a `:path` and `Authorization: Basic xyz` is answered with
/// 401 `{"error":"Invalid Authorization header format"}`.
pub proof fn basic_authorization_is_unauthorized(path: Seq<char>, service_id: Option<Seq<char>>)
    ensures
        inbound_verdict(Some(path), Some("Basic xyz"@), service_id) == (InboundVerdict::Reject {
            status: 401,
            body: unauthorized_json("Invalid Authorization header format"@),
        }),
{
    reveal_strlit("Basic xyz");
    reveal_strlit("Bearer ");
    assert(("Basic xyz"@).subrange(0, 7)[1] != bearer_prefix()[1]);
}

/// A path without `asset=` asks about the resource `default-asset`, and the
/// evaluation request names it.
pub proof fn missing_asset_uses_default_resource(
    path: Seq<char>,
    authorization: Seq<char>,
    service_id: Option<Seq<char>>,
)
    requires
        find_from(path, asset_key(), 0) is None,
        has_prefix(authorization, bearer_prefix()),
    ensures
        resource_of(path) == "default-asset"@,
        inbound_verdict(Some(path), Some(authorization), service_id) == (InboundVerdict::Evaluate {
            body: evaluation_request(principal_of(service_id), "default-asset"@),
        }),
{
}

/// A first decision other than `Allow` is answered with 403
/// `{"error":"Access denied by policy","pdp_response":{"decision":"Deny","reason":<reason>}}`
/// and the request is not resumed.
pub proof fn refused_decision_is_forbidden(response: EvaluationResponse)
    requires
        response.decisions@.len() > 0,
        response.decisions@[0].decision@ != "Allow"@,
    ensures
        evaluation_verdict(Some(response)) == (EvaluationVerdict::Reject {
            body: forbidden_json("Access denied by policy"@, response.decisions@[0].reason@),
        }),
{
}

/// A first decision `Allow` resumes the request with the policy's reason.
pub proof fn allowed_decision_admits(response: EvaluationResponse)
    requires
        response.decisions@.len() > 0,
        response.decisions@[0].decision@ == "Allow"@,
    ensures
        evaluation_verdict(Some(response)) == (EvaluationVerdict::Admit {
            reason: response.decisions@[0].reason@,
        }),
{
}

/// An empty list of decisions and a body that does not parse end alike: in the
/// same 403 rejection.
pub proof fn empty_decisions_match_unparsable_body(response: EvaluationResponse)
    requires
        response.decisions@.len() == 0,
    ensures
        evaluation_verdict(Some(response)) == evaluation_verdict(None),
        evaluation_verdict(None) == (EvaluationVerdict::Reject { body: evaluation_failed_json() }),
{
}

} // verus!
