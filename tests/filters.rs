use mesh_auth_filters::credential::{
    credential_endpoint, is_protected_authority, ClientPhase, CredentialCallAction, CredentialFilter,
    CredentialHeaderAction, CredentialResponse,
};
use mesh_auth_filters::endpoint::CALLOUT_TIMEOUT_MS;
use mesh_auth_filters::json::{
    credential_request_body, evaluation_request_body, forbidden_body, unauthorized_body,
};
use mesh_auth_filters::policy::{
    extract_asset_from_path, policy_endpoint, send_forbidden_response, send_unauthorized_response,
    Decision, EvaluationResponse, PolicyCallAction, PolicyFilter, PolicyHeaderAction, PolicyPhase,
};
use mesh_auth_filters::text::{find, matches_at, same_text, starts_with};

fn awaiting_credential() -> CredentialFilter {
    let mut f = CredentialFilter::new();
    let action = f.on_http_request_headers(Some("service-b"));
    assert!(matches!(action, CredentialHeaderAction::Dispatch { .. }));
    f
}

fn token(t: &str) -> Option<CredentialResponse> {
    Some(CredentialResponse { token: t.to_string(), expires_in: 300 })
}

fn decisions(items: &[(&str, &str)]) -> Option<EvaluationResponse> {
    Some(EvaluationResponse {
        decisions: items
            .iter()
            .map(|(d, r)| Decision { decision: d.to_string(), reason: r.to_string() })
            .collect(),
    })
}

fn awaiting_evaluation(service_id: Option<&str>) -> PolicyFilter {
    let mut f = PolicyFilter::new();
    let action = f.on_http_request_headers(Some("/foo?asset=doc-1"), Some("Bearer tok"), service_id);
    assert!(matches!(action, PolicyHeaderAction::Dispatch { .. }));
    f
}

const FAILED_403: &str =
    r#"{"error":"Policy evaluation failed","pdp_response":{"decision":"Deny","reason":""}}"#;

// text

#[test]
fn find_reports_first_occurrence() {
    assert_eq!(find("a&b&c", "&"), Some(1));
    assert_eq!(find("abc", "x"), None);
    assert_eq!(find("abc", ""), Some(0));
    assert_eq!(find("ab", "abc"), None);
    assert_eq!(find("xxasset=asset=", "asset="), Some(2));
}

#[test]
fn find_counts_characters_not_bytes() {
    assert_eq!(find("éé&", "&"), Some(2));
}

#[test]
fn prefix_and_equality() {
    assert!(starts_with("Bearer x", "Bearer "));
    assert!(!starts_with("Basic xyz", "Bearer "));
    assert!(!starts_with("Bear", "Bearer "));
    assert!(matches_at("abcd", "cd", 2));
    assert!(!matches_at("abcd", "cd", 3));
    assert!(same_text("service-b", "service-b"));
    assert!(!same_text("service-b", "service-bb"));
    assert!(!same_text("service-b", "service-c"));
}

// credential acquisition

#[test]
fn protected_authorities() {
    assert!(is_protected_authority("service-b:8083"));
    assert!(is_protected_authority("service-b"));
    assert!(is_protected_authority("envoy-service-b:10001"));
    assert!(!is_protected_authority("service-c"));
    assert!(!is_protected_authority("service-b:9999"));
    assert!(!is_protected_authority(""));
}

#[test]
fn unlisted_authority_makes_no_call() {
    for a in ["service-c", "service-b.example", "SERVICE-B", ""] {
        let mut f = CredentialFilter::new();
        assert!(matches!(f.on_http_request_headers(Some(a)), CredentialHeaderAction::Continue));
        assert_eq!(f.phase(), ClientPhase::Forwarded);
        assert!(matches!(f.on_http_call_response(token("abc123")), CredentialCallAction::Ignore));
    }
}

#[test]
fn missing_authority_passes_through() {
    let mut f = CredentialFilter::new();
    assert!(matches!(f.on_http_request_headers(None), CredentialHeaderAction::Continue));
    assert_eq!(f.phase(), ClientPhase::Forwarded);
}

#[test]
fn protected_authority_requests_credential() {
    for a in ["service-b:8083", "service-b", "envoy-service-b:10001"] {
        let mut f = CredentialFilter::new();
        match f.on_http_request_headers(Some(a)) {
            CredentialHeaderAction::Dispatch { body } => {
                assert_eq!(body, r#"{"serviceId":"service-a"}"#)
            }
            CredentialHeaderAction::Continue => panic!("expected a credential call"),
        }
        assert_eq!(f.phase(), ClientPhase::AwaitingCredential);
    }
}

#[test]
fn credential_endpoint_fields() {
    let e = credential_endpoint();
    assert_eq!(e.cluster, "jwt-vending-service");
    assert_eq!(e.path, "/token/valid");
    assert_eq!(e.authority, "jwt-vending-service:8081");
    assert_eq!(e.timeout_ms, 5000);
    assert_eq!(CALLOUT_TIMEOUT_MS, 5000);
}

#[test]
fn unparsable_credential_response_resumes_unchanged() {
    let mut f = awaiting_credential();
    assert!(matches!(f.on_http_call_response(None), CredentialCallAction::Resume));
    assert_eq!(f.phase(), ClientPhase::Forwarded);
}

#[test]
fn empty_token_resumes_unchanged() {
    let mut f = awaiting_credential();
    assert!(matches!(f.on_http_call_response(token("")), CredentialCallAction::Resume));
    assert_eq!(f.phase(), ClientPhase::Forwarded);
}

#[test]
fn valid_token_sets_bearer_authorization() {
    let mut f = awaiting_credential();
    match f.on_http_call_response(token("abc123")) {
        CredentialCallAction::SetAuthorizationAndResume { value } => {
            assert_eq!(value, "Bearer abc123")
        }
        _ => panic!("expected the credential to be installed"),
    }
    assert_eq!(f.phase(), ClientPhase::Forwarded);
}

#[test]
fn second_credential_response_is_ignored() {
    let mut f = awaiting_credential();
    let _ = f.on_http_call_response(token("abc123"));
    assert!(matches!(f.on_http_call_response(token("other")), CredentialCallAction::Ignore));
}

#[test]
fn credential_dispatch_failure_fails_open() {
    let mut f = awaiting_credential();
    assert!(matches!(f.on_dispatch_failed(), CredentialHeaderAction::Continue));
    assert_eq!(f.phase(), ClientPhase::Forwarded);
    assert!(matches!(f.on_http_call_response(token("abc123")), CredentialCallAction::Ignore));
}

// bodies

#[test]
fn request_bodies_are_exact() {
    assert_eq!(credential_request_body("svc"), r#"{"serviceId":"svc"}"#);
    assert_eq!(
        evaluation_request_body("svc-x", "doc-1"),
        r#"{"principal":{"id":"svc-x"},"queries":[{"assetId":"doc-1","action":"call"}]}"#
    );
}

#[test]
fn request_bodies_escape_strings() {
    assert_eq!(credential_request_body("a\"b\\c\n"), r#"{"serviceId":"a\"b\\c\n"}"#);
    assert_eq!(
        evaluation_request_body("x\ty", "é"),
        r#"{"principal":{"id":"x\ty"},"queries":[{"assetId":"é","action":"call"}]}"#
    );
}

#[test]
fn rejection_bodies_are_exact() {
    assert_eq!(unauthorized_body("nope"), r#"{"error":"nope"}"#);
    assert_eq!(
        forbidden_body("Access denied by policy", "no access"),
        r#"{"error":"Access denied by policy","pdp_response":{"decision":"Deny","reason":"no access"}}"#
    );
    let u = send_unauthorized_response("Missing Authorization header");
    assert_eq!(u.status, 401);
    assert_eq!(u.content_type, "application/json");
    assert_eq!(u.body, r#"{"error":"Missing Authorization header"}"#);
    let f = send_forbidden_response("Policy evaluation failed", "");
    assert_eq!(f.status, 403);
    assert_eq!(f.content_type, "application/json");
    assert_eq!(f.body, FAILED_403);
}

#[test]
fn rejection_responses_are_repeatable() {
    let a = send_forbidden_response("m", "r");
    let b = send_forbidden_response("m", "r");
    assert_eq!(a.body, b.body);
    assert_eq!(a.status, b.status);
}

// policy enforcement: header phase

#[test]
fn asset_extraction() {
    assert_eq!(extract_asset_from_path("/foo?asset=doc-1&other=2"), "doc-1");
    assert_eq!(extract_asset_from_path("/foo?asset=doc-2"), "doc-2");
    assert_eq!(extract_asset_from_path("/foo?other=2"), "");
    assert_eq!(extract_asset_from_path("/foo?asset=&other=2"), "");
    assert_eq!(extract_asset_from_path("/foo?x=1&asset=a&asset=b"), "a");
    assert_eq!(extract_asset_from_path("/foo?myasset=z"), "z");
    assert_eq!(extract_asset_from_path(""), "");
}

#[test]
fn policy_endpoint_fields() {
    let e = policy_endpoint();
    assert_eq!(e.cluster, "sgnl-pdp-service");
    assert_eq!(e.path, "/access/v2/evaluations");
    assert_eq!(e.authority, "sgnl-pdp-service:8082");
    assert_eq!(e.timeout_ms, 5000);
}

#[test]
fn missing_path_passes_through() {
    let mut f = PolicyFilter::new();
    assert!(matches!(
        f.on_http_request_headers(None, None, None),
        PolicyHeaderAction::Continue
    ));
    assert_eq!(f.phase(), PolicyPhase::Forwarded);
}

#[test]
fn missing_authorization_is_401() {
    for path in ["/foo", "/foo?asset=doc-1", "/"] {
        let mut f = PolicyFilter::new();
        match f.on_http_request_headers(Some(path), None, Some("svc-x")) {
            PolicyHeaderAction::Reject(r) => {
                assert_eq!(r.status, 401);
                assert_eq!(r.content_type, "application/json");
                assert_eq!(r.body, r#"{"error":"Missing Authorization header"}"#);
            }
            _ => panic!("expected a 401"),
        }
        assert_eq!(f.phase(), PolicyPhase::Rejected);
        assert!(matches!(
            f.on_http_call_response(decisions(&[("Allow", "ok")])),
            PolicyCallAction::Ignore
        ));
    }
}

#[test]
fn basic_authorization_is_401() {
    for auth in ["Basic xyz", "bearer tok", "Bearer", ""] {
        let mut f = PolicyFilter::new();
        match f.on_http_request_headers(Some("/foo"), Some(auth), None) {
            PolicyHeaderAction::Reject(r) => {
                assert_eq!(r.status, 401);
                assert_eq!(r.body, r#"{"error":"Invalid Authorization header format"}"#);
            }
            _ => panic!("expected a 401"),
        }
        assert_eq!(f.phase(), PolicyPhase::Rejected);
    }
}

#[test]
fn evaluation_request_names_principal_and_asset() {
    let mut f = PolicyFilter::new();
    match f.on_http_request_headers(
        Some("/foo?asset=doc-1&other=2"),
        Some("Bearer tok"),
        Some("svc-x"),
    ) {
        PolicyHeaderAction::Dispatch { body } => assert_eq!(
            body,
            r#"{"principal":{"id":"svc-x"},"queries":[{"assetId":"doc-1","action":"call"}]}"#
        ),
        _ => panic!("expected an evaluation call"),
    }
    assert_eq!(f.phase(), PolicyPhase::AwaitingEvaluation);
    assert_eq!(f.bearer_token(), "tok");
    assert_eq!(f.principal_id(), "svc-x");
    assert_eq!(f.resource_id(), "doc-1");
}

#[test]
fn missing_asset_defaults_resource() {
    for path in ["/foo", "/foo?other=2", "/foo?asset="] {
        let mut f = PolicyFilter::new();
        match f.on_http_request_headers(Some(path), Some("Bearer tok"), Some("svc-x")) {
            PolicyHeaderAction::Dispatch { body } => assert_eq!(
                body,
                r#"{"principal":{"id":"svc-x"},"queries":[{"assetId":"default-asset","action":"call"}]}"#
            ),
            _ => panic!("expected an evaluation call"),
        }
        assert_eq!(f.resource_id(), "default-asset");
    }
}

#[test]
fn missing_service_id_defaults_principal() {
    let mut f = PolicyFilter::new();
    match f.on_http_request_headers(Some("/foo"), Some("Bearer tok"), None) {
        PolicyHeaderAction::Dispatch { body } => assert_eq!(
            body,
            r#"{"principal":{"id":"service-a"},"queries":[{"assetId":"default-asset","action":"call"}]}"#
        ),
        _ => panic!("expected an evaluation call"),
    }
    assert_eq!(f.principal_id(), "service-a");
}

#[test]
fn bearer_prefix_is_removed_once() {
    let mut f = PolicyFilter::new();
    let _ = f.on_http_request_headers(Some("/"), Some("Bearer Bearer x"), None);
    assert_eq!(f.bearer_token(), "Bearer x");
    let mut g = PolicyFilter::new();
    let _ = g.on_http_request_headers(Some("/"), Some("Bearer "), None);
    assert_eq!(g.bearer_token(), "");
    assert_eq!(g.phase(), PolicyPhase::AwaitingEvaluation);
}

#[test]
fn identity_is_escaped_in_evaluation_request() {
    let mut f = PolicyFilter::new();
    match f.on_http_request_headers(Some("/?asset=a\"b"), Some("Bearer t"), Some("s\\1")) {
        PolicyHeaderAction::Dispatch { body } => assert_eq!(
            body,
            r#"{"principal":{"id":"s\\1"},"queries":[{"assetId":"a\"b","action":"call"}]}"#
        ),
        _ => panic!("expected an evaluation call"),
    }
}

// policy enforcement: evaluation phase

fn expect_reject(action: PolicyCallAction) -> String {
    match action {
        PolicyCallAction::Reject(r) => {
            assert_eq!(r.status, 403);
            assert_eq!(r.content_type, "application/json");
            r.body
        }
        _ => panic!("expected a 403"),
    }
}

#[test]
fn denied_decision_is_403() {
    let mut f = awaiting_evaluation(Some("svc-x"));
    let body = expect_reject(f.on_http_call_response(decisions(&[("Deny", "no access")])));
    assert_eq!(
        body,
        r#"{"error":"Access denied by policy","pdp_response":{"decision":"Deny","reason":"no access"}}"#
    );
    assert_eq!(f.phase(), PolicyPhase::Rejected);
    assert!(matches!(
        f.on_http_call_response(decisions(&[("Allow", "ok")])),
        PolicyCallAction::Ignore
    ));
}

#[test]
fn decision_match_is_exact() {
    let mut f = awaiting_evaluation(None);
    let body = expect_reject(f.on_http_call_response(decisions(&[("allow", "r")])));
    assert_eq!(
        body,
        r#"{"error":"Access denied by policy","pdp_response":{"decision":"Deny","reason":"r"}}"#
    );
}

#[test]
fn allowed_decision_resumes_with_headers() {
    let mut f = awaiting_evaluation(Some("svc-x"));
    match f.on_http_call_response(decisions(&[("Allow", "ok")])) {
        PolicyCallAction::Resume { headers } => {
            let pairs: Vec<(String, String)> =
                headers.into_iter().map(|h| (h.name, h.value)).collect();
            assert_eq!(
                pairs,
                vec![
                    ("X-PDP-Decision".to_string(), "Allow".to_string()),
                    ("X-PDP-Reason".to_string(), "ok".to_string()),
                    ("X-Principal-ID".to_string(), "svc-x".to_string()),
                ]
            );
        }
        _ => panic!("expected the request to resume"),
    }
    assert_eq!(f.phase(), PolicyPhase::Forwarded);
    assert!(matches!(f.on_dispatch_failed(), PolicyCallAction::Ignore));
}

#[test]
fn only_first_decision_counts() {
    let mut f = awaiting_evaluation(None);
    assert!(matches!(
        f.on_http_call_response(decisions(&[("Allow", "a"), ("Deny", "b")])),
        PolicyCallAction::Resume { .. }
    ));
    let mut g = awaiting_evaluation(None);
    let body = expect_reject(g.on_http_call_response(decisions(&[("Deny", "b"), ("Allow", "a")])));
    assert_eq!(
        body,
        r#"{"error":"Access denied by policy","pdp_response":{"decision":"Deny","reason":"b"}}"#
    );
}

#[test]
fn empty_decisions_and_unparsable_body_match() {
    let mut f = awaiting_evaluation(None);
    let empty = expect_reject(f.on_http_call_response(decisions(&[])));
    let mut g = awaiting_evaluation(None);
    let unparsable = expect_reject(g.on_http_call_response(None));
    assert_eq!(empty, FAILED_403);
    assert_eq!(empty, unparsable);
}

#[test]
fn policy_dispatch_failure_is_403() {
    let mut f = awaiting_evaluation(None);
    let body = expect_reject(f.on_dispatch_failed());
    assert_eq!(body, FAILED_403);
    assert_eq!(f.phase(), PolicyPhase::Rejected);
    assert!(matches!(
        f.on_http_call_response(decisions(&[("Allow", "ok")])),
        PolicyCallAction::Ignore
    ));
}

#[test]
fn response_before_dispatch_is_ignored() {
    let mut f = PolicyFilter::new();
    assert!(matches!(f.on_http_call_response(None), PolicyCallAction::Ignore));
    assert!(matches!(f.on_dispatch_failed(), PolicyCallAction::Ignore));
    assert_eq!(f.phase(), PolicyPhase::AwaitingHeaders);
    let mut c = CredentialFilter::new();
    assert!(matches!(c.on_http_call_response(None), CredentialCallAction::Ignore));
    assert_eq!(c.phase(), ClientPhase::AwaitingHeaders);
}

#[test]
fn rejection_bodies_escape_strings() {
    assert_eq!(unauthorized_body("say \"hi\"\\"), r#"{"error":"say \"hi\"\\"}"#);
    assert_eq!(
        forbidden_body("Access denied by policy", "\""),
        r#"{"error":"Access denied by policy","pdp_response":{"decision":"Deny","reason":"\""}}"#
    );
}

#[test]
fn denied_reason_with_quote_stays_json() {
    let mut f = awaiting_evaluation(None);
    let body = expect_reject(f.on_http_call_response(decisions(&[("Deny", "no \"x\"\n")])));
    assert_eq!(
        body,
        r#"{"error":"Access denied by policy","pdp_response":{"decision":"Deny","reason":"no \"x\"\n"}}"#
    );
}

#[test]
fn callout_method_and_content_type() {
    for e in [credential_endpoint(), policy_endpoint()] {
        assert_eq!(e.method, "POST");
        assert_eq!(e.content_type, "application/json");
    }
}

#[test]
fn request_data_survives_evaluation() {
    let mut f = awaiting_evaluation(Some("svc-x"));
    let _ = f.on_http_call_response(decisions(&[("Allow", "ok")]));
    assert_eq!(f.bearer_token(), "tok");
    assert_eq!(f.principal_id(), "svc-x");
    assert_eq!(f.resource_id(), "doc-1");
}
