use k8s_basic_auth_translator::basic::BasicAuthTranslator;
use k8s_basic_auth_translator::decision::{EgressResult, IngressResult};
use k8s_basic_auth_translator::headers::Header;
use k8s_basic_auth_translator::pki::{Pki, TrustMaterial};
use k8s_basic_auth_translator::repository::CredentialStore;
use k8s_basic_auth_translator::request::{
    AttributeContext, AttributeRequest, CheckRequest, HttpAttributes,
};
use k8s_basic_auth_translator::response::{CheckResponse, DenyStatus};
use k8s_basic_auth_translator::server::{
    egress_response, ingress_response, EgressServer, IngressServer,
};
use k8s_basic_auth_translator::translator::TranslatorError;

const NOW: u64 = 1_000_000;

fn header(name: &str, value: &str) -> Header {
    Header { name: name.to_string(), value: value.to_string() }
}

fn request_with_headers(headers: Vec<Header>) -> CheckRequest {
    CheckRequest {
        attributes: Some(AttributeContext {
            request: Some(AttributeRequest {
                http: Some(HttpAttributes {
                    method: "GET".to_string(),
                    path: "/".to_string(),
                    headers,
                }),
            }),
        }),
    }
}

fn pki() -> Pki {
    Pki::new(
        TrustMaterial {
            ca_certificate: vec![11, 22, 33, 44],
            local_certificate: vec![1],
            local_private_key: vec![2],
        },
        600,
    )
}

fn store() -> CredentialStore {
    CredentialStore::from_csv("id,username,password\nalice,alice,secret\nbob,bob,hunter2")
        .unwrap()
}

fn ingress_server() -> IngressServer<BasicAuthTranslator<CredentialStore>> {
    IngressServer::new(BasicAuthTranslator::new(store()), pki())
}

fn egress_server() -> EgressServer<BasicAuthTranslator<CredentialStore>> {
    EgressServer::new(BasicAuthTranslator::new(store()), pki())
}

fn noop() -> CheckResponse {
    CheckResponse::Allow { headers_to_add: vec![], headers_to_remove: vec![] }
}

#[test]
fn ingress_without_identity_header_passes_through() {
    let server = ingress_server();
    let request = request_with_headers(vec![header("host", "example")]);
    assert_eq!(server.check(&request, NOW), noop());
}

#[test]
fn ingress_with_unverifiable_token_behaves_like_absent_header() {
    let server = ingress_server();
    let bare = request_with_headers(vec![]);
    for bad in ["", "garbage", "00000000000003e80000000000000000YWxpY2U="] {
        let request = request_with_headers(vec![header("x-wirepact-identity", bad)]);
        assert_eq!(server.check(&request, NOW), server.check(&bare, NOW));
        assert_eq!(server.check(&request, NOW), noop());
    }
}

#[test]
fn ingress_with_expired_token_passes_through() {
    let server = ingress_server();
    let token = server.pki.mint("alice", NOW);
    let request = request_with_headers(vec![header("x-wirepact-identity", &token)]);
    assert_eq!(server.check(&request, NOW + 601), noop());
}

#[test]
fn ingress_translates_valid_token_to_basic_auth() {
    let server = ingress_server();
    let token = server.pki.mint("alice", NOW);
    let request = request_with_headers(vec![header("x-wirepact-identity", &token)]);
    let expected = CheckResponse::Allow {
        headers_to_add: vec![header("authorization", "Basic YWxpY2U6c2VjcmV0")],
        headers_to_remove: vec!["x-wirepact-identity".to_string()],
    };
    assert_eq!(server.check(&request, NOW), expected);
}

#[test]
fn ingress_denies_subject_without_credentials() {
    let server = ingress_server();
    let token = server.pki.mint("mallory", NOW);
    let request = request_with_headers(vec![header("x-wirepact-identity", &token)]);
    let expected = CheckResponse::Denied {
        status: DenyStatus::PermissionDenied,
        message: "No user information found.".to_string(),
    };
    assert_eq!(server.check(&request, NOW), expected);
}

#[test]
fn ingress_rejects_malformed_check_request() {
    let server = ingress_server();
    let request = CheckRequest { attributes: None };
    let expected = CheckResponse::Denied {
        status: DenyStatus::InvalidArgument,
        message: "attributes not found".to_string(),
    };
    assert_eq!(server.check(&request, NOW), expected);

    let request = CheckRequest {
        attributes: Some(AttributeContext { request: Some(AttributeRequest { http: None }) }),
    };
    let expected = CheckResponse::Denied {
        status: DenyStatus::InvalidArgument,
        message: "http not found".to_string(),
    };
    assert_eq!(server.check(&request, NOW), expected);
}

#[test]
fn ingress_check_is_idempotent() {
    let server = ingress_server();
    let token = server.pki.mint("bob", NOW);
    let request = request_with_headers(vec![header("x-wirepact-identity", &token)]);
    assert_eq!(server.check(&request, NOW), server.check(&request, NOW));
}

#[test]
fn egress_translates_basic_auth_to_identity_token() {
    let server = egress_server();
    let request = request_with_headers(vec![header("authorization", "Basic YWxpY2U6c2VjcmV0")]);
    match server.check(&request, NOW) {
        CheckResponse::Allow { headers_to_add, headers_to_remove } => {
            assert_eq!(headers_to_add.len(), 1);
            assert_eq!(headers_to_add[0].name, "x-wirepact-identity");
            assert_eq!(
                server.pki.verify(&headers_to_add[0].value, NOW),
                Ok("alice".to_string())
            );
            assert_eq!(headers_to_remove, vec!["authorization".to_string()]);
        },
        other => panic!("expected an allow response, got {:?}", other),
    }
}

#[test]
fn egress_without_credential_passes_through() {
    let server = egress_server();
    assert_eq!(
        server.check(&request_with_headers(vec![header("host", "example")]), NOW),
        noop()
    );
    let bearer = request_with_headers(vec![header("authorization", "Bearer abc")]);
    assert_eq!(server.check(&bearer, NOW), noop());
}

#[test]
fn egress_denies_corrupted_basic_auth() {
    let server = egress_server();
    let expected = CheckResponse::Denied {
        status: DenyStatus::PermissionDenied,
        message: "Basic Auth data is corrupted.".to_string(),
    };
    // Not base64 at all.
    let request = request_with_headers(vec![header("authorization", "Basic !!!")]);
    assert_eq!(server.check(&request, NOW), expected);
    // Decodes, but holds no single colon: base64 of "alicesecret".
    let request = request_with_headers(vec![header("authorization", "Basic YWxpY2VzZWNyZXQ=")]);
    assert_eq!(server.check(&request, NOW), expected);
    // Decodes, but holds two colons: base64 of "a:b:c".
    let request = request_with_headers(vec![header("authorization", "Basic YTpiOmM=")]);
    assert_eq!(server.check(&request, NOW), expected);
}

#[test]
fn egress_denies_unknown_credentials() {
    let server = egress_server();
    // base64 of "alice:wrong".
    let request = request_with_headers(vec![header("authorization", "Basic YWxpY2U6d3Jvbmc=")]);
    let expected = CheckResponse::Denied {
        status: DenyStatus::PermissionDenied,
        message: "No UserID given for outbound communication.".to_string(),
    };
    assert_eq!(server.check(&request, NOW), expected);
}

#[test]
fn egress_rejects_malformed_check_request() {
    let server = egress_server();
    let request = CheckRequest { attributes: Some(AttributeContext { request: None }) };
    let expected = CheckResponse::Denied {
        status: DenyStatus::InvalidArgument,
        message: "request not found".to_string(),
    };
    assert_eq!(server.check(&request, NOW), expected);
}

#[test]
fn egress_check_is_idempotent() {
    let server = egress_server();
    let request = request_with_headers(vec![header("authorization", "Basic Ym9iOmh1bnRlcjI=")]);
    assert_eq!(server.check(&request, NOW), server.check(&request, NOW));
}

#[test]
fn forbidden_decision_renders_exact_reason() {
    let outcome: Result<IngressResult, TranslatorError> =
        Ok(IngressResult::forbidden("because I said so".to_string()));
    let expected = CheckResponse::Denied {
        status: DenyStatus::PermissionDenied,
        message: "because I said so".to_string(),
    };
    assert_eq!(ingress_response(outcome), expected);
}

#[test]
fn skip_decision_renders_noop() {
    assert_eq!(ingress_response(Ok(IngressResult::skip())), noop());
    assert_eq!(egress_response(Ok(EgressResult::skip()), &pki(), NOW), noop());
}

#[test]
fn allowed_egress_decision_without_subject_is_denied() {
    let outcome: Result<EgressResult, TranslatorError> =
        Ok(EgressResult::allowed(String::new(), vec![], vec![]));
    let expected = CheckResponse::Denied {
        status: DenyStatus::PermissionDenied,
        message: "No UserID given for outbound communication.".to_string(),
    };
    assert_eq!(egress_response(outcome, &pki(), NOW), expected);
    assert_eq!(
        egress_response(Ok(EgressResult::no_user_id()), &pki(), NOW),
        expected
    );
}

#[test]
fn allowed_egress_decision_keeps_translator_headers() {
    let outcome: Result<EgressResult, TranslatorError> = Ok(EgressResult::allowed(
        "carol".to_string(),
        vec![header("x-extra", "kept")],
        vec!["authorization".to_string()],
    ));
    let engine = pki();
    match egress_response(outcome, &engine, NOW) {
        CheckResponse::Allow { headers_to_add, headers_to_remove } => {
            assert_eq!(headers_to_add.len(), 2);
            assert_eq!(headers_to_add[0], header("x-extra", "kept"));
            assert_eq!(headers_to_add[1].name, "x-wirepact-identity");
            assert_eq!(
                engine.verify(&headers_to_add[1].value, NOW),
                Ok("carol".to_string())
            );
            assert_eq!(headers_to_remove, vec!["authorization".to_string()]);
        },
        other => panic!("expected an allow response, got {:?}", other),
    }
}

#[test]
fn translation_failure_renders_internal_error() {
    let outcome: Result<EgressResult, TranslatorError> =
        Err(TranslatorError { message: "store unreachable".to_string() });
    let expected = CheckResponse::Denied {
        status: DenyStatus::Internal,
        message: "store unreachable".to_string(),
    };
    assert_eq!(egress_response(outcome, &pki(), NOW), expected);
    let outcome: Result<IngressResult, TranslatorError> =
        Err(TranslatorError { message: "store unreachable".to_string() });
    assert_eq!(
        ingress_response(outcome),
        CheckResponse::Denied {
            status: DenyStatus::Internal,
            message: "store unreachable".to_string(),
        }
    );
}

#[test]
fn last_identity_header_wins() {
    let server = ingress_server();
    let token = server.pki.mint("alice", NOW);
    let request = request_with_headers(vec![
        header("x-wirepact-identity", "garbage"),
        header("x-wirepact-identity", &token),
    ]);
    let expected = CheckResponse::Allow {
        headers_to_add: vec![header("authorization", "Basic YWxpY2U6c2VjcmV0")],
        headers_to_remove: vec!["x-wirepact-identity".to_string()],
    };
    assert_eq!(server.check(&request, NOW), expected);
}
