//! The two gateways: the check state machines for inbound and outbound
//! traffic, and the rendering of decisions into responses.

use vstd::prelude::*;
use vstd::string::StringExecFns;

use crate::decision::{no_user_id_reason, EgressDecision, EgressResult, IngressDecision,
    IngressResult};
use crate::headers::{identity_header, identity_header_name, lookup, Header, HeaderView,
    headers_view};
use crate::pki::{mint_expiry, token_of, Pki};
use crate::request::{CheckRequest, HttpAttributes};
use crate::response::{forbidden_response, internal_error_response, invalid_argument_response,
    noop_ok, noop_ok_response, ok_response, CheckResponse, DenyStatus, ResponseView};
use crate::translator::{egress_outcome, ingress_outcome, Translator, TranslatorError};

verus! {

/// The invalid-argument message for a malformed check request, naming the
/// first missing attribute substructure.
pub open spec fn malformed_reason(request: CheckRequest) -> Seq<char> {
    if request.attributes is None {
        "attributes not found"@
    } else if request.attributes->0.request is None {
        "request not found"@
    } else {
        "http not found"@
    }
}

/// The response rendered for an ingress translation outcome: a translation
/// failure denies with an internal status, a skip passes the request
/// through untouched, a forbidden decision denies with exactly its reason,
/// and an allowed decision forwards with exactly its header mutations.
pub open spec fn render_ingress(outcome: Result<IngressDecision, Seq<char>>) -> ResponseView {
    match outcome {
        Err(message) => ResponseView::Denied { status: DenyStatus::Internal, message },
        Ok(IngressDecision::Skip) => noop_ok(),
        Ok(IngressDecision::Forbidden { reason }) => ResponseView::Denied {
            status: DenyStatus::PermissionDenied,
            message: reason,
        },
        Ok(IngressDecision::Allowed { headers_to_add, headers_to_remove }) => ResponseView::Allow {
            headers_to_add,
            headers_to_remove,
        },
    }
}

/// The response rendered for an egress translation outcome. An allowed
/// decision with a subject forwards with the translator's mutations plus
/// the minted identity token under the mesh identity header; one without a
/// subject is denied, never passed through.
pub open spec fn render_egress(
    outcome: Result<EgressDecision, Seq<char>>,
    key: Seq<u8>,
    lifetime: u64,
    now: u64,
) -> ResponseView {
    match outcome {
        Err(message) => ResponseView::Denied { status: DenyStatus::Internal, message },
        Ok(EgressDecision::Skip) => noop_ok(),
        Ok(EgressDecision::Forbidden { reason }) => ResponseView::Denied {
            status: DenyStatus::PermissionDenied,
            message: reason,
        },
        Ok(EgressDecision::Allowed { user_id, headers_to_add, headers_to_remove }) => {
            if user_id.len() == 0 {
                ResponseView::Denied {
                    status: DenyStatus::PermissionDenied,
                    message: no_user_id_reason(),
                }
            } else {
                ResponseView::Allow {
                    headers_to_add: headers_to_add + seq![
                        HeaderView {
                            name: identity_header(),
                            value: token_of(key, user_id, mint_expiry(now, lifetime)),
                        },
                    ],
                    headers_to_remove,
                }
            }
        },
    }
}

/// Render an ingress translation outcome into a check response.
pub fn ingress_response(outcome: Result<IngressResult, TranslatorError>) -> (r: CheckResponse)
    ensures
        r@ == render_ingress(ingress_outcome(outcome)),
{
    match outcome {
        Err(e) => internal_error_response(e.message.as_str()),
        Ok(IngressResult::Skip) => noop_ok_response(),
        Ok(IngressResult::Forbidden { reason }) => forbidden_response(reason.as_str()),
        Ok(IngressResult::Allowed { headers_to_add, headers_to_remove }) => ok_response(
            headers_to_add,
            headers_to_remove,
        ),
    }
}

/// Render an egress translation outcome into a check response, minting the
/// identity token at `now` where the decision allows the request.
pub fn egress_response(
    outcome: Result<EgressResult, TranslatorError>,
    pki: &Pki,
    now: u64,
) -> (r: CheckResponse)
    ensures
        r@ == render_egress(egress_outcome(outcome), pki.key(), pki.token_lifetime, now),
{
    match outcome {
        Err(e) => internal_error_response(e.message.as_str()),
        Ok(EgressResult::Skip) => noop_ok_response(),
        Ok(EgressResult::Forbidden { reason }) => forbidden_response(reason.as_str()),
        Ok(EgressResult::Allowed { user_id, headers_to_add, headers_to_remove }) => {
            if user_id.as_str().is_empty() {
                forbidden_response("No UserID given for outbound communication.")
            } else {
                let ghost adds_before = headers_view(headers_to_add@);
                let token = pki.mint(user_id.as_str(), now);
                let mut adds = headers_to_add;
                adds.push(Header { name: identity_header_name(), value: token });
                proof {
                    assert(headers_view(adds@) =~= adds_before + seq![
                        HeaderView {
                            name: identity_header(),
                            value: token_of(
                                pki.key(),
                                user_id@,
                                mint_expiry(now, pki.token_lifetime),
                            ),
                        },
                    ]);
                }
                ok_response(adds, headers_to_remove)
            }
        },
    }
}

/// The ingress gateway: checks traffic arriving at the workload.
pub struct IngressServer<T: Translator> {
    pub translator: T,
    pub pki: Pki,
}

impl<T: Translator> IngressServer<T> {
    pub fn new(translator: T, pki: Pki) -> (r: Self)
        ensures
            r.translator == translator,
            r.pki == pki,
    {
        IngressServer { translator, pki }
    }

    /// Decide one inbound request at instant `now`.
    ///
    /// Absence of the mesh identity header is not an error: the request
    /// passes through untouched, so that workloads outside the mesh keep
    /// working. A token that fails verification behaves exactly like an
    /// absent header. Only a verified token reaches the translator, and its
    /// decision alone shapes the response.
    pub fn check(&self, request: &CheckRequest, now: u64) -> (r: CheckResponse)
        ensures
            !request.well_formed() ==> r@ == (ResponseView::Denied {
                status: DenyStatus::InvalidArgument,
                message: malformed_reason(*request),
            }),
            request.well_formed() && lookup(request.header_seq(), identity_header()) is None
                ==> r@ == noop_ok(),
            request.well_formed() && lookup(request.header_seq(), identity_header()) is Some && !(
            exists|s: Seq<char>, e: u64|
                lookup(request.header_seq(), identity_header()) == Some(
                    token_of(self.pki.key(), s, e),
                ) && now <= e) ==> r@ == noop_ok(),
            request.well_formed() ==> forall|s: Seq<char>, e: u64|
                lookup(request.header_seq(), identity_header()) == Some(
                    token_of(self.pki.key(), s, e),
                ) && now <= e ==> r@ == render_ingress(self.translator.ingress_spec(s, *request)),
    {
        let http: &HttpAttributes = match &request.attributes {
            None => {
                return invalid_argument_response("attributes not found");
            },
            Some(attributes) => match &attributes.request {
                None => {
                    return invalid_argument_response("request not found");
                },
                Some(attribute_request) => match &attribute_request.http {
                    None => {
                        return invalid_argument_response("http not found");
                    },
                    Some(http) => http,
                },
            },
        };
        proof {
            assert(*http == request.http());
        }
        let token = match crate::headers::header_value(&http.headers, "x-wirepact-identity") {
            None => {
                return noop_ok_response();
            },
            Some(t) => t,
        };
        match self.pki.verify(token.as_str(), now) {
            Err(_) => noop_ok_response(),
            Ok(subject) => {
                let outcome = self.translator.ingress(subject.as_str(), request);
                ingress_response(outcome)
            },
        }
    }
}

/// The egress gateway: checks traffic leaving the workload.
pub struct EgressServer<T: Translator> {
    pub translator: T,
    pub pki: Pki,
}

impl<T: Translator> EgressServer<T> {
    pub fn new(translator: T, pki: Pki) -> (r: Self)
        ensures
            r.translator == translator,
            r.pki == pki,
    {
        EgressServer { translator, pki }
    }

    /// Decide one outbound request at instant `now`.
    ///
    /// The translator is always consulted — on egress the application's
    /// native credential, not a mesh identity, is the input — and its
    /// decision is rendered by `render_egress`: an allowed request leaves
    /// with a token freshly minted for the resolved subject.
    pub fn check(&self, request: &CheckRequest, now: u64) -> (r: CheckResponse)
        ensures
            !request.well_formed() ==> r@ == (ResponseView::Denied {
                status: DenyStatus::InvalidArgument,
                message: malformed_reason(*request),
            }),
            request.well_formed() ==> r@ == render_egress(
                self.translator.egress_spec(*request),
                self.pki.key(),
                self.pki.token_lifetime,
                now,
            ),
    {
        match &request.attributes {
            None => {
                return invalid_argument_response("attributes not found");
            },
            Some(attributes) => match &attributes.request {
                None => {
                    return invalid_argument_response("request not found");
                },
                Some(attribute_request) => match &attribute_request.http {
                    None => {
                        return invalid_argument_response("http not found");
                    },
                    Some(_) => {},
                },
            },
        };
        let outcome = self.translator.egress(request);
        egress_response(outcome, &self.pki, now)
    }
}

} // verus!
