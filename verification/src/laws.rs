//! The library's cross-function laws, stated and proved once.
//!
//! Laws that concern a single function stand in that function's contract:
//! the round trip between minting and verification is the contract of
//! `Pki::verify`, pass-through for absent or unverifiable identity headers
//! is the contract of `IngressServer::check`, and the exact rendering of
//! forbidden decisions is the contract of `forbidden_response` and the two
//! render functions. What relates several functions is proved here.

use vstd::prelude::*;

use crate::decision::{no_user_id_reason, EgressDecision};
use crate::headers::{identity_header, HeaderView};
use crate::pki::{mint_expiry, token_of};
use crate::request::CheckRequest;
use crate::response::{DenyStatus, ResponseView};
use crate::server::{render_egress, render_ingress};
use crate::translator::Translator;

verus! {

/// An allowed egress decision with a subject renders an OK response that
/// carries, under the mesh identity header, exactly the token minted for
/// that subject — the token that `Pki::verify` accepts back to the subject
/// until its expiry — and every header the translator asked to add.
pub proof fn lemma_egress_allow_response(
    user_id: Seq<char>,
    headers_to_add: Seq<HeaderView>,
    headers_to_remove: Seq<Seq<char>>,
    key: Seq<u8>,
    lifetime: u64,
    now: u64,
)
    requires
        user_id.len() > 0,
    ensures
        ({
            let response = render_egress(
                Ok(
                    EgressDecision::Allowed {
                        user_id,
                        headers_to_add,
                        headers_to_remove,
                    },
                ),
                key,
                lifetime,
                now,
            );
            let token_header = HeaderView {
                name: identity_header(),
                value: token_of(key, user_id, mint_expiry(now, lifetime)),
            };
            let rendered = headers_to_add + seq![token_header];
            &&& response == (ResponseView::Allow {
                headers_to_add: rendered,
                headers_to_remove,
            })
            &&& rendered.contains(token_header)
            &&& forall|h: HeaderView| headers_to_add.contains(h) ==> rendered.contains(h)
        }),
{
    let token_header = HeaderView {
        name: identity_header(),
        value: token_of(key, user_id, mint_expiry(now, lifetime)),
    };
    let rendered = headers_to_add + seq![token_header];
    assert(rendered[headers_to_add.len() as int] == token_header);
    assert(rendered.contains(token_header));
    assert forall|h: HeaderView| headers_to_add.contains(h) implies rendered.contains(h) by {
        let i = choose|i: int| 0 <= i < headers_to_add.len() && headers_to_add[i] == h;
        assert(rendered[i] == h);
    }
}

/// An otherwise-allowed egress decision without a subject renders a denial
/// with the fixed no-user-id reason — never a pass-through.
pub proof fn lemma_egress_missing_subject(
    user_id: Seq<char>,
    headers_to_add: Seq<HeaderView>,
    headers_to_remove: Seq<Seq<char>>,
    key: Seq<u8>,
    lifetime: u64,
    now: u64,
)
    requires
        user_id.len() == 0,
    ensures
        render_egress(
            Ok(EgressDecision::Allowed { user_id, headers_to_add, headers_to_remove }),
            key,
            lifetime,
            now,
        ) == (ResponseView::Denied {
            status: DenyStatus::PermissionDenied,
            message: no_user_id_reason(),
        }),
{
}

/// Translation decisions are idempotent: a translator consulted twice with
/// the same request, its backing state unchanged, decides the same, and so
/// both checks render the same response.
pub proof fn lemma_translation_idempotent<T: Translator>(
    translator: &T,
    subject_id: Seq<char>,
    first: CheckRequest,
    second: CheckRequest,
    key: Seq<u8>,
    lifetime: u64,
    now: u64,
)
    requires
        first == second,
    ensures
        translator.ingress_spec(subject_id, first) == translator.ingress_spec(subject_id, second),
        translator.egress_spec(first) == translator.egress_spec(second),
        render_ingress(translator.ingress_spec(subject_id, first)) == render_ingress(
            translator.ingress_spec(subject_id, second),
        ),
        render_egress(translator.egress_spec(first), key, lifetime, now) == render_egress(
            translator.egress_spec(second),
            key,
            lifetime,
            now,
        ),
{
}

} // verus!
