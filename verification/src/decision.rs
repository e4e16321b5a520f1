//! Translation decisions: what a translator tells a gateway to do.
//!
//! A decision is a tagged choice between passing the request through
//! untouched, rejecting it with a reason, and allowing it with header
//! mutations; the egress side additionally resolves the subject that the
//! minted token will assert.

use vstd::prelude::*;
use vstd::string::StringExecFns;

use crate::headers::{headers_view, names_view, Header, HeaderView};

verus! {

/// The mathematical image of an ingress decision.
pub enum IngressDecision {
    Skip,
    Forbidden { reason: Seq<char> },
    Allowed { headers_to_add: Seq<HeaderView>, headers_to_remove: Seq<Seq<char>> },
}

/// A translator's decision for one inbound request.
#[derive(Debug, PartialEq, Eq)]
pub enum IngressResult {
    /// Leave the request untouched.
    Skip,
    /// Reject the request, with the reason reported to the caller.
    Forbidden { reason: String },
    /// Forward the request with the given header mutations applied.
    Allowed { headers_to_add: Vec<Header>, headers_to_remove: Vec<String> },
}

impl View for IngressResult {
    type V = IngressDecision;

    open spec fn view(&self) -> IngressDecision {
        match self {
            IngressResult::Skip => IngressDecision::Skip,
            IngressResult::Forbidden { reason } => IngressDecision::Forbidden {
                reason: reason@,
            },
            IngressResult::Allowed { headers_to_add, headers_to_remove } => {
                IngressDecision::Allowed {
                    headers_to_add: headers_view(headers_to_add@),
                    headers_to_remove: names_view(headers_to_remove@),
                }
            },
        }
    }
}

impl IngressResult {
    pub fn skip() -> (r: Self)
        ensures
            r@ == IngressDecision::Skip,
    {
        IngressResult::Skip
    }

    pub fn forbidden(reason: String) -> (r: Self)
        ensures
            r@ == (IngressDecision::Forbidden { reason: reason@ }),
    {
        IngressResult::Forbidden { reason }
    }

    pub fn allowed(headers_to_add: Vec<Header>, headers_to_remove: Vec<String>) -> (r: Self)
        ensures
            r@ == (IngressDecision::Allowed {
                headers_to_add: headers_view(headers_to_add@),
                headers_to_remove: names_view(headers_to_remove@),
            }),
    {
        IngressResult::Allowed { headers_to_add, headers_to_remove }
    }
}

/// The mathematical image of an egress decision.
pub enum EgressDecision {
    Skip,
    Forbidden { reason: Seq<char> },
    Allowed {
        user_id: Seq<char>,
        headers_to_add: Seq<HeaderView>,
        headers_to_remove: Seq<Seq<char>>,
    },
}

/// A translator's decision for one outbound request.
#[derive(Debug, PartialEq, Eq)]
pub enum EgressResult {
    /// Leave the request untouched.
    Skip,
    /// Reject the request, with the reason reported to the caller.
    Forbidden { reason: String },
    /// Mint a token for `user_id` and forward the request with the token
    /// header and the given mutations applied.
    Allowed { user_id: String, headers_to_add: Vec<Header>, headers_to_remove: Vec<String> },
}

impl View for EgressResult {
    type V = EgressDecision;

    open spec fn view(&self) -> EgressDecision {
        match self {
            EgressResult::Skip => EgressDecision::Skip,
            EgressResult::Forbidden { reason } => EgressDecision::Forbidden { reason: reason@ },
            EgressResult::Allowed { user_id, headers_to_add, headers_to_remove } => {
                EgressDecision::Allowed {
                    user_id: user_id@,
                    headers_to_add: headers_view(headers_to_add@),
                    headers_to_remove: names_view(headers_to_remove@),
                }
            },
        }
    }
}

/// The fixed reason reported when an otherwise-allowed egress decision
/// resolves no subject.
pub open spec fn no_user_id_reason() -> Seq<char> {
    "No UserID given for outbound communication."@
}

impl EgressResult {
    pub fn skip() -> (r: Self)
        ensures
            r@ == EgressDecision::Skip,
    {
        EgressResult::Skip
    }

    pub fn forbidden(reason: String) -> (r: Self)
        ensures
            r@ == (EgressDecision::Forbidden { reason: reason@ }),
    {
        EgressResult::Forbidden { reason }
    }

    /// The deny decision for outbound traffic whose credential resolved to
    /// no subject.
    pub fn no_user_id() -> (r: Self)
        ensures
            r@ == (EgressDecision::Forbidden { reason: no_user_id_reason() }),
    {
        EgressResult::Forbidden {
            reason: String::from_str("No UserID given for outbound communication."),
        }
    }

    pub fn allowed(
        user_id: String,
        headers_to_add: Vec<Header>,
        headers_to_remove: Vec<String>,
    ) -> (r: Self)
        ensures
            r@ == (EgressDecision::Allowed {
                user_id: user_id@,
                headers_to_add: headers_view(headers_to_add@),
                headers_to_remove: names_view(headers_to_remove@),
            }),
    {
        EgressResult::Allowed { user_id, headers_to_add, headers_to_remove }
    }
}

} // verus!
