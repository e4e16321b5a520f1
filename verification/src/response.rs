//! The check response and the renderer that builds its three shapes.

use vstd::prelude::*;
use vstd::string::StringExecFns;

use crate::headers::{headers_view, names_view, Header};
use crate::headers::HeaderView;

verus! {

/// The status class of a denied response.
#[derive(Debug, Clone, Copy, PartialEq, Eq, Structural)]
pub enum DenyStatus {
    /// The request is understood and refused.
    PermissionDenied,
    /// The check request itself is malformed.
    InvalidArgument,
    /// A server-side fault while handling the check.
    Internal,
}

/// The mathematical image of a check response.
pub enum ResponseView {
    Allow { headers_to_add: Seq<HeaderView>, headers_to_remove: Seq<Seq<char>> },
    Denied { status: DenyStatus, message: Seq<char> },
}

/// One check call's response: either forward with header mutations or deny
/// with a status and a reason. Exactly one of the shapes is populated.
#[derive(Debug, PartialEq, Eq)]
pub enum CheckResponse {
    Allow { headers_to_add: Vec<Header>, headers_to_remove: Vec<String> },
    Denied { status: DenyStatus, message: String },
}

impl View for CheckResponse {
    type V = ResponseView;

    open spec fn view(&self) -> ResponseView {
        match self {
            CheckResponse::Allow { headers_to_add, headers_to_remove } => ResponseView::Allow {
                headers_to_add: headers_view(headers_to_add@),
                headers_to_remove: names_view(headers_to_remove@),
            },
            CheckResponse::Denied { status, message } => ResponseView::Denied {
                status: *status,
                message: message@,
            },
        }
    }
}

/// The response that forwards the request untouched.
pub open spec fn noop_ok() -> ResponseView {
    ResponseView::Allow {
        headers_to_add: Seq::empty(),
        headers_to_remove: Seq::empty(),
    }
}

/// An OK response with no header mutation at all.
pub fn noop_ok_response() -> (r: CheckResponse)
    ensures
        r@ == noop_ok(),
{
    let r = CheckResponse::Allow { headers_to_add: Vec::new(), headers_to_remove: Vec::new() };
    proof {
        assert(headers_view(Seq::<Header>::empty()) =~= Seq::<HeaderView>::empty());
        assert(names_view(Seq::<String>::empty()) =~= Seq::<Seq<char>>::empty());
    }
    r
}

/// An OK response that adds and removes the given headers.
pub fn ok_response(headers_to_add: Vec<Header>, headers_to_remove: Vec<String>) -> (r:
    CheckResponse)
    ensures
        r@ == (ResponseView::Allow {
            headers_to_add: headers_view(headers_to_add@),
            headers_to_remove: names_view(headers_to_remove@),
        }),
{
    CheckResponse::Allow { headers_to_add, headers_to_remove }
}

/// The denied response for a forbidden decision; its message is exactly the
/// decision's reason.
pub fn forbidden_response(reason: &str) -> (r: CheckResponse)
    ensures
        r@ == (ResponseView::Denied {
            status: DenyStatus::PermissionDenied,
            message: reason@,
        }),
{
    CheckResponse::Denied { status: DenyStatus::PermissionDenied, message: reason.to_owned() }
}

/// The denied response for a malformed check request.
pub fn invalid_argument_response(message: &str) -> (r: CheckResponse)
    ensures
        r@ == (ResponseView::Denied {
            status: DenyStatus::InvalidArgument,
            message: message@,
        }),
{
    CheckResponse::Denied { status: DenyStatus::InvalidArgument, message: message.to_owned() }
}

/// The denied response for a server-side fault.
pub fn internal_error_response(message: &str) -> (r: CheckResponse)
    ensures
        r@ == (ResponseView::Denied {
            status: DenyStatus::Internal,
            message: message@,
        }),
{
    CheckResponse::Denied { status: DenyStatus::Internal, message: message.to_owned() }
}

} // verus!
