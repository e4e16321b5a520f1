//! The check request: the proxy's snapshot of one HTTP request.
//!
//! The attribute structure mirrors the external-authorization protocol,
//! where each nesting level is optional on the wire; a request missing one
//! of them is malformed and is answered with an invalid-argument denial.

use vstd::prelude::*;

use crate::headers::{headers_view, Header, HeaderView};

verus! {

/// The HTTP attributes of the checked request.
#[derive(Debug, PartialEq, Eq)]
pub struct HttpAttributes {
    pub method: String,
    pub path: String,
    /// Lowercase header names with their values, last write wins.
    pub headers: Vec<Header>,
}

/// The request half of the attribute context.
#[derive(Debug, PartialEq, Eq)]
pub struct AttributeRequest {
    pub http: Option<HttpAttributes>,
}

/// Connection attributes accompanying one check call.
#[derive(Debug, PartialEq, Eq)]
pub struct AttributeContext {
    pub request: Option<AttributeRequest>,
}

/// One check call's request, as handed over by the proxy.
#[derive(Debug, PartialEq, Eq)]
pub struct CheckRequest {
    pub attributes: Option<AttributeContext>,
}

impl CheckRequest {
    /// All expected attribute substructures are present.
    pub open spec fn well_formed(&self) -> bool {
        &&& self.attributes is Some
        &&& self.attributes->0.request is Some
        &&& self.attributes->0.request->0.http is Some
    }

    /// The HTTP attributes of a well-formed request.
    pub open spec fn http(&self) -> HttpAttributes {
        self.attributes->0.request->0.http->0
    }

    /// The headers of a well-formed request.
    pub open spec fn header_seq(&self) -> Seq<HeaderView> {
        headers_view(self.http().headers@)
    }
}

} // verus!
