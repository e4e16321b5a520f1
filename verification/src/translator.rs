//! The translation abstraction: the capability a gateway consults to map
//! between mesh identities and application-native credentials.

use vstd::prelude::*;

use crate::decision::{EgressDecision, EgressResult, IngressDecision, IngressResult};
use crate::request::CheckRequest;

verus! {

/// A failure of the translation itself — its backing lookup being
/// unreachable, say — as opposed to a deliberate `forbidden` decision. The
/// gateway renders it as an internal-error denial.
#[derive(Debug, PartialEq, Eq)]
pub struct TranslatorError {
    pub message: String,
}

/// The outcome of a fallible ingress translation, as a mathematical value.
pub open spec fn ingress_outcome(r: Result<IngressResult, TranslatorError>) -> Result<
    IngressDecision,
    Seq<char>,
> {
    match r {
        Ok(d) => Ok(d@),
        Err(e) => Err(e.message@),
    }
}

/// The outcome of a fallible egress translation, as a mathematical value.
pub open spec fn egress_outcome(r: Result<EgressResult, TranslatorError>) -> Result<
    EgressDecision,
    Seq<char>,
> {
    match r {
        Ok(d) => Ok(d@),
        Err(e) => Err(e.message@),
    }
}

/// A translator bridges the mesh identity domain and one application-native
/// credential scheme. Each operation's result is pinned to a spec function
/// of the implementation, so a decision is a function of the request and
/// the translator's state alone: repeated calls on unchanged state return
/// the same decision.
pub trait Translator: Sized {
    /// What `ingress` decides.
    spec fn ingress_spec(&self, subject_id: Seq<char>, request: CheckRequest) -> Result<
        IngressDecision,
        Seq<char>,
    >;

    /// What `egress` decides.
    spec fn egress_spec(&self, request: CheckRequest) -> Result<EgressDecision, Seq<char>>;

    /// Decide what to do with an inbound request whose mesh identity
    /// verified to `subject_id`.
    fn ingress(&self, subject_id: &str, request: &CheckRequest) -> (r: Result<
        IngressResult,
        TranslatorError,
    >)
        requires
            request.well_formed(),
        ensures
            ingress_outcome(r) == self.ingress_spec(subject_id@, *request),
    ;

    /// Decide what to do with an outbound request carrying, possibly, an
    /// application-native credential.
    fn egress(&self, request: &CheckRequest) -> (r: Result<EgressResult, TranslatorError>)
        requires
            request.well_formed(),
        ensures
            egress_outcome(r) == self.egress_spec(*request),
    ;
}

} // verus!
