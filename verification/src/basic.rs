//! The basic-auth translator: the concrete consumer of the translation
//! abstraction that speaks the `Basic` authorization scheme.

use vstd::prelude::*;
use vstd::pervasive::unreached;
use vstd::string::{StrSliceExecFns, StringExecFns};
use vstd::utf8::{decode_utf8, encode_utf8, valid_utf8};

use crate::b64::{b64_decode, b64_decode_of, b64_encode, b64_of, bytes_to_string};
use crate::decision::{
    no_user_id_reason, EgressDecision, EgressResult, IngressDecision, IngressResult,
};
use crate::headers::{
    authorization_header, authorization_header_name, headers_view, identity_header,
    identity_header_name, lookup, names_view, Header, HeaderView,
};
use crate::repository::Repository;
use crate::request::{CheckRequest, HttpAttributes};
use crate::split::{split_on, split_string, strings_view};
use crate::translator::{egress_outcome, ingress_outcome, Translator, TranslatorError};

verus! {

/// The authorization-header value for a username and password: `Basic `
/// followed by the base64 of `username:password`.
pub open spec fn basic_credential(username: Seq<char>, password: Seq<char>) -> Seq<char> {
    "Basic "@ + b64_of(encode_utf8(username + ":"@ + password))
}

/// The reason reported for an authorization header whose basic-auth data
/// cannot be read back to a username and password pair.
pub open spec fn corrupt_reason() -> Seq<char> {
    "Basic Auth data is corrupted."@
}

/// The reason reported when a verified subject has no stored credential.
pub open spec fn no_user_found_reason() -> Seq<char> {
    "No user information found."@
}

/// Whether a header value opens with the `Basic ` scheme prefix.
pub open spec fn has_basic_prefix(v: Seq<char>) -> bool {
    v.len() >= 6 && v.take(6) == "Basic "@
}

/// A translator that maps subjects to and from basic-auth credentials
/// through a credential repository.
pub struct BasicAuthTranslator<R: Repository> {
    pub repository: R,
}

impl<R: Repository> BasicAuthTranslator<R> {
    pub fn new(repository: R) -> (r: Self)
        ensures
            r.repository == repository,
    {
        BasicAuthTranslator { repository }
    }
}

impl<R: Repository> Translator for BasicAuthTranslator<R> {
    /// Inbound: the verified subject is looked up; a stored credential
    /// becomes an added authorization header, with the mesh identity header
    /// removed so the application never observes it; a subject without a
    /// credential is forbidden.
    open spec fn ingress_spec(&self, subject_id: Seq<char>, request: CheckRequest) -> Result<
        IngressDecision,
        Seq<char>,
    > {
        match self.repository.lookup_user_spec(subject_id) {
            None => Ok(IngressDecision::Forbidden { reason: no_user_found_reason() }),
            Some((username, password)) => Ok(
                IngressDecision::Allowed {
                    headers_to_add: seq![
                        HeaderView {
                            name: authorization_header(),
                            value: basic_credential(username, password),
                        },
                    ],
                    headers_to_remove: seq![identity_header()],
                },
            ),
        }
    }

    /// Outbound: a request without a basic-auth authorization header is
    /// skipped; unreadable basic-auth data is forbidden; a readable
    /// `username:password` pair resolves through the repository to the
    /// subject the minted token will assert, with the authorization header
    /// removed so the credential does not leave the workload.
    open spec fn egress_spec(&self, request: CheckRequest) -> Result<EgressDecision, Seq<char>> {
        match lookup(request.header_seq(), authorization_header()) {
            None => Ok(EgressDecision::Skip),
            Some(v) => if !has_basic_prefix(v) {
                Ok(EgressDecision::Skip)
            } else {
                match b64_decode_of(v.skip(6)) {
                    None => Ok(EgressDecision::Forbidden { reason: corrupt_reason() }),
                    Some(bytes) => if !valid_utf8(bytes) {
                        Ok(EgressDecision::Forbidden { reason: corrupt_reason() })
                    } else {
                        let parts = split_on(decode_utf8(bytes), ':');
                        if parts.len() != 2 {
                            Ok(EgressDecision::Forbidden { reason: corrupt_reason() })
                        } else {
                            match self.repository.lookup_id_spec(parts[0], parts[1]) {
                                Some(user_id) => Ok(
                                    EgressDecision::Allowed {
                                        user_id,
                                        headers_to_add: Seq::empty(),
                                        headers_to_remove: seq![authorization_header()],
                                    },
                                ),
                                None => Ok(
                                    EgressDecision::Forbidden { reason: no_user_id_reason() },
                                ),
                            }
                        }
                    },
                }
            },
        }
    }

    fn ingress(&self, subject_id: &str, request: &CheckRequest) -> (r: Result<
        IngressResult,
        TranslatorError,
    >) {
        match self.repository.lookup_user(subject_id) {
            None => Ok(IngressResult::forbidden(String::from_str("No user information found."))),
            Some((username, password)) => {
                let credential = username.concat(":").concat(password.as_str());
                let bytes = credential.as_str().as_bytes_vec();
                let encoded = b64_encode(bytes.as_slice());
                let value = String::from_str("Basic ").concat(encoded.as_str());
                let mut headers_to_add: Vec<Header> = Vec::new();
                headers_to_add.push(Header { name: authorization_header_name(), value });
                let mut headers_to_remove: Vec<String> = Vec::new();
                headers_to_remove.push(identity_header_name());
                proof {
                    let pair = self.repository.lookup_user_spec(subject_id@)->0;
                    assert(headers_view(headers_to_add@) =~= seq![
                        HeaderView {
                            name: authorization_header(),
                            value: basic_credential(pair.0, pair.1),
                        },
                    ]);
                    assert(names_view(headers_to_remove@) =~= seq![identity_header()]);
                }
                Ok(IngressResult::allowed(headers_to_add, headers_to_remove))
            },
        }
    }

    fn egress(&self, request: &CheckRequest) -> (r: Result<EgressResult, TranslatorError>) {
        let http: &HttpAttributes = match &request.attributes {
            Some(attributes) => match &attributes.request {
                Some(attribute_request) => match &attribute_request.http {
                    Some(http) => http,
                    None => unreached(),
                },
                None => unreached(),
            },
            None => unreached(),
        };
        proof {
            assert(*http == request.http());
        }
        let auth = match crate::headers::header_value(&http.headers, "authorization") {
            None => {
                return Ok(EgressResult::skip());
            },
            Some(v) => v,
        };
        let n = auth.as_str().unicode_len();
        if n < 6 {
            return Ok(EgressResult::skip());
        }
        let prefix = auth.as_str().substring_char(0, 6).to_owned();
        if !(prefix == String::from_str("Basic ")) {
            proof {
                assert(prefix@ =~= auth@.take(6));
            }
            return Ok(EgressResult::skip());
        }
        proof {
            assert(prefix@ =~= auth@.take(6));
        }
        let rest = auth.as_str().substring_char(6, n);
        proof {
            assert(rest@ =~= auth@.skip(6));
        }
        let bytes = match b64_decode(rest) {
            None => {
                return Ok(EgressResult::forbidden(String::from_str(
                    "Basic Auth data is corrupted.",
                )));
            },
            Some(b) => b,
        };
        let payload = match bytes_to_string(bytes) {
            None => {
                return Ok(EgressResult::forbidden(String::from_str(
                    "Basic Auth data is corrupted.",
                )));
            },
            Some(p) => p,
        };
        let parts = split_string(payload.as_str(), ':');
        if parts.len() != 2 {
            return Ok(EgressResult::forbidden(String::from_str("Basic Auth data is corrupted.")));
        }
        proof {
            assert(strings_view(parts@)[0] == parts@[0]@);
            assert(strings_view(parts@)[1] == parts@[1]@);
        }
        match self.repository.lookup_id(parts[0].as_str(), parts[1].as_str()) {
            Some(user_id) => {
                let mut headers_to_remove: Vec<String> = Vec::new();
                headers_to_remove.push(authorization_header_name());
                proof {
                    assert(headers_view(Seq::<Header>::empty()) =~= Seq::<HeaderView>::empty());
                    assert(names_view(headers_to_remove@) =~= seq![authorization_header()]);
                }
                Ok(EgressResult::allowed(user_id, Vec::new(), headers_to_remove))
            },
            None => Ok(EgressResult::no_user_id()),
        }
    }
}

} // verus!
