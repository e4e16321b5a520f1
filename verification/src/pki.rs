//! The trust engine: minting and verifying mesh identity tokens.
//!
//! A token binds a subject identifier to an expiry instant and carries a tag
//! keyed by the trust material. Its text is `hex16(expiry)` followed by
//! `hex16(tag)` followed by the base64 of the subject's UTF-8 bytes; the two
//! fixed-width fields make the grammar unambiguous without separators.
//!
//! Trust material is provisioned once at startup and immutable afterwards.
//! The tag is keyed by the certificate-authority bytes, the trust root that
//! every sidecar of the mesh shares, so a token minted by any gateway
//! provisioned from the same authority verifies here; the local certificate
//! and private key are the process's own provisioned identity.

use vstd::prelude::*;
use vstd::bytes::{spec_u64_to_le_bytes, u64_to_le_bytes};
use vstd::string::{StrSliceExecFns, StringExecFns};
use vstd::utf8::{encode_utf8, encode_utf8_decode_utf8, encode_utf8_valid_utf8};

use crate::b64::{b64_decode, b64_encode, b64_of, bytes_to_string};
use crate::hexcode::{hex16, hex16_parse, lemma_hex_digits_len, u64_to_hex16};
use crate::mac::{compute_tag, push_all, tag_of};

verus! {

/// The certificate and key material the engine is bootstrapped with.
pub struct TrustMaterial {
    /// Certificate of the mesh's central authority: the shared trust root.
    pub ca_certificate: Vec<u8>,
    /// Certificate issued to this process by the authority.
    pub local_certificate: Vec<u8>,
    /// Private key belonging to the local certificate.
    pub local_private_key: Vec<u8>,
}

/// Why a token failed verification. Callers deny on each of the three, but
/// the distinction matters for observability.
#[derive(Debug, Clone, Copy, PartialEq, Eq)]
pub enum VerificationError {
    /// The text is not a well-formed token.
    Malformed,
    /// The token is well-formed and correctly signed, but its expiry has
    /// passed.
    Expired,
    /// The token is well-formed, but the tag does not match the trust root.
    SignatureInvalid,
}

/// The tag of a token for `subject_bytes` expiring at `exp`, keyed by `key`.
pub open spec fn sig_of(key: Seq<u8>, subject_bytes: Seq<u8>, exp: u64) -> u64 {
    tag_of(key + spec_u64_to_le_bytes(exp) + subject_bytes)
}

/// The tag carried by the token for `subject` expiring at `exp`.
pub open spec fn token_sig(key: Seq<u8>, subject: Seq<char>, exp: u64) -> u64 {
    sig_of(key, encode_utf8(subject), exp)
}

/// The complete token text for `subject` expiring at `exp`, keyed by `key`.
pub open spec fn token_of(key: Seq<u8>, subject: Seq<char>, exp: u64) -> Seq<char> {
    hex16(exp) + hex16(token_sig(key, subject, exp)) + b64_of(encode_utf8(subject))
}

/// The expiry minted at `now` with a configured `lifetime`, saturating at
/// the largest representable instant.
pub open spec fn mint_expiry(now: u64, lifetime: u64) -> u64 {
    if now + lifetime <= u64::MAX {
        (now + lifetime) as u64
    } else {
        u64::MAX
    }
}

/// The trust engine. Constructed once at startup from bootstrapped trust
/// material, then shared read-only by both gateways.
pub struct Pki {
    pub trust: TrustMaterial,
    /// How long a minted token stays valid, in seconds.
    pub token_lifetime: u64,
}

impl Pki {
    /// The bytes that key token tags: the mesh's shared trust root.
    pub open spec fn key(&self) -> Seq<u8> {
        self.trust.ca_certificate@
    }

    pub fn new(trust: TrustMaterial, token_lifetime: u64) -> (r: Pki)
        ensures
            r.trust == trust,
            r.token_lifetime == token_lifetime,
    {
        Pki { trust, token_lifetime }
    }

    fn sign(&self, exp: u64, subject_bytes: &Vec<u8>) -> (r: u64)
        ensures
            r == sig_of(self.key(), subject_bytes@, exp),
    {
        let mut buf: Vec<u8> = Vec::new();
        push_all(&mut buf, &self.trust.ca_certificate);
        let exp_bytes = u64_to_le_bytes(exp);
        push_all(&mut buf, &exp_bytes);
        push_all(&mut buf, subject_bytes);
        let tag = compute_tag(&buf);
        proof {
            assert(buf@ =~= self.key() + spec_u64_to_le_bytes(exp) + subject_bytes@);
        }
        tag
    }

    /// Mint a token asserting `subject`, signed with the trust material,
    /// valid from `now` for the configured lifetime.
    pub fn mint(&self, subject: &str, now: u64) -> (r: String)
        ensures
            r@ == token_of(self.key(), subject@, mint_expiry(now, self.token_lifetime)),
    {
        let exp: u64 = if now <= u64::MAX - self.token_lifetime {
            now + self.token_lifetime
        } else {
            u64::MAX
        };
        let subject_bytes = subject.as_bytes_vec();
        let sig = self.sign(exp, &subject_bytes);
        let hex_exp = u64_to_hex16(exp);
        let hex_sig = u64_to_hex16(sig);
        let b64_subject = b64_encode(subject_bytes.as_slice());
        let r = hex_exp.concat(hex_sig.as_str()).concat(b64_subject.as_str());
        proof {
            assert(r@ =~= token_of(self.key(), subject@, exp));
        }
        r
    }

    /// Check `token` against the trust material and the instant `now`, and
    /// return the asserted subject.
    ///
    /// The contract is the round-trip law of the engine: every token equal
    /// to `token_of(key, s, e)` — in particular every token `mint` produces
    /// — verifies to exactly `s` while `now <= e` and is reported expired
    /// afterwards, and verification succeeds on nothing else.
    pub fn verify(&self, token: &str, now: u64) -> (r: Result<String, VerificationError>)
        ensures
            forall|s: Seq<char>, e: u64|
                token@ == token_of(self.key(), s, e) && now <= e ==> r is Ok && (r->Ok_0)@ == s,
            forall|s: Seq<char>, e: u64|
                token@ == token_of(self.key(), s, e) && now > e ==> r == Err::<
                    String,
                    VerificationError,
                >(VerificationError::Expired),
            r is Ok ==> exists|e: u64|
                token@ == token_of(self.key(), (r->Ok_0)@, e) && now <= e,
            r == Err::<String, VerificationError>(VerificationError::Expired) ==> exists|
                s: Seq<char>,
                e: u64,
            |
                token@ == token_of(self.key(), s, e) && now > e,
            r == Err::<String, VerificationError>(VerificationError::SignatureInvalid) ==> exists|
                s: Seq<char>,
                e: u64,
                g: u64,
            |
                token@ == hex16(e) + hex16(g) + b64_of(encode_utf8(s)) && g != token_sig(
                    self.key(),
                    s,
                    e,
                ),
    {
        let ghost key = self.key();
        let n = token.unicode_len();
        proof {
            assert forall|s: Seq<char>, e: u64|
                token@ == token_of(key, s, e) implies token@.len() >= 32 && token@.subrange(
                0,
                16,
            ) == hex16(e) && token@.subrange(16, 32) == hex16(token_sig(key, s, e))
                && token@.subrange(32, token@.len() as int) == b64_of(encode_utf8(s)) by {
                lemma_hex_digits_len(e as int, 16);
                lemma_hex_digits_len(token_sig(key, s, e) as int, 16);
                assert(token@.subrange(0, 16) =~= hex16(e));
                assert(token@.subrange(16, 32) =~= hex16(token_sig(key, s, e)));
                assert(token@.subrange(32, token@.len() as int) =~= b64_of(encode_utf8(s)));
            }
        }
        if n < 32 {
            return Err(VerificationError::Malformed);
        }
        let exp = match hex16_parse(token, 0) {
            Some(v) => v,
            None => {
                return Err(VerificationError::Malformed);
            },
        };
        let sig_claim = match hex16_parse(token, 16) {
            Some(v) => v,
            None => {
                return Err(VerificationError::Malformed);
            },
        };
        let part3 = token.substring_char(32, n);
        proof {
            assert(part3@ == token@.subrange(32, token@.len() as int));
        }
        let bytes = match b64_decode(part3) {
            Some(b) => b,
            None => {
                return Err(VerificationError::Malformed);
            },
        };
        let subject = match bytes_to_string(bytes) {
            Some(s) => s,
            None => {
                proof {
                    broadcast use encode_utf8_valid_utf8;

                }
                return Err(VerificationError::Malformed);
            },
        };
        let subject_bytes = subject.as_str().as_bytes_vec();
        let reencoded = b64_encode(subject_bytes.as_slice());
        let part3_owned = part3.to_owned();
        if !(reencoded == part3_owned) {
            proof {
                broadcast use encode_utf8_decode_utf8;

            }
            return Err(VerificationError::Malformed);
        }
        let sig = self.sign(exp, &subject_bytes);
        proof {
            broadcast use encode_utf8_decode_utf8;

        }
        proof {
            assert(token@ =~= token@.subrange(0, 16) + token@.subrange(16, 32) + token@.subrange(
                32,
                token@.len() as int,
            ));
            assert(part3@ == b64_of(encode_utf8(subject@)));
            assert(token@ == hex16(exp) + hex16(sig_claim) + b64_of(encode_utf8(subject@)));
        }
        if sig != sig_claim {
            proof {
                assert(sig_claim != token_sig(key, subject@, exp));
            }
            return Err(VerificationError::SignatureInvalid);
        }
        if now > exp {
            proof {
                assert(token@ == token_of(key, subject@, exp) && now > exp);
            }
            return Err(VerificationError::Expired);
        }
        proof {
            assert(token@ == token_of(key, subject@, exp));
        }
        let result: Result<String, VerificationError> = Ok(subject);
        proof {
            assert(token@ == token_of(self.key(), (result->Ok_0)@, exp) && now <= exp);
            assert(exists|e: u64| token@ == token_of(self.key(), (result->Ok_0)@, e) && now <= e);
        }
        result
    }
}

} // verus!
