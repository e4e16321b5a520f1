//! Identity-translation gateway core for a service mesh.
//!
//! The crate implements the logic of an external-authorization sidecar with
//! two listeners: an ingress gateway that turns a signed mesh identity token
//! into an application-native credential, and an egress gateway that turns an
//! application-native credential into a freshly minted mesh identity token.
//! All decision and rendering logic is verified; calls into the `base64`
//! crate and UTF-8 conversion stand behind a small trusted boundary.

pub mod b64;
pub mod basic;
pub mod decision;
pub mod headers;
pub mod hexcode;
pub mod kubernetes;
pub mod laws;
pub mod mac;
pub mod pki;
pub mod repository;
pub mod request;
pub mod response;
pub mod server;
pub mod split;
pub mod translator;
