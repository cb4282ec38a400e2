//! Obtain an OAuth2 access token from Microsoft Entra ID using a client
//! certificate instead of a client secret.
//!
//! The library builds a signed JWT client assertion (RFC 7523 style), the
//! token-endpoint URL for a tenant, and the form body of the token request,
//! and interprets the token endpoint's JSON response.

use vstd::prelude::*;

pub mod assertion;
pub mod config;
pub mod crypto;
pub mod encode;
pub mod endpoint;
pub mod errors;
pub mod json;
pub mod response;
pub mod text;

verus! {

/// Lifetime of a client assertion in seconds: `exp - nbf`.
pub const ASSERTION_LIFETIME_SECS: u64 = 600;

} // verus!
