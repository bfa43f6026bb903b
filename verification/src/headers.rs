//! Credential resolution and the header set of the search request.
//!
//! The network side of token acquisition (the guest-activation call) is
//! performed by the embedding application; this module holds the verified
//! decisions around it: whether that call is needed at all, how the
//! freshly issued token is read out of the activation response, and the
//! exact header pairs the search request carries.

use vstd::prelude::*;

use crate::json::{opt_str, spec_get, Json};
use crate::models::TwitterError;

verus! {

/// What the run must do to obtain its credential pair.
///
/// `Ready` carries both tokens and demands no network call; activation is
/// required exactly when the caller supplied no guest token.
pub enum TokenPlan {
    Ready { bearer: String, guest: String },
    NeedsActivation { bearer: String },
}

/// The bearer value used when the caller supplies none.  Callers normally
/// pass their own bearer through the override; this stand-in is never a
/// working credential.
pub fn default_bearer() -> (r: String)
    ensures
        r@ == "Bearer SECRET-REDACTED"@,
{
    "Bearer SECRET-REDACTED".to_owned()
}

/// Decides how the credential pair is obtained.  When a guest token is
/// supplied, both overrides are taken verbatim and no activation call is
/// planned; otherwise the plan demands one, under the chosen bearer.
pub fn plan_tokens(bearer_override: Option<String>, guest_override: Option<String>) -> (r:
    TokenPlan)
    ensures
        match guest_override {
            Some(g) => r matches TokenPlan::Ready { bearer, guest } && guest == g && (
            match bearer_override {
                Some(b) => bearer == b,
                None => bearer@ == "Bearer SECRET-REDACTED"@,
            }),
            None => r matches TokenPlan::NeedsActivation { bearer } && (match bearer_override {
                Some(b) => bearer == b,
                None => bearer@ == "Bearer SECRET-REDACTED"@,
            }),
        },
{
    let bearer: String = match bearer_override {
        Some(b) => b,
        None => default_bearer(),
    };
    match guest_override {
        Some(g) => TokenPlan::Ready { bearer, guest: g },
        None => TokenPlan::NeedsActivation { bearer },
    }
}

/// Reads the freshly issued guest token out of the activation response.
/// Fails with `TwitterError::Auth` exactly when the token field is absent
/// or not a string.
pub fn guest_from_activation(doc: &Json) -> (r: Result<String, TwitterError>)
    ensures
        match r {
            Ok(g) => opt_str(spec_get(*doc, "guest_token"@)) == Some(g@),
            Err(e) => e == TwitterError::Auth && opt_str(spec_get(*doc, "guest_token"@)) is None,
        },
{
    match doc.get("guest_token") {
        Some(j) => match j.as_str() {
            Some(s) => Ok(s.clone()),
            None => Err(TwitterError::Auth),
        },
        None => Err(TwitterError::Auth),
    }
}

/// The header pairs of the search request: the bearer authorization and
/// the guest-token header, in that order.
pub fn build_headers(bearer: String, guest: String) -> (r: Vec<(String, String)>)
    ensures
        r@.len() == 2,
        r@[0].0@ == "authorization"@,
        r@[0].1 == bearer,
        r@[1].0@ == "x-guest-token"@,
        r@[1].1 == guest,
{
    let mut v: Vec<(String, String)> = Vec::new();
    v.push(("authorization".to_owned(), bearer));
    v.push(("x-guest-token".to_owned(), guest));
    v
}

} // verus!
