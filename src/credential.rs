use vstd::prelude::*;

use crate::error::{option_view, AuthError};

verus! {

/// Name of the cookie that carries the credential verbatim.
pub const TOKEN_COOKIE_NAME: &'static str = "token";

/// Identifier of the configuration entry holding the reference credential.
pub const AUTH_CMS_TOKEN_IDENTIFIER: &'static str = "auth_cms_token";

/// Literal prefix an `Authorization` header value must carry.
pub open spec fn bearer_prefix() -> Seq<char> {
    "Bearer "@
}

/// The credential a request presents: the cookie value if there is one,
/// otherwise the `Authorization` value with its `Bearer ` prefix removed,
/// provided it starts with that prefix.
pub open spec fn presented_credential(
    cookie: Option<Seq<char>>,
    authorization: Option<Seq<char>>,
) -> Option<Seq<char>> {
    match cookie {
        Some(c) => Some(c),
        None => match authorization {
            Some(a) => if bearer_prefix().is_prefix_of(a) {
                Some(a.subrange(bearer_prefix().len() as int, a.len() as int))
            } else {
                None
            },
            None => None,
        },
    }
}

/// Relies on `str::strip_prefix`: it yields the rest of `s` exactly when `s`
/// starts with `p`, and `None` otherwise.
#[verifier::external_body]
fn strip_prefix(s: &str, p: &str) -> (r: Option<String>)
    ensures
        match r {
            Some(t) => p@.is_prefix_of(s@) && t@ == s@.subrange(p@.len() as int, s@.len() as int),
            None => !p@.is_prefix_of(s@),
        },
{
    s.strip_prefix(p).map(|t| t.to_owned())
}

/// Pulls the presented credential out of the request's credential cookie
/// and `Authorization` header value; the cookie wins when both are present.
pub fn extract_token(cookie: Option<&str>, authorization: Option<&str>) -> (r: Result<
    String,
    AuthError,
>)
    ensures
        match presented_credential(option_view(cookie), option_view(authorization)) {
            Some(p) => r matches Ok(t) && t@ == p,
            None => r matches Err(AuthError::TokenMissing),
        },
{
    match cookie {
        Some(c) => Ok(c.to_owned()),
        None => match authorization {
            Some(a) => match strip_prefix(a, "Bearer ") {
                Some(t) => Ok(t),
                None => Err(AuthError::TokenMissing),
            },
            None => Err(AuthError::TokenMissing),
        },
    }
}

} // verus!
