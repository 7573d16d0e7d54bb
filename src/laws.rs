use vstd::prelude::*;

use crate::credential::{bearer_prefix, presented_credential};
use crate::error::Verdict;
use crate::validation::{
    cache_after_fetch, checked_reference, not_configured, plan_for, reference_verdict, run_verdict,
    Plan,
};

verus! {

/// A request with neither the credential cookie nor an `Authorization`
/// header is refused as missing a credential, whatever the cache and the
/// store hold.
pub proof fn lemma_missing_credential(
    entries: Map<Seq<char>, Seq<char>>,
    session: Seq<char>,
    stored: Result<Seq<char>, Seq<char>>,
)
    ensures
        presented_credential(None, None) is None,
        run_verdict(entries, session, None, None, stored).0 == Verdict::MissingCredential,
{
}

/// Without a cookie, a header `Bearer X` presents exactly `X`.
pub proof fn lemma_bearer_header_is_presented(x: Seq<char>)
    ensures
        presented_credential(None, Some(bearer_prefix() + x)) == Some(x),
{
    let h = bearer_prefix() + x;
    assert(h.subrange(0, bearer_prefix().len() as int) =~= bearer_prefix());
    assert(h.subrange(bearer_prefix().len() as int, h.len() as int) =~= x);
}

/// When the cookie and a header are both present, the cookie value is the
/// presented credential.
pub proof fn lemma_cookie_takes_precedence(c: Seq<char>, h: Seq<char>)
    ensures
        presented_credential(Some(c), Some(h)) == Some(c),
{
}

/// Validating the same request twice, with the store unchanged, gives the
/// same verdict and leaves the cache as the first validation left it; when
/// the first one obtained a usable credential (or needed none), the second
/// is decided without a store lookup.
pub proof fn lemma_validation_idempotent(
    entries: Map<Seq<char>, Seq<char>>,
    session: Seq<char>,
    cookie: Option<Seq<char>>,
    authorization: Option<Seq<char>>,
    stored: Result<Seq<char>, Seq<char>>,
)
    ensures
        ({
            let (v1, m1) = run_verdict(entries, session, cookie, authorization, stored);
            let (v2, m2) = run_verdict(m1, session, cookie, authorization, stored);
            &&& v2 == v1
            &&& m2 == m1
            &&& (checked_reference(stored) is Ok || !(plan_for(entries, session, cookie, authorization) is Fetch))
                ==> !(plan_for(m1, session, cookie, authorization) is Fetch)
        }),
{
}

/// After a lookup for `session` returned the usable credential `value`, the
/// cache yields `value` for `session`, and the next validation for that
/// session needs no store lookup.
pub proof fn lemma_cache_hit_after_fetch(
    entries: Map<Seq<char>, Seq<char>>,
    session: Seq<char>,
    value: Seq<char>,
    cookie: Option<Seq<char>>,
    authorization: Option<Seq<char>>,
)
    requires
        value.len() > 0,
    ensures
        cache_after_fetch(entries, session, Ok(value)).contains_key(session),
        cache_after_fetch(entries, session, Ok(value))[session] == value,
        !(plan_for(cache_after_fetch(entries, session, Ok(value)), session, cookie, authorization) is Fetch),
{
}

/// An empty reference credential is a store failure and never a match, even
/// against an empty presented credential; so while the cache holds nothing
/// for the session, a store holding an empty value never lets a request in.
pub proof fn lemma_empty_reference_never_allows(
    presented: Seq<char>,
    entries: Map<Seq<char>, Seq<char>>,
    session: Seq<char>,
    cookie: Option<Seq<char>>,
    authorization: Option<Seq<char>>,
)
    ensures
        reference_verdict(presented, Ok(Seq::empty())) == Verdict::StoreFailure(not_configured()),
        reference_verdict(presented, Ok(Seq::empty())) != Verdict::Allowed,
        !entries.contains_key(session) ==> run_verdict(entries, session, cookie, authorization, Ok(Seq::empty())).0 != Verdict::Allowed,
        !entries.contains_key(session) ==> cache_after_fetch(entries, session, Ok(Seq::empty())) == entries,
{
}

} // verus!
