use vstd::prelude::*;

use crate::cache::CmsTokenCache;
use crate::credential::{extract_token, presented_credential};
use crate::error::{option_view, verdict_of, AuthError, Verdict};

verus! {

/// Detail reported when the store holds an empty reference credential.
pub open spec fn not_configured() -> Seq<char> {
    "credential not configured"@
}

/// Detail reported when the store fails without saying why.
pub open spec fn lookup_failed() -> Seq<char> {
    "configuration store lookup failed"@
}

/// The reference credential after the emptiness check: an empty value or a
/// store error becomes a failure detail, never a credential.
pub open spec fn checked_reference(fetched: Result<Seq<char>, Seq<char>>) -> Result<
    Seq<char>,
    Seq<char>,
> {
    match fetched {
        Ok(v) => if v.len() > 0 {
            Ok(v)
        } else {
            Err(not_configured())
        },
        Err(d) => if d.len() > 0 {
            Err(d)
        } else {
            Err(lookup_failed())
        },
    }
}

/// Verdict for a presented credential against a reference lookup result.
pub open spec fn reference_verdict(presented: Seq<char>, fetched: Result<Seq<char>, Seq<char>>) -> Verdict {
    match checked_reference(fetched) {
        Ok(v) => if v == presented {
            Verdict::Allowed
        } else {
            Verdict::InvalidCredential
        },
        Err(d) => Verdict::StoreFailure(d),
    }
}

/// What the first step of a validation decides.
pub enum Plan {
    /// The validation is over with this verdict.
    Decided(Verdict),
    /// The reference credential must be fetched; carries the presented one.
    Fetch(Seq<char>),
}

/// First step of a validation against the cache contents `entries`.
pub open spec fn plan_for(
    entries: Map<Seq<char>, Seq<char>>,
    session: Seq<char>,
    cookie: Option<Seq<char>>,
    authorization: Option<Seq<char>>,
) -> Plan {
    match presented_credential(cookie, authorization) {
        None => Plan::Decided(Verdict::MissingCredential),
        Some(p) => if entries.contains_key(session) {
            Plan::Decided(reference_verdict(p, Ok(entries[session])))
        } else {
            Plan::Fetch(p)
        },
    }
}

/// Cache contents after a store lookup for `session` returned `fetched`:
/// filled only when a usable credential came back.
pub open spec fn cache_after_fetch(
    entries: Map<Seq<char>, Seq<char>>,
    session: Seq<char>,
    fetched: Result<Seq<char>, Seq<char>>,
) -> Map<Seq<char>, Seq<char>> {
    match checked_reference(fetched) {
        Ok(v) => entries.insert(session, v),
        Err(_) => entries,
    }
}

/// A whole validation, with `stored` as what the store would answer:
/// the verdict and the cache contents afterwards.
pub open spec fn run_verdict(
    entries: Map<Seq<char>, Seq<char>>,
    session: Seq<char>,
    cookie: Option<Seq<char>>,
    authorization: Option<Seq<char>>,
    stored: Result<Seq<char>, Seq<char>>,
) -> (Verdict, Map<Seq<char>, Seq<char>>) {
    match plan_for(entries, session, cookie, authorization) {
        Plan::Decided(v) => (v, entries),
        Plan::Fetch(p) => (reference_verdict(p, stored), cache_after_fetch(entries, session, stored)),
    }
}

pub open spec fn result_view(r: Result<String, String>) -> Result<Seq<char>, Seq<char>> {
    match r {
        Ok(v) => Ok(v@),
        Err(d) => Err(d@),
    }
}

/// First step of a validation, as returned to the caller.
pub enum Step {
    /// The validation is over with this result.
    Decided(Result<(), AuthError>),
    /// Fetch the reference credential, then call `complete` with this
    /// presented credential.
    FetchReference(String),
}

impl Step {
    pub open spec fn plan(&self) -> Plan {
        match self {
            Step::Decided(r) => Plan::Decided(verdict_of(*r)),
            Step::FetchReference(p) => Plan::Fetch(p@),
        }
    }
}

/// Compares the presented credential with the reference one, exactly.
pub fn validate_token(cms_token: &str, token: &str) -> (r: Result<(), AuthError>)
    ensures
        cms_token@ == token@ <==> r is Ok,
        r is Err ==> r matches Err(AuthError::TokenInvalid),
{
    let reference = cms_token.to_owned();
    let presented = token.to_owned();
    if reference == presented {
        Ok(())
    } else {
        Err(AuthError::TokenInvalid)
    }
}

/// Turns a store answer (the setting's value, or an error detail) into the
/// reference credential; an empty value is a failure, never a wildcard.
pub fn check_reference(fetched: Result<String, String>) -> (r: Result<String, AuthError>)
    ensures
        match checked_reference(result_view(fetched)) {
            Ok(v) => r matches Ok(t) && t@ == v,
            Err(d) => r matches Err(AuthError::DatabaseError(e)) && e@ == d,
        },
{
    match fetched {
        Ok(v) => if v.as_str().is_empty() {
            Err(AuthError::DatabaseError("credential not configured".to_owned()))
        } else {
            Ok(v)
        },
        Err(d) => if d.as_str().is_empty() {
            Err(AuthError::DatabaseError("configuration store lookup failed".to_owned()))
        } else {
            Err(AuthError::DatabaseError(d))
        },
    }
}

/// Validates a presented credential against a reference lookup result.
fn verdict_against(presented: &str, fetched: Result<String, String>) -> (r: (Result<(), AuthError>, Option<String>))
    ensures
        verdict_of(r.0) == reference_verdict(presented@, result_view(fetched)),
        match checked_reference(result_view(fetched)) {
            Ok(v) => r.1 matches Some(t) && t@ == v,
            Err(_) => r.1 is None,
        },
{
    match check_reference(fetched) {
        Ok(reference) => {
            let outcome = validate_token(reference.as_str(), presented);
            (outcome, Some(reference))
        },
        Err(e) => (Err(e), None),
    }
}

/// Connection context from which the session key is derived.
pub struct SessionScope {
    pub ns: Option<String>,
    pub db: Option<String>,
}

pub open spec fn opt_string_view(v: &Option<String>) -> Option<Seq<char>> {
    match v {
        Some(s) => Some(s@),
        None => None,
    }
}

/// The `Debug` text of an optional string.
pub uninterp spec fn debug_text_of(v: Option<Seq<char>>) -> Seq<char>;

/// Relies on the `Debug` formatting of `Option<String>`: its text depends on
/// the value alone.
#[verifier::external_body]
fn debug_text(v: &Option<String>) -> (r: String)
    ensures
        r@ == debug_text_of(opt_string_view(v)),
{
    format!("{:?}", v)
}

pub open spec fn session_key(scope: &SessionScope) -> Seq<char> {
    debug_text_of(opt_string_view(&scope.ns)) + "-"@ + debug_text_of(opt_string_view(&scope.db))
}

/// The cache key of a session: the `Debug` texts of namespace and database
/// joined by `-`.
pub fn get_session_id(scope: &SessionScope) -> (r: String)
    ensures
        r@ == session_key(scope),
{
    let mut key = debug_text(&scope.ns);
    key.append("-");
    let db = debug_text(&scope.db);
    key.append(db.as_str());
    key
}

impl CmsTokenCache {
    /// First step of validating a request for `session`: decides at once when
    /// no credential is presented or the cache holds the reference, and asks
    /// for a store lookup otherwise.
    pub fn begin(&self, session: &str, cookie: Option<&str>, authorization: Option<&str>) -> (r: Step)
        ensures
            r.plan() == plan_for(self@, session@, option_view(cookie), option_view(authorization)),
    {
        let token = match extract_token(cookie, authorization) {
            Ok(t) => t,
            Err(e) => return Step::Decided(Err(e)),
        };
        match self.get(session) {
            Some(cached) => {
                let (outcome, _) = verdict_against(token.as_str(), Ok(cached));
                Step::Decided(outcome)
            },
            None => Step::FetchReference(token),
        }
    }

    /// Second step, after the store answered `fetched` for `session`: fills
    /// the cache when a usable credential came back, then compares.
    pub fn complete(&mut self, session: &str, presented: &str, fetched: Result<String, String>) -> (r: Result<(), AuthError>)
        ensures
            verdict_of(r) == reference_verdict(presented@, result_view(fetched)),
            final(self)@ == cache_after_fetch(old(self)@, session@, result_view(fetched)),
    {
        let (outcome, reference) = verdict_against(presented, fetched);
        match reference {
            Some(v) => self.put(session.to_owned(), v),
            None => {},
        }
        outcome
    }
}

} // verus!
