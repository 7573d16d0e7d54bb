//! Request authentication for protected endpoints: extracts a presented
//! credential from a request, looks up the reference credential through a
//! per-session cache (falling back to a configuration store), and decides
//! allow or deny.

mod cache;
mod credential;
mod error;
mod laws;
mod validation;

pub use cache::{cache_entries, CmsTokenCache};
pub use credential::{
    bearer_prefix, extract_token, presented_credential, AUTH_CMS_TOKEN_IDENTIFIER,
    TOKEN_COOKIE_NAME,
};
pub use error::{option_view, verdict_of, AuthError, Verdict};
pub use laws::{
    lemma_bearer_header_is_presented, lemma_cache_hit_after_fetch, lemma_cookie_takes_precedence,
    lemma_empty_reference_never_allows, lemma_missing_credential, lemma_validation_idempotent,
};
pub use validation::{
    cache_after_fetch, check_reference, checked_reference, debug_text_of, get_session_id,
    lookup_failed, not_configured, opt_string_view, plan_for, reference_verdict, result_view,
    run_verdict, session_key, validate_token, Plan, SessionScope, Step,
};
