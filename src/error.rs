use vstd::prelude::*;

verus! {

/// Why a request was refused.
#[derive(Debug)]
pub enum AuthError {
    /// Neither the credential cookie nor a bearer header was present.
    TokenMissing,
    /// A credential was presented but does not match the reference.
    TokenInvalid,
    /// The reference credential could not be obtained; holds a short detail.
    DatabaseError(String),
}

/// Outcome of one validation, as a mathematical value.
pub enum Verdict {
    Allowed,
    MissingCredential,
    InvalidCredential,
    StoreFailure(Seq<char>),
}

pub open spec fn option_view(o: Option<&str>) -> Option<Seq<char>> {
    match o {
        Some(s) => Some(s@),
        None => None,
    }
}

/// The verdict that a validation result stands for.
pub open spec fn verdict_of(r: Result<(), AuthError>) -> Verdict {
    match r {
        Ok(()) => Verdict::Allowed,
        Err(AuthError::TokenMissing) => Verdict::MissingCredential,
        Err(AuthError::TokenInvalid) => Verdict::InvalidCredential,
        Err(AuthError::DatabaseError(d)) => Verdict::StoreFailure(d@),
    }
}

impl AuthError {
    pub open spec fn status_spec(&self) -> u16 {
        match self {
            AuthError::DatabaseError(_) => 500,
            _ => 401,
        }
    }

    pub open spec fn message_spec(&self) -> Seq<char> {
        match self {
            AuthError::TokenMissing => "please provide token"@,
            AuthError::TokenInvalid => "please provide valid token"@,
            AuthError::DatabaseError(d) => d@,
        }
    }

    /// HTTP status code of the rejection response.
    pub fn status_code(&self) -> (r: u16)
        ensures
            r == self.status_spec(),
    {
        match self {
            AuthError::DatabaseError(_) => 500,
            _ => 401,
        }
    }

    /// Text of the `message` field of the rejection response.
    pub fn message(&self) -> (r: String)
        ensures
            r@ == self.message_spec(),
    {
        match self {
            AuthError::TokenMissing => "please provide token".to_owned(),
            AuthError::TokenInvalid => "please provide valid token".to_owned(),
            AuthError::DatabaseError(d) => d.clone(),
        }
    }
}

} // verus!
