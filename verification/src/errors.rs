use vstd::prelude::*;

verus! {

/// Every way an authentication or session operation can fail.
///
/// Credential failures (`EmailTaken`, `EmailUnknown`, `BadCredentials`)
/// and token failures (`TokenInvalid`, `Unauthenticated`) are meant for
/// the client; `RoleMissing` is a configuration fault, while
/// `HashingFailure` and `DuplicateClaim` are server faults that a
/// boundary layer should collapse into a generic server error.
#[derive(Clone, Copy, PartialEq, Eq, Structural, Debug)]
pub enum AuthError {
    /// Sign-up with an email that already belongs to a user.
    EmailTaken,
    /// Sign-in with an email no user has.
    EmailUnknown,
    /// Sign-in with a password that does not match the stored hash.
    BadCredentials,
    /// The default role is absent from the store.
    RoleMissing,
    /// The password hashing primitive reported an internal error.
    HashingFailure,
    /// A session row with the freshly drawn claim id already exists.
    DuplicateClaim,
    /// A token failed signature or expiry verification.
    TokenInvalid,
    /// A request carried no usable bearer credential.
    Unauthenticated,
}

impl AuthError {
    /// The short human-readable reason reported to the caller.
    pub open spec fn message_spec(self) -> Seq<char> {
        match self {
            AuthError::EmailTaken => "Email has already registered"@,
            AuthError::EmailUnknown => "Email has not been registered"@,
            AuthError::BadCredentials => "Invalid email or password"@,
            AuthError::RoleMissing => "Default role is not configured"@,
            AuthError::HashingFailure => "Password hashing failed"@,
            AuthError::DuplicateClaim => "Session claim id already in use"@,
            AuthError::TokenInvalid => "Invalid authentication token sent!"@,
            AuthError::Unauthenticated => "No authentication token sent!"@,
        }
    }

    pub fn message(&self) -> (r: &'static str)
        ensures
            r@ == self.message_spec(),
    {
        match self {
            AuthError::EmailTaken => "Email has already registered",
            AuthError::EmailUnknown => "Email has not been registered",
            AuthError::BadCredentials => "Invalid email or password",
            AuthError::RoleMissing => "Default role is not configured",
            AuthError::HashingFailure => "Password hashing failed",
            AuthError::DuplicateClaim => "Session claim id already in use",
            AuthError::TokenInvalid => "Invalid authentication token sent!",
            AuthError::Unauthenticated => "No authentication token sent!",
        }
    }
}

} // verus!
