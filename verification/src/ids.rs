use vstd::prelude::*;

verus! {

/// A claim identifier for a freshly issued token.
///
/// Relies on `rand::random`: a number drawn from the thread-local
/// generator; nothing is promised of its value, so callers must cope
/// with any outcome, collisions included.
#[verifier::external_body]
pub fn fresh_claim_id() -> u64 {
    rand::random::<u64>()
}

/// A primary key for a freshly created user row.
///
/// Relies on `uuid::Uuid::new_v4`: a random identifier rendered in its
/// hyphenated text form; nothing is promised of its value.
#[verifier::external_body]
pub fn fresh_user_id() -> String {
    uuid::Uuid::new_v4().to_string()
}

} // verus!
