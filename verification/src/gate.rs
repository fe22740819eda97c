use vstd::prelude::*;

use crate::clock::now_timestamp;
use crate::errors::AuthError;
use crate::token::{decode_spec, decode_token};

verus! {

/// The authenticated principal a request resolves to: the numeric
/// subject of a bearer token that passed verification.
#[derive(Clone, Copy, PartialEq, Eq, Structural, Debug)]
pub struct AuthenticationToken {
    pub id: u64,
}

/// The authorization header as a mathematical value: absent, or the
/// character sequence it carried.
pub open spec fn header_view(header: Option<&String>) -> Option<Seq<char>> {
    match header {
        None => None,
        Some(h) => Some(h@),
    }
}

/// What the request gate yields for an authorization header at time
/// `now`: an absent or empty header and a token that fails verification
/// are all `Unauthenticated`; a verifying token exposes its subject.
pub open spec fn gate_spec(header: Option<Seq<char>>, secret: Seq<u8>, now: u64) -> Result<
    AuthenticationToken,
    AuthError,
> {
    match header {
        None => Err(AuthError::Unauthenticated),
        Some(h) => if h.len() == 0 {
            Err(AuthError::Unauthenticated)
        } else {
            match decode_spec(h, secret, now) {
                Ok(c) => Ok(AuthenticationToken { id: c.id }),
                Err(_) => Err(AuthError::Unauthenticated),
            }
        },
    }
}

/// The stateless request gate at time `now`: the bearer credential is
/// the authorization header taken whole, and only its signature and
/// expiry are checked. No session row is consulted, so a token that
/// still verifies is accepted even after its session row is pruned.
pub fn authenticate(header: Option<&String>, secret: &[u8], now: u64) -> (r: Result<
    AuthenticationToken,
    AuthError,
>)
    ensures
        r == gate_spec(header_view(header), secret@, now),
{
    match header {
        None => Err(AuthError::Unauthenticated),
        Some(h) => {
            if h.as_str().is_empty() {
                Err(AuthError::Unauthenticated)
            } else {
                match decode_token(h.as_str(), secret, now) {
                    Ok(c) => Ok(AuthenticationToken { id: c.id }),
                    Err(_) => Err(AuthError::Unauthenticated),
                }
            }
        },
    }
}

/// The request gate against the real clock: like `authenticate`, with
/// `now` read from the system time inside; the result is stated for
/// whatever second the clock showed.
pub fn authenticate_now(header: Option<&String>, secret: &[u8]) -> (r: Result<
    AuthenticationToken,
    AuthError,
>)
    ensures
        exists|now: u64| r == gate_spec(header_view(header), secret@, now),
        header_view(header) is None ==> r == Err::<AuthenticationToken, AuthError>(
            AuthError::Unauthenticated,
        ),
{
    let now = now_timestamp();
    authenticate(header, secret, now)
}

} // verus!
