//! Authentication and session core: credential hashing, signed bearer
//! tokens, an in-memory session store with expiry, and the sign-up /
//! sign-in flows that tie them together.

pub mod clock;
pub mod errors;
pub mod gate;
pub mod hashing;
pub mod identity;
pub mod ids;
pub mod store;
pub mod token;
