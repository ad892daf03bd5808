//! Authenticate by API key: a key against a key store, with its expiry.
//!
//! No standard stands behind an API key; the convention is universal. The
//! first gate reads the key out of a header or a query parameter and puts a
//! name for it on the claim: the public id in front of the secret where the
//! issuer's keys carry one, else `sha256:` and the first eight bytes of the
//! key's SHA-256. The key itself rides on the claim as its `api-key` proof and
//! never reaches the record. This gate finds the keys the name names, by
//! either form, hashes the key that was presented, compares it with each of
//! them in constant time, and then reads the expiry. The name is only where to
//! look: nothing is proven by it.
//!
//! The store is hashed at rest: what the node keeps is SHA-256 of the key,
//! which is enough for a secret the node minted with full entropy and would
//! not be for a password. An expired key is refused saying so, with the moment
//! it expired; a key the name does not hold is refused without saying what the
//! store holds.
//!
//! What is answered is proved. That the comparison takes the same time whatever
//! it finds is so by the way it is written, and no contract says it.
//!
//! `store` and `authenticator` hold the two halves of this, `claim` what is
//! presented and answered, `clock` the time, `digest` and `text` the bytes and
//! their text. `laws` states what holds of all of it together, and `meaning` what
//! the words of the contracts come to in characters, bytes and calls.

pub mod authenticator;
pub mod claim;
pub mod clock;
pub mod digest;
pub mod laws;
pub mod meaning;
pub mod store;
pub mod text;

pub use authenticator::{ApiKeyAuthenticator, MECHANISM, PROOF, SOURCE};
pub use claim::{AuthenticateError, Presented, Verified};
pub use clock::now;
pub use store::{Key, KeyStore, DIGEST_PREFIX};
