//! The verifier: an `api-key` claim with an `api-key` proof, against a store.

use crate::claim::{AuthenticateError, Presented, Verified};
use crate::clock::{Clock, FunctionClock, SystemClock};
use crate::digest::{sha256, KEY_LENGTH};
use crate::store::{Key, KeyStore};
use crate::text::decimal;
use vstd::prelude::*;
use vstd::string::StringExecFns;

verus! {

/// The name of the mechanism this verifies.
pub const MECHANISM: &'static str = "api-key";

/// The proof name this verifier reads off a claim: the key itself.
pub const PROOF: &'static str = "api-key";

/// The evidence name the first gate says where the key was found under:
/// `header:<name>` or `query:<name>`. Not read here; it reaches the record.
pub const SOURCE: &'static str = "api-key.source";

/// What is said of a claim made by another mechanism.
pub open spec fn other_mechanism(mechanism: Seq<char>) -> Seq<char> {
    "'"@ + mechanism + "' was presented and this authenticator verifies api-key"@
}

/// What is said of a claim on `value` without the key.
pub open spec fn missing_key(value: Seq<char>) -> Seq<char> {
    "no '"@ + PROOF@ + "' proof was presented with the key '"@ + value + "'"@
}

/// What is said of a claim with an empty key.
pub open spec fn empty_key() -> Seq<char> {
    "the key presented is empty"@
}

/// What is said of a key, known by `id`, that is no longer good at `now`.
pub open spec fn expired_key(id: Seq<char>, expiry: i64, now: i64) -> Seq<char> {
    "the key '"@ + id + "' expired at "@ + crate::text::decimal_text(expiry as int)
        + " and it is "@ + crate::text::decimal_text(now as int)
}

/// The key that `claim` presents, or what is said where it presents none.
pub open spec fn key_presented(claim: crate::claim::ClaimView) -> Result<Seq<char>, Seq<char>> {
    if claim.mechanism != MECHANISM@ {
        Err(other_mechanism(claim.mechanism))
    } else {
        match claim.proof_under(PROOF@) {
            None => Err(missing_key(claim.value)),
            Some(secret) => if secret.len() == 0 {
                Err(empty_key())
            } else {
                Ok(secret)
            },
        }
    }
}

/// What becomes, at `now`, of a claim whose key is `key`.
pub open spec fn judged(key: crate::store::KeyView, now: i64) -> Result<Verified, Seq<char>> {
    match key.expiry {
        Some(expiry) => if now >= expiry {
            Err(expired_key(key.id, expiry, now))
        } else {
            Ok(Verified::Proven)
        },
        None => Ok(Verified::Proven),
    }
}

/// What becomes, at `now`, of a key whose SHA-256 is `hash`, presented under
/// `name`, where `keys` are held.
pub open spec fn hash_verdict(
    keys: Seq<crate::store::KeyView>,
    name: Seq<char>,
    hash: Seq<u8>,
    now: i64,
) -> Result<Verified, Seq<char>> {
    match crate::store::held_in(keys, name, hash) {
        Some(key) => judged(key, now),
        None => Ok(Verified::Refused),
    }
}

/// What becomes, at `now`, of `claim`, where `keys` are held.
pub open spec fn verdict(
    keys: Seq<crate::store::KeyView>,
    claim: crate::claim::ClaimView,
    now: i64,
) -> Result<Verified, Seq<char>> {
    match key_presented(claim) {
        Ok(secret) => hash_verdict(keys, claim.value, crate::digest::key_hash(secret), now),
        Err(message) => Err(message),
    }
}

/// Whether the key that `claim` presents is among `keys`, under the name that
/// is claimed.
pub open spec fn is_held(
    keys: Seq<crate::store::KeyView>,
    claim: crate::claim::ClaimView,
) -> bool {
    match key_presented(claim) {
        Ok(secret) => crate::store::held_in(
            keys,
            claim.value,
            crate::digest::key_hash(secret),
        ) is Some,
        Err(_) => false,
    }
}

/// What becomes of a claim whose key the store holds: good until the key
/// expires, and from that second on refused saying so.
pub fn judge(key: &Key, now: i64) -> (result: Result<Verified, AuthenticateError>)
    ensures
        crate::claim::answer(result) == judged(key@, now),
{
    match key.expiry() {
        Some(expiry) => if now >= expiry {
            let message = "the key '".to_owned().concat(key.id()).concat("' expired at ").concat(
                decimal(expiry).as_str(),
            ).concat(" and it is ").concat(decimal(now).as_str());
            Err(AuthenticateError::new(message))
        } else {
            Ok(Verified::Proven)
        },
        None => Ok(Verified::Proven),
    }
}

/// Verifies an `api-key` claim with an `api-key` proof against a key store.
pub struct ApiKeyAuthenticator {
    store: KeyStore,
    clock: Box<dyn Clock>,
}

impl ApiKeyAuthenticator {
    /// The clock can be read.
    #[verifier::type_invariant]
    closed spec fn readable(&self) -> bool {
        self.clock.readable()
    }

    /// The keys this verifies against.
    pub closed spec fn keys(&self) -> Seq<crate::store::KeyView> {
        self.store@
    }

    /// Whether the clock can show `now`.
    pub closed spec fn shows(&self, now: i64) -> bool {
        self.clock.shows(now)
    }

    /// A verifier for the keys of `store`, by the machine's clock.
    #[must_use]
    pub fn new(store: KeyStore) -> (verifier: Self)
        ensures
            verifier.keys() == store@,
            forall|now: i64| #[trigger]
                verifier.shows(now) <==> call_ensures(crate::clock::now, (), now),
            forall|now: i64| #[trigger] verifier.shows(now) ==> now >= 0,
    {
        ApiKeyAuthenticator { store, clock: Box::new(SystemClock) }
    }

    /// Where the time comes from.
    #[must_use]
    pub fn with_clock(self, clock: impl Fn() -> i64 + Send + Sync + 'static) -> (verifier: Self)
        requires
            call_requires(clock, ()),
        ensures
            verifier.keys() == self.keys(),
            forall|now: i64| #[trigger] verifier.shows(now) <==> call_ensures(clock, (), now),
    {
        ApiKeyAuthenticator { store: self.store, clock: Box::new(FunctionClock(clock)) }
    }

    /// The keys this verifies against.
    #[must_use]
    pub fn store(&self) -> (store: &KeyStore)
        ensures
            store@ == self.keys(),
    {
        &self.store
    }

    /// The name of the mechanism this verifies.
    #[must_use]
    pub fn mechanism(&self) -> (mechanism: &'static str)
        ensures
            mechanism@ == MECHANISM@,
    {
        MECHANISM
    }

    /// The key that a claim presents. A claim made by another mechanism, one
    /// without the proof and one whose proof is empty present none.
    pub fn presented_key<'a>(&self, presented: &'a Presented) -> (secret: Result<&'a str, AuthenticateError>)
        ensures
            match secret {
                Ok(secret) => key_presented(presented@) == Ok::<Seq<char>, Seq<char>>(secret@),
                Err(failure) => key_presented(presented@) == Err::<Seq<char>, Seq<char>>(
                    failure.message@,
                ),
            },
    {
        let name = presented.mechanism();
        if name.to_owned() != self.mechanism().to_owned() {
            let message = "'".to_owned().concat(name).concat(
                "' was presented and this authenticator verifies api-key",
            );
            return Err(AuthenticateError::new(message));
        }
        let secret = match presented.proof_named(PROOF) {
            Some(secret) => secret,
            None => {
                let message = "no '".to_owned().concat(PROOF).concat(
                    "' proof was presented with the key '",
                ).concat(presented.value()).concat("'");
                return Err(AuthenticateError::new(message));
            },
        };
        if secret.is_empty() {
            return Err(AuthenticateError::new("the key presented is empty".to_owned()));
        }
        Ok(secret)
    }

    /// Verifies the SHA-256 of a key that was presented under `name`.
    ///
    /// The clock is read only where the store holds the key. That is how the
    /// code is written: the contract says what is answered, not how often the
    /// clock is read.
    pub fn verify_hash(&self, name: &str, hash: &[u8; KEY_LENGTH]) -> (result: Result<
        Verified,
        AuthenticateError,
    >)
        ensures
            crate::store::held_in(self.keys(), name@, hash@) is Some ==> exists|now: i64| #[trigger]
                self.shows(now) && crate::claim::answer(result) == hash_verdict(
                    self.keys(),
                    name@,
                    hash@,
                    now,
                ),
            crate::store::held_in(self.keys(), name@, hash@) is None ==> crate::claim::answer(result)
                == Ok::<Verified, Seq<char>>(Verified::Refused),
    {
        match self.store.holding(name, hash) {
            Some(key) => {
                proof {
                    use_type_invariant(self);
                }
                let now = self.clock.read();
                assert(self.shows(now));
                judge(key, now)
            },
            None => Ok(Verified::Refused),
        }
    }

    /// Verifies a claim: the key it presents is hashed, looked for under the
    /// name it claims, and must not have expired. Where the store does not hold
    /// the key, the answer is the same at any time.
    ///
    /// The clock is read only where the store holds the key. That is how the
    /// code is written: the contract says what is answered, not how often the
    /// clock is read.
    pub fn verify(&self, presented: &Presented) -> (result: Result<Verified, AuthenticateError>)
        ensures
            is_held(self.keys(), presented@) ==> exists|now: i64| #[trigger]
                self.shows(now) && crate::claim::answer(result) == verdict(
                    self.keys(),
                    presented@,
                    now,
                ),
            !is_held(self.keys(), presented@) ==> crate::claim::answer(result)
                == match key_presented(presented@) {
                Ok(_) => Ok::<Verified, Seq<char>>(Verified::Refused),
                Err(message) => Err(message),
            },
    {
        match self.presented_key(presented) {
            Ok(secret) => {
                let hash = sha256(secret.as_bytes());
                self.verify_hash(presented.value(), &hash)
            },
            Err(failure) => Err(failure),
        }
    }
}

} // verus!
