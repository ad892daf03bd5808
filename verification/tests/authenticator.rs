use api_key::authenticator::judge;
use api_key::{
    now, ApiKeyAuthenticator, KeyStore, Presented, Verified, DIGEST_PREFIX, MECHANISM, PROOF,
    SOURCE,
};
use std::sync::atomic::{AtomicUsize, Ordering};
use std::sync::Arc;

const NOW: i64 = 1_800_000_000;

fn authenticator() -> ApiKeyAuthenticator {
    let mut store = KeyStore::new();
    store.insert("partner-x", "k-7f3a9c2e51d84b60", None);
    store.insert("partner-y", "k-0badc0de0badc0de", Some(NOW + 60));
    store.insert("partner-z", "k-expired-yesterday", Some(NOW - 86_400));
    ApiKeyAuthenticator::new(store).with_clock(|| NOW)
}

fn digest_of_partner_x(authenticator: &ApiKeyAuthenticator) -> String {
    let named = authenticator.store().named("partner-x");
    named.first().expect("held").digest()
}

fn claim(id: &str, key: &str) -> Presented {
    Presented::passed(MECHANISM, id).with_proof(PROOF, key)
}

#[test]
fn a_key_the_store_holds_proves_the_claim_that_names_it() {
    let authenticator = authenticator();
    assert_eq!(
        authenticator
            .verify(&claim("partner-x", "k-7f3a9c2e51d84b60"))
            .expect("verified"),
        Verified::Proven
    );
    // Not yet expired is still good.
    assert_eq!(
        authenticator
            .verify(&claim("partner-y", "k-0badc0de0badc0de"))
            .expect("verified"),
        Verified::Proven
    );
    // A key with no id in it is named by its digest, as the first gate
    // writes it, with where it was found as evidence.
    let digest = digest_of_partner_x(&authenticator);
    assert!(digest.starts_with(DIGEST_PREFIX) && digest.len() == 23);
    let by_digest = claim(&digest, "k-7f3a9c2e51d84b60").with_evidence(SOURCE, "header:x-api-key");
    assert_eq!(
        authenticator.verify(&by_digest).expect("verified"),
        Verified::Proven
    );
}

#[test]
fn a_key_the_store_does_not_hold_is_refused() {
    assert_eq!(
        authenticator()
            .verify(&claim("partner-x", "k-7f3a9c2e51d84b61"))
            .expect("verified"),
        Verified::Refused
    );
}

#[test]
fn an_expired_key_is_refused_saying_when_it_expired() {
    let failure = authenticator()
        .verify(&claim("partner-z", "k-expired-yesterday"))
        .expect_err("refused");
    assert_eq!(
        failure.message,
        format!(
            "the key 'partner-z' expired at {} and it is {NOW}",
            NOW - 86_400
        )
    );
    // The moment of expiry is already too late.
    let at_expiry = ApiKeyAuthenticator::new(authenticator().store().clone())
        .with_clock(|| NOW + 60)
        .verify(&claim("partner-y", "k-0badc0de0badc0de"))
        .expect_err("refused");
    assert!(
        at_expiry.message.contains("expired"),
        "{}",
        at_expiry.message
    );
}

#[test]
fn a_name_is_only_where_to_look_and_never_the_proof() {
    let authenticator = authenticator();
    // A good key under another key's name proves nothing about that name.
    assert_eq!(
        authenticator
            .verify(&claim("partner-y", "k-7f3a9c2e51d84b60"))
            .expect("verified"),
        Verified::Refused
    );
    // Nor does a name the store holds with a key it does not.
    let digest = digest_of_partner_x(&authenticator);
    assert_eq!(
        authenticator.verify(&claim(&digest, "guess")).expect("verified"),
        Verified::Refused
    );
    let empty = authenticator
        .verify(&claim("partner-x", ""))
        .expect_err("refused");
    assert!(empty.message.contains("empty"), "{}", empty.message);
}

#[test]
fn a_missing_proof_and_another_mechanism_are_refused_by_name() {
    let bare = Presented::passed(MECHANISM, "partner-x");
    let failure = authenticator().verify(&bare).expect_err("refused");
    assert!(
        failure.message.contains("'api-key' proof"),
        "{}",
        failure.message
    );

    let bearer =
        Presented::passed("bearer", "mF_9.B5f…").with_proof("bearer.token", "mF_9.B5f-4.1JqM");
    let failure = authenticator().verify(&bearer).expect_err("refused");
    assert!(failure.message.contains("'bearer'"), "{}", failure.message);
}

#[test]
fn each_failure_says_exactly_what_is_wrong() {
    let message = |presented: &Presented| authenticator().verify(presented).expect_err("failed").message;
    assert_eq!(
        message(&Presented::passed("bearer", "x").with_proof(PROOF, "k-7f3a9c2e51d84b60")),
        "'bearer' was presented and this authenticator verifies api-key"
    );
    assert_eq!(
        message(&Presented::passed(MECHANISM, "partner-x").with_proof("token", "k")),
        "no 'api-key' proof was presented with the key 'partner-x'"
    );
    assert_eq!(message(&claim("partner-x", "")), "the key presented is empty");
    assert_eq!(
        message(&claim("partner-z", "k-expired-yesterday")),
        "the key 'partner-z' expired at 1799913600 and it is 1800000000"
    );
}

#[test]
fn what_comes_first_is_what_is_said() {
    // Another mechanism is said before a missing key, and a missing key before
    // anything the store knows.
    let failure = authenticator()
        .verify(&Presented::passed("", "partner-z"))
        .expect_err("failed");
    assert_eq!(
        failure.message,
        "'' was presented and this authenticator verifies api-key"
    );
    let failure = authenticator()
        .verify(&Presented::passed(MECHANISM, "nobody"))
        .expect_err("failed");
    assert_eq!(
        failure.message,
        "no 'api-key' proof was presented with the key 'nobody'"
    );
}

#[test]
fn a_key_is_judged_by_its_expiry_alone() {
    let mut store = KeyStore::new();
    store.insert("soon", "a", Some(-5));
    store.insert("never", "b", None);
    let soon = store.named("soon");
    let never = store.named("never");
    assert_eq!(judge(soon[0], -6), Ok(Verified::Proven));
    assert_eq!(
        judge(soon[0], -5).expect_err("expired").message,
        "the key 'soon' expired at -5 and it is -5"
    );
    assert_eq!(
        judge(soon[0], i64::MAX).expect_err("expired").message,
        "the key 'soon' expired at -5 and it is 9223372036854775807"
    );
    assert_eq!(judge(never[0], i64::MIN), Ok(Verified::Proven));
    assert_eq!(judge(never[0], i64::MAX), Ok(Verified::Proven));
}

#[test]
fn a_key_that_is_rotated_leaves_no_gap() {
    let mut store = KeyStore::new();
    store.insert("partner", "old", Some(NOW + 1));
    let before = ApiKeyAuthenticator::new(store.clone()).with_clock(|| NOW);
    store.insert("partner", "new", None);
    let after = ApiKeyAuthenticator::new(store.clone()).with_clock(|| NOW);
    let later = ApiKeyAuthenticator::new(store).with_clock(|| NOW + 1);
    let old = claim("partner", "old");
    let new = claim("partner", "new");
    assert_eq!(before.verify(&old), Ok(Verified::Proven));
    assert_eq!(before.verify(&new), Ok(Verified::Refused));
    assert_eq!(after.verify(&old), Ok(Verified::Proven));
    assert_eq!(after.verify(&new), Ok(Verified::Proven));
    assert!(later.verify(&old).is_err());
    assert_eq!(later.verify(&new), Ok(Verified::Proven));
}

#[test]
fn where_a_key_is_held_twice_the_first_expiry_counts() {
    let mut store = KeyStore::new();
    store.insert("partner", "same", Some(NOW));
    store.insert("partner", "same", None);
    let authenticator = ApiKeyAuthenticator::new(store).with_clock(|| NOW);
    assert!(authenticator.verify(&claim("partner", "same")).is_err());
}

#[test]
fn an_empty_store_verifies_nobody() {
    let authenticator = ApiKeyAuthenticator::new(KeyStore::new()).with_clock(|| NOW);
    assert_eq!(authenticator.verify(&claim("partner-x", "k")), Ok(Verified::Refused));
    assert!(authenticator.verify(&claim("partner-x", "")).is_err());
}

#[test]
fn an_unknown_name_and_a_wrong_key_are_answered_alike() {
    let unknown = authenticator().verify(&claim("nobody", "guess"));
    let wrong = authenticator().verify(&claim("partner-z", "guess"));
    assert_eq!(unknown, Ok(Verified::Refused));
    assert_eq!(unknown, wrong);
}

#[test]
fn evidence_and_other_proofs_are_kept_and_not_read() {
    let presented = claim("partner-x", "k-7f3a9c2e51d84b60")
        .with_evidence(SOURCE, "query:key")
        .with_proof("bearer.token", "k-0badc0de0badc0de");
    assert_eq!(presented.mechanism(), "api-key");
    assert_eq!(presented.value(), "partner-x");
    assert_eq!(presented.evidence_named(SOURCE), Some("query:key"));
    assert_eq!(presented.evidence_named(PROOF), None);
    assert_eq!(presented.proof_named(PROOF), Some("k-7f3a9c2e51d84b60"));
    assert_eq!(presented.proof_named("bearer.token"), Some("k-0badc0de0badc0de"));
    assert_eq!(authenticator().verify(&presented), Ok(Verified::Proven));
}

#[test]
fn the_last_proof_under_a_name_is_the_one_presented() {
    let presented = claim("partner-x", "guess").with_proof(PROOF, "k-7f3a9c2e51d84b60");
    assert_eq!(authenticator().verify(&presented), Ok(Verified::Proven));
    let presented = presented.with_proof(PROOF, "guess");
    assert_eq!(authenticator().verify(&presented), Ok(Verified::Refused));
}

#[test]
fn the_clock_is_read_only_where_the_key_is_held() {
    let reads = Arc::new(AtomicUsize::new(0));
    let counter = Arc::clone(&reads);
    let authenticator = ApiKeyAuthenticator::new(authenticator().store().clone()).with_clock(move || {
        counter.fetch_add(1, Ordering::SeqCst);
        NOW
    });
    assert_eq!(authenticator.verify(&claim("partner-x", "guess")), Ok(Verified::Refused));
    assert!(authenticator.verify(&claim("partner-x", "")).is_err());
    assert_eq!(reads.load(Ordering::SeqCst), 0);
    assert_eq!(
        authenticator.verify(&claim("partner-x", "k-7f3a9c2e51d84b60")),
        Ok(Verified::Proven)
    );
    assert_eq!(reads.load(Ordering::SeqCst), 1);
}

#[test]
fn a_hash_is_verified_as_the_key_would_be() {
    let mut store = KeyStore::new();
    store.insert_hash("a", [1; 32], Some(NOW + 1));
    store.insert_hash("b", [2; 32], Some(NOW));
    let authenticator = ApiKeyAuthenticator::new(store).with_clock(|| NOW);
    assert_eq!(authenticator.verify_hash("a", &[1; 32]), Ok(Verified::Proven));
    assert_eq!(authenticator.verify_hash("a", &[2; 32]), Ok(Verified::Refused));
    assert_eq!(
        authenticator.verify_hash("sha256:0101010101010101", &[1; 32]),
        Ok(Verified::Proven)
    );
    assert_eq!(
        authenticator.verify_hash("b", &[2; 32]).expect_err("expired").message,
        "the key 'b' expired at 1800000000 and it is 1800000000"
    );
}

#[test]
fn the_key_presented_is_what_is_hashed() {
    let authenticator = authenticator();
    assert_eq!(
        authenticator.presented_key(&claim("anything", "k-1")).expect("a key"),
        "k-1"
    );
    assert!(authenticator.presented_key(&Presented::passed(MECHANISM, "k-1")).is_err());
    assert_eq!(authenticator.mechanism(), "api-key");
}

#[test]
fn the_machines_clock_is_past_the_epoch() {
    // 2020-01-01.
    assert!(now() > 1_577_836_800);
    let mut store = KeyStore::new();
    store.insert("gone", "a", Some(1_577_836_800));
    store.insert("good", "b", Some(i64::MAX));
    let authenticator = ApiKeyAuthenticator::new(store);
    assert!(authenticator.verify(&claim("gone", "a")).is_err());
    assert_eq!(authenticator.verify(&claim("good", "b")), Ok(Verified::Proven));
}

#[test]
fn an_authenticator_is_shared_between_threads() {
    fn shared<T: Send + Sync>(_: &T) {}
    shared(&authenticator());
}
