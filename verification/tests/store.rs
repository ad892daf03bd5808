use api_key::store::DIGEST_BYTES;
use api_key::text::hex;
use api_key::{Key, KeyStore, DIGEST_PREFIX};
use sha2::{Digest, Sha256};

fn sha256(data: &[u8]) -> [u8; 32] {
    Sha256::digest(data).into()
}

#[test]
fn a_key_is_found_by_its_id_or_its_digest_and_the_key_itself_is_not_kept() {
    let mut store = KeyStore::new();
    store.insert("pk_7f3a", "pk_7f3a.c2VjcmV0", Some(42));
    let hash = sha256(b"pk_7f3a.c2VjcmV0");
    let held = store.holding("pk_7f3a", &hash).expect("held");
    assert_eq!(held.id(), "pk_7f3a");
    assert_eq!(held.expiry(), Some(42));
    assert_eq!(held.hash(), &hash);
    assert_eq!(held.digest(), format!("sha256:{}", &hex(&hash)[..16]));
    assert!(store.holding(&held.digest(), &hash).is_some());
    assert!(!format!("{store:?}").contains("c2VjcmV0"));
}

#[test]
fn the_digest_is_the_first_eight_bytes_of_the_keys_sha_256() {
    // SHA-256("abc") = ba7816bf 8f01cfea ..., FIPS 180-2 appendix B.1: the
    // same name the first gate gives the key.
    let mut store = KeyStore::new();
    store.insert("abc-key", "abc", None);
    let named = store.named("sha256:ba7816bf8f01cfea");
    let held = named.first().expect("held");
    assert_eq!(held.id(), "abc-key");
}

#[test]
fn a_name_alone_holds_nothing_and_neither_does_a_key_under_another_name() {
    let mut store = KeyStore::new();
    store.insert("partner-x", "key-x", None);
    store.insert("partner-y", "key-y", None);
    assert_eq!(store.named("partner-x").len(), 1);
    assert!(store.holding("partner-x", &sha256(b"guess")).is_none());
    assert!(store.holding("partner-y", &sha256(b"key-x")).is_none());
    assert!(store.holding("nobody", &sha256(b"key-x")).is_none());
}

#[test]
fn a_rotated_key_stands_beside_the_one_it_replaces() {
    let mut store = KeyStore::new();
    assert!(store.is_empty());
    store.insert("partner-x", "old", Some(100));
    store.insert_hash("partner-x", sha256(b"new"), None);
    assert_eq!(store.len(), 2);
    assert_eq!(store.named("partner-x").len(), 2);
    let expiry = |key: &[u8]| store.holding("partner-x", &sha256(key)).map(Key::expiry);
    assert_eq!(expiry(b"old"), Some(Some(100)));
    assert_eq!(expiry(b"new"), Some(None));
}

#[test]
fn a_key_is_hashed_as_the_standard_says() {
    let mut store = KeyStore::new();
    store.insert("abc-key", "abc", None);
    let named = store.named("abc-key");
    assert_eq!(
        hex(named[0].hash()),
        "ba7816bf8f01cfea414140de5dae2223b00361a396177a9cb410ff61f20015ad"
    );
}

#[test]
fn a_key_is_hashed_in_utf_8() {
    let mut store = KeyStore::new();
    store.insert("id", "clé-…", None);
    assert!(store.holding("id", &sha256("clé-…".as_bytes())).is_some());
}

#[test]
fn a_new_store_and_a_default_one_hold_nothing() {
    assert_eq!(KeyStore::new().len(), 0);
    assert!(KeyStore::default().is_empty());
    assert!(KeyStore::new().named("").is_empty());
    assert!(KeyStore::new().holding("", &[0; 32]).is_none());
}

#[test]
fn the_keys_a_name_names_come_in_the_order_they_were_inserted() {
    let mut store = KeyStore::new();
    store.insert("a", "one", Some(1));
    store.insert("b", "two", Some(2));
    store.insert("a", "three", Some(3));
    let expiries: Vec<Option<i64>> = store.named("a").into_iter().map(Key::expiry).collect();
    assert_eq!(expiries, vec![Some(1), Some(3)]);
}

#[test]
fn of_two_keys_that_fit_the_first_is_held() {
    let mut store = KeyStore::new();
    store.insert("a", "same", Some(1));
    store.insert("a", "same", None);
    store.insert("b", "same", Some(3));
    let hash = sha256(b"same");
    assert_eq!(store.holding("a", &hash).map(Key::expiry), Some(Some(1)));
    assert_eq!(store.holding("b", &hash).map(Key::expiry), Some(Some(3)));
    let digest = store.named("b")[0].digest();
    assert_eq!(store.named(&digest).len(), 3);
    assert_eq!(store.holding(&digest, &hash).map(Key::expiry), Some(Some(1)));
}

#[test]
fn the_digest_tells_keys_apart_by_eight_bytes_and_no_more() {
    let mut store = KeyStore::new();
    let mut near = [7; 32];
    near[DIGEST_BYTES] = 8;
    let mut far = [7; 32];
    far[DIGEST_BYTES - 1] = 8;
    store.insert_hash("a", [7; 32], None);
    store.insert_hash("b", near, None);
    store.insert_hash("c", far, None);
    assert_eq!(store.named("sha256:0707070707070707").len(), 2);
    assert_eq!(store.named("sha256:0707070707070708").len(), 1);
    assert_eq!(store.holding("sha256:0707070707070707", &near).map(Key::id), Some("b"));
    let digest = store.named("a")[0].digest();
    assert_eq!(digest.len(), 23);
    assert!(digest.starts_with(DIGEST_PREFIX));
}

#[test]
fn a_key_is_named_by_either_form_and_by_nothing_else() {
    let mut store = KeyStore::new();
    store.insert("abc-key", "abc", None);
    let named = store.named("abc-key");
    assert!(named[0].is_named("abc-key"));
    assert!(named[0].is_named("sha256:ba7816bf8f01cfea"));
    assert!(!named[0].is_named("sha256:BA7816BF8F01CFEA"));
    assert!(!named[0].is_named("ba7816bf8f01cfea"));
    assert!(!named[0].is_named("abc"));
    assert!(!named[0].is_named(""));
}

#[test]
fn a_clone_holds_the_same_keys() {
    let mut store = KeyStore::new();
    store.insert("a", "one", Some(1));
    store.insert("b", "two", None);
    let copy = store.clone();
    assert_eq!(copy.named("a"), store.named("a"));
    assert_eq!(copy.named("b"), store.named("b"));
    assert_eq!(copy.len(), 2);
}
