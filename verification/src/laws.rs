//! What holds of the store and of the verifier as a whole.

use crate::claim::{ClaimView, Verified};
use crate::store::{KeyView, DIGEST_BYTES, DIGEST_PREFIX};
use vstd::prelude::*;

verus! {

/// Whether the key at `i` is the first that is named `name` and whose SHA-256
/// is `hash`.
pub open spec fn is_first_fit(keys: Seq<KeyView>, name: Seq<char>, hash: Seq<u8>, i: int) -> bool {
    &&& 0 <= i < keys.len()
    &&& keys[i].fits(name, hash)
    &&& forall|j: int| 0 <= j < i ==> !#[trigger] keys[j].fits(name, hash)
}

/// One more key, after the others: it is found after whatever was found
/// before, by the names that are its own.
pub proof fn law_insertion_is_last(keys: Seq<KeyView>, key: KeyView, name: Seq<char>, hash: Seq<u8>)
    ensures
        crate::store::named_in(keys.push(key), name) == if key.is_named(name) {
            crate::store::named_in(keys, name).push(key)
        } else {
            crate::store::named_in(keys, name)
        },
        crate::store::held_in(keys.push(key), name, hash) == match crate::store::held_in(
            keys,
            name,
            hash,
        ) {
            Some(earlier) => Some(earlier),
            None => if key.fits(name, hash) {
                Some(key)
            } else {
                None
            },
        },
{
    reveal(Seq::filter);
    let named = crate::store::named_in(keys, name);
    assert(keys.push(key).drop_last() =~= keys);
    assert(named.push(key).drop_last() =~= named);
}

/// What is held under a name with a hash is the first key that has both, and
/// nothing is held just where no key has both.
pub proof fn law_the_first_that_fits_is_held(keys: Seq<KeyView>, name: Seq<char>, hash: Seq<u8>)
    ensures
        match crate::store::held_in(keys, name, hash) {
            Some(key) => exists|i: int| #[trigger] is_first_fit(keys, name, hash, i) && keys[i]
                == key,
            None => forall|i: int| 0 <= i < keys.len() ==> !#[trigger] keys[i].fits(name, hash),
        },
    decreases keys.len(),
{
    if keys.len() == 0 {
        reveal(Seq::filter);
    } else {
        let rest = keys.drop_last();
        law_the_first_that_fits_is_held(rest, name, hash);
        assert(rest.push(keys.last()) =~= keys);
        law_insertion_is_last(rest, keys.last(), name, hash);
        match crate::store::held_in(rest, name, hash) {
            Some(key) => {
                let i = choose|i: int| #[trigger]
                    is_first_fit(rest, name, hash, i) && rest[i] == key;
                assert forall|j: int| 0 <= j < i implies !#[trigger] keys[j].fits(name, hash) by {
                    assert(!rest[j].fits(name, hash));
                }
                assert(is_first_fit(keys, name, hash, i));
            },
            None => {
                assert forall|j: int| 0 <= j < rest.len() implies !#[trigger] keys[j].fits(
                    name,
                    hash,
                ) by {
                    assert(!rest[j].fits(name, hash));
                }
                if keys.last().fits(name, hash) {
                    assert(is_first_fit(keys, name, hash, keys.len() - 1));
                }
            },
        }
    }
}

/// A key that is held is found by its id and by its digest.
pub proof fn law_a_key_has_two_names(keys: Seq<KeyView>, i: int)
    requires
        0 <= i < keys.len(),
    ensures
        crate::store::named_in(keys, keys[i].id).contains(keys[i]),
        crate::store::named_in(keys, keys[i].digest()).contains(keys[i]),
        crate::store::held_in(keys, keys[i].id, keys[i].hash) is Some,
        crate::store::held_in(keys, keys[i].digest(), keys[i].hash) is Some,
{
    let key = keys[i];
    keys.lemma_filter_contains(|k: KeyView| k.is_named(key.id), i);
    keys.lemma_filter_contains(|k: KeyView| k.is_named(key.digest()), i);
    law_the_first_that_fits_is_held(keys, key.id, key.hash);
    law_the_first_that_fits_is_held(keys, key.digest(), key.hash);
    assert(keys[i].fits(key.id, key.hash));
    assert(keys[i].fits(key.digest(), key.hash));
}

/// What is held under a name is one of the keys that the name names.
pub proof fn law_what_is_held_is_named(keys: Seq<KeyView>, name: Seq<char>, hash: Seq<u8>)
    ensures
        crate::store::held_in(keys, name, hash) matches Some(key) ==> crate::store::named_in(
            keys,
            name,
        ).contains(key) && key.fits(name, hash),
{
    law_the_first_that_fits_is_held(keys, name, hash);
    if let Some(key) = crate::store::held_in(keys, name, hash) {
        let i = choose|i: int| #[trigger] is_first_fit(keys, name, hash, i) && keys[i] == key;
        keys.lemma_filter_contains(|k: KeyView| k.is_named(name), i);
    }
}

/// The digest form is `sha256:` and sixteen digits, and tells apart the keys
/// whose SHA-256 differ in the first eight bytes, and no others.
pub proof fn law_the_digest_is_the_first_eight_bytes(a: Seq<u8>, b: Seq<u8>)
    requires
        a.len() == crate::digest::KEY_LENGTH,
        b.len() == crate::digest::KEY_LENGTH,
    ensures
        crate::store::digest_text(a).len() == 23,
        crate::store::digest_text(a).take(7) == "sha256:"@,
        crate::store::digest_text(a) == crate::store::digest_text(b) <==> a.take(8) == b.take(8),
{
    reveal_strlit("sha256:");
    let hex_a = crate::text::hex_text(a.take(DIGEST_BYTES as int));
    let hex_b = crate::text::hex_text(b.take(DIGEST_BYTES as int));
    assert(crate::store::digest_text(a).take(7) =~= DIGEST_PREFIX@);
    assert(crate::store::digest_text(a).skip(7) =~= hex_a);
    assert(crate::store::digest_text(b).skip(7) =~= hex_b);
    if crate::store::digest_text(a) == crate::store::digest_text(b) {
        crate::text::lemma_hex_injective(a.take(8), b.take(8));
    }
}

/// The digest form of every key that a store holds is `sha256:` and sixteen
/// digits, and two of them share it just where the first eight bytes of their
/// SHA-256 are the same.
pub proof fn law_held_keys_are_told_apart_by_eight_bytes(
    store: &crate::store::KeyStore,
    i: int,
    j: int,
)
    requires
        0 <= i < store@.len(),
        0 <= j < store@.len(),
    ensures
        store@[i].digest().len() == 23,
        store@[i].digest().take(7) == "sha256:"@,
        store@[i].digest() == store@[j].digest() <==> store@[i].hash.take(8)
            == store@[j].hash.take(8),
{
    store.law_hashes_are_whole();
    law_the_digest_is_the_first_eight_bytes(store@[i].hash, store@[j].hash);
}

/// A claim is proven just where it is made by this mechanism and presents a
/// key, the name it claims names a key of that SHA-256, and the first such key
/// has not expired. The name alone proves nothing, and neither does a key
/// under a name that is not its own.
pub proof fn law_proven_is_held_and_good(keys: Seq<KeyView>, claim: ClaimView, now: i64)
    ensures
        crate::authenticator::verdict(keys, claim, now) == Ok::<Verified, Seq<char>>(
            Verified::Proven,
        ) <==> match crate::authenticator::key_presented(claim) {
            Ok(secret) => exists|i: int| #[trigger]
                is_first_fit(keys, claim.value, crate::digest::sha256_of(vstd::utf8::encode_utf8(secret)), i)
                    && !keys[i].is_expired(now),
            Err(_) => false,
        },
{
    if let Ok(secret) = crate::authenticator::key_presented(claim) {
        law_the_first_that_fits_is_held(keys, claim.value, crate::digest::sha256_of(vstd::utf8::encode_utf8(secret)));
    }
}

/// A claim is refused, with nothing said, just where it presents a key and no
/// key that it names has that SHA-256.
pub proof fn law_refused_is_not_held(keys: Seq<KeyView>, claim: ClaimView, now: i64)
    ensures
        crate::authenticator::verdict(keys, claim, now) == Ok::<Verified, Seq<char>>(
            Verified::Refused,
        ) <==> match crate::authenticator::key_presented(claim) {
            Ok(secret) => forall|i: int|
                0 <= i < keys.len() ==> !#[trigger] keys[i].fits(
                    claim.value,
                    crate::digest::sha256_of(vstd::utf8::encode_utf8(secret)),
                ),
            Err(_) => false,
        },
{
    if let Ok(secret) = crate::authenticator::key_presented(claim) {
        law_the_first_that_fits_is_held(keys, claim.value, crate::digest::sha256_of(vstd::utf8::encode_utf8(secret)));
    }
}

/// To a claim whose key a store does not hold under the name claimed, every
/// such store answers the same, at any time: the answer does not say what the
/// store holds, nor whether the name is known.
pub proof fn law_an_answer_does_not_tell_the_store(
    keys: Seq<KeyView>,
    other_keys: Seq<KeyView>,
    claim: ClaimView,
    now: i64,
    other_now: i64,
)
    requires
        !crate::authenticator::is_held(keys, claim),
        !crate::authenticator::is_held(other_keys, claim),
    ensures
        crate::authenticator::verdict(keys, claim, now) == crate::authenticator::verdict(
            other_keys,
            claim,
            other_now,
        ),
{
}

/// A store that holds nothing verifies nobody.
pub proof fn law_an_empty_store_verifies_nobody(claim: ClaimView, now: i64)
    ensures
        crate::authenticator::verdict(Seq::<KeyView>::empty(), claim, now)
            == match crate::authenticator::key_presented(claim) {
            Ok(_) => Ok::<Verified, Seq<char>>(Verified::Refused),
            Err(message) => Err(message),
        },
{
    reveal(Seq::filter);
}

/// Once a key is inserted, a claim that presents it under either of its names
/// is proven while the key is good. Where the same key was held under that
/// name before, the earlier one's expiry counts instead.
pub proof fn law_an_inserted_key_proves_its_claim(
    keys: Seq<KeyView>,
    id: Seq<char>,
    secret: Seq<char>,
    expiry: Option<i64>,
    claim: ClaimView,
    now: i64,
)
    requires
        claim.mechanism == "api-key"@,
        claim.proofs.dom().contains("api-key"@),
        claim.proofs["api-key"@] == secret,
        secret.len() > 0,
        claim.value == id || claim.value == crate::store::digest_text(
            crate::digest::sha256_of(vstd::utf8::encode_utf8(secret)),
        ),
        match crate::store::held_in(keys, claim.value, crate::digest::sha256_of(vstd::utf8::encode_utf8(secret))) {
            Some(earlier) => !earlier.is_expired(now),
            None => !(KeyView { id, hash: crate::digest::sha256_of(vstd::utf8::encode_utf8(secret)), expiry }).is_expired(now),
        },
    ensures
        crate::authenticator::verdict(
            keys.push((KeyView { id, hash: crate::digest::sha256_of(vstd::utf8::encode_utf8(secret)), expiry })),
            claim,
            now,
        ) == Ok::<Verified, Seq<char>>(Verified::Proven),
{
    let key = KeyView { id, hash: crate::digest::sha256_of(vstd::utf8::encode_utf8(secret)), expiry };
    law_insertion_is_last(keys, key, claim.value, key.hash);
}

/// Of a key only the SHA-256 is kept: two keys that share it leave the same
/// store, and every claim is answered the same after either.
pub proof fn law_the_key_is_not_kept(
    keys: Seq<KeyView>,
    id: Seq<char>,
    secret: Seq<char>,
    other_secret: Seq<char>,
    expiry: Option<i64>,
    claim: ClaimView,
    now: i64,
)
    requires
        crate::digest::sha256_of(vstd::utf8::encode_utf8(secret))
            == crate::digest::sha256_of(vstd::utf8::encode_utf8(other_secret)),
    ensures
        ({
            let kept = keys.push((KeyView { id, hash: crate::digest::sha256_of(vstd::utf8::encode_utf8(secret)), expiry }));
            let other_kept = keys.push(
                (KeyView { id, hash: crate::digest::sha256_of(vstd::utf8::encode_utf8(other_secret)), expiry }),
            );
            kept == other_kept && crate::authenticator::verdict(kept, claim, now)
                == crate::authenticator::verdict(other_kept, claim, now)
        }),
{
}

/// One more key takes nothing from those before it: what the store answered to
/// a claim whose key it held, it still answers. So a key is rotated without a
/// gap.
pub proof fn law_rotation_has_no_gap(keys: Seq<KeyView>, key: KeyView, claim: ClaimView, now: i64)
    requires
        crate::authenticator::is_held(keys, claim),
    ensures
        crate::authenticator::is_held(keys.push(key), claim),
        crate::authenticator::verdict(keys.push(key), claim, now) == crate::authenticator::verdict(
            keys,
            claim,
            now,
        ),
{
    if let Ok(secret) = crate::authenticator::key_presented(claim) {
        law_insertion_is_last(keys, key, claim.value, crate::digest::sha256_of(vstd::utf8::encode_utf8(secret)));
    }
}

/// A claim whose key is held is proven until the key's expiry, and from that
/// very second on is refused with the moment it expired and the time it is. A
/// key without an expiry is always good.
pub proof fn law_an_expired_key_is_refused_saying_when(
    keys: Seq<KeyView>,
    claim: ClaimView,
    key: KeyView,
    now: i64,
)
    requires
        crate::authenticator::key_presented(claim) matches Ok(secret) && crate::store::held_in(
            keys,
            claim.value,
            crate::digest::sha256_of(vstd::utf8::encode_utf8(secret)),
        ) == Some(key),
    ensures
        crate::authenticator::verdict(keys, claim, now) == match key.expiry {
            Some(expiry) => if now < expiry {
                Ok::<Verified, Seq<char>>(Verified::Proven)
            } else {
                Err(crate::authenticator::expired_key(key.id, expiry, now))
            },
            None => Ok(Verified::Proven),
        },
{
}

/// What is proven at some time was proven at any time before.
pub proof fn law_a_key_does_not_come_back(
    keys: Seq<KeyView>,
    claim: ClaimView,
    now: i64,
    before: i64,
)
    requires
        before <= now,
        crate::authenticator::verdict(keys, claim, now) == Ok::<Verified, Seq<char>>(
            Verified::Proven,
        ),
    ensures
        crate::authenticator::verdict(keys, claim, before) == Ok::<Verified, Seq<char>>(
            Verified::Proven,
        ),
{
}

/// Of a claim only the mechanism, the name and the key are read: not the
/// evidence, nor a proof under another name.
pub proof fn law_only_the_key_is_read(
    keys: Seq<KeyView>,
    claim: ClaimView,
    other: ClaimView,
    now: i64,
)
    requires
        claim.mechanism == other.mechanism,
        claim.value == other.value,
        claim.proofs.dom().contains("api-key"@) == other.proofs.dom().contains("api-key"@),
        claim.proofs.dom().contains("api-key"@) ==> claim.proofs["api-key"@]
            == other.proofs["api-key"@],
    ensures
        crate::authenticator::verdict(keys, claim, now) == crate::authenticator::verdict(
            keys,
            other,
            now,
        ),
{
}

} // verus!
