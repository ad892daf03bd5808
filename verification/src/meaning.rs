//! What the words of the contracts mean, each said of its inputs alone.
//!
//! A contract says what a function does in words such as "named" or "held".
//! Here every such word is tied to what can be seen without it: characters,
//! bytes, places in a sequence, and the calls that are made.

use crate::claim::{AuthenticateError, ClaimView, Verified};
use crate::store::KeyView;
use std::time::{Duration, SystemTime, SystemTimeError};
use vstd::arithmetic::div_mod::lemma_div_denominator;
use vstd::arithmetic::power::{lemma_pow0, lemma_pow_positive, pow};
use vstd::prelude::*;

verus! {

/// The names that are fixed, letter for letter.
pub proof fn law_fixed_names()
    ensures
        crate::authenticator::MECHANISM@ == "api-key"@,
        crate::authenticator::PROOF@ == "api-key"@,
        crate::authenticator::SOURCE@ == "api-key.source"@,
        crate::store::DIGEST_PREFIX@ == "sha256:"@,
        crate::store::DIGEST_BYTES == 8,
        crate::digest::KEY_LENGTH == 32,
        crate::text::DIGITS@ == "0123456789abcdef"@,
{
}

/// Every byte is two digits, the high half first, and nothing else is written.
pub proof fn law_each_byte_is_two_digits(bytes: Seq<u8>)
    ensures
        crate::text::hex_text(bytes).len() == 2 * bytes.len(),
        forall|i: int|
            #![trigger bytes[i]]
            0 <= i < bytes.len() ==> crate::text::hex_text(bytes)[2 * i]
                == "0123456789abcdef"@[bytes[i] as int / 16] && crate::text::hex_text(
                bytes,
            )[2 * i + 1] == "0123456789abcdef"@[bytes[i] as int % 16],
{
}

/// Digit by digit, a number in decimal is the number: the digit at each place
/// counts that power of ten, and there is no place too few or too many.
pub proof fn law_each_place_counts_a_power_of_ten(n: nat)
    ensures
        ({
            let text = crate::text::decimal_text(n as int);
            &&& text.len() >= 1
            &&& n < pow(10, text.len())
            &&& text.len() > 1 ==> n >= pow(10, (text.len() - 1) as nat)
            &&& forall|i: int|
                #![trigger text[i]]
                0 <= i < text.len() ==> text[i] == "0123456789"@[(n as int / pow(
                    10,
                    (text.len() - 1 - i) as nat,
                )) % 10]
        }),
    decreases n,
{
    reveal_strlit("0123456789");
    reveal_strlit("0123456789abcdef");
    let text = crate::text::decimal_text(n as int);
    lemma_pow0(10);
    if n < 10 {
        reveal_with_fuel(pow, 2);
        assert(text =~= seq![crate::text::digit(n as int)]);
        assert(n as int / 1 == n);
    } else {
        let rest = crate::text::decimal_text((n / 10) as int);
        law_each_place_counts_a_power_of_ten(n / 10);
        assert(text == rest.push(crate::text::digit((n % 10) as int)));
        let places = rest.len();
        assert(pow(10, places + 1) == 10 * pow(10, places)) by {
            reveal_with_fuel(pow, 2);
        }
        if places == 1 {
            assert(pow(10, 1) == 10) by {
                reveal_with_fuel(pow, 2);
            }
        } else {
            assert(pow(10, places) == 10 * pow(10, (places - 1) as nat)) by {
                reveal_with_fuel(pow, 2);
            }
        }
        assert forall|i: int| #![trigger text[i]] 0 <= i < text.len() implies text[i]
            == "0123456789"@[(n as int / pow(10, (text.len() - 1 - i) as nat)) % 10] by {
            if i < places {
                let power = (places - 1 - i) as nat;
                assert(text[i] == rest[i]);
                assert(pow(10, power + 1) == 10 * pow(10, power)) by {
                    reveal_with_fuel(pow, 2);
                }
                lemma_pow_positive(10, power);
                lemma_div_denominator(n as int, 10, pow(10, power));
                assert((text.len() - 1 - i) as nat == power + 1);
                let place = ((n / 10) as int / pow(10, power)) % 10;
                assert(0 <= place < 10);
            } else {
                assert((text.len() - 1 - i) as nat == 0);
                assert(n as int / 1 == n);
            }
        }
    }
}

/// A number below zero is a minus sign and the number above it.
pub proof fn law_a_minus_stands_in_front(n: int)
    requires
        n > 0,
    ensures
        crate::text::decimal_text(-n) == seq!['-'] + crate::text::decimal_text(n),
{
    reveal_strlit("-");
    assert("-"@ =~= seq!['-']);
}

/// A key is hashed whole: every character, in UTF-8.
pub proof fn law_the_whole_key_is_hashed(key: Seq<char>)
    ensures
        crate::digest::key_hash(key) == crate::digest::sha256_of(vstd::utf8::encode_utf8(key)),
{
}

/// What each character of a digest is: `sha256:`, and then two digits for each
/// of the first eight bytes, in their order.
pub proof fn law_each_digit_of_a_digest(hash: Seq<u8>)
    requires
        hash.len() == 32,
    ensures
        crate::store::digest_text(hash) == "sha256:"@ + Seq::new(
                16,
                |d: int|
                    "0123456789abcdef"@[if d % 2 == 0 {
                        hash[d / 2] as int / 16
                    } else {
                        hash[d / 2] as int % 16
                    }],
            ),
        crate::store::digest_text(hash).len() == 23,
        forall|i: int|
            #![trigger hash[i]]
            0 <= i < 8 ==> crate::store::digest_text(hash)[7 + 2 * i]
                == "0123456789abcdef"@[hash[i] as int / 16] && crate::store::digest_text(hash)[8 + 2
                * i] == "0123456789abcdef"@[hash[i] as int % 16],
{
    reveal_strlit("sha256:");
    let text = crate::store::digest_text(hash);
    let written = "sha256:"@ + Seq::new(
                16,
                |d: int|
                    "0123456789abcdef"@[if d % 2 == 0 {
                        hash[d / 2] as int / 16
                    } else {
                        hash[d / 2] as int % 16
                    }],
            );
    assert(text =~= written);
    assert forall|i: int| #![trigger hash[i]] 0 <= i < 8 implies text[7 + 2 * i]
        == "0123456789abcdef"@[hash[i] as int / 16] && text[8 + 2 * i]
        == "0123456789abcdef"@[hash[i] as int % 16] by {
        assert(written[7 + 2 * i] == "0123456789abcdef"@[hash[i] as int / 16]);
        assert(written[8 + 2 * i] == "0123456789abcdef"@[hash[i] as int % 16]);
    }
}

/// A key is called by its id and by its digest, and by nothing else; it fits a
/// name and a hash where it has both; and it has expired from the second of its
/// expiry on.
pub proof fn law_what_a_key_answers_to(key: KeyView, name: Seq<char>, hash: Seq<u8>, now: i64)
    ensures
        key.digest() == crate::store::digest_text(key.hash),
        key.is_named(name) <==> name == key.id || name == crate::store::digest_text(key.hash),
        key.fits(name, hash) <==> key.hash == hash && (name == key.id || name
            == crate::store::digest_text(key.hash)),
        key.is_expired(now) <==> key.expiry is Some && key.expiry->0 <= now,
{
}

/// A name that is neither the id nor the digest finds nothing of a key, whatever
/// hash is looked for.
pub proof fn law_a_key_has_no_other_name(key: KeyView, name: Seq<char>)
    requires
        key.hash.len() == 32,
        name != key.id,
        name != "sha256:"@ + Seq::new(
                16,
                |d: int|
                    "0123456789abcdef"@[if d % 2 == 0 {
                        key.hash[d / 2] as int / 16
                    } else {
                        key.hash[d / 2] as int % 16
                    }],
            ),
    ensures
        crate::store::named_in(seq![key], name).len() == 0,
        forall|hash: Seq<u8>|
            (#[trigger] crate::store::held_in(seq![key], name, hash)) is None,
{
    reveal(Seq::filter);
    law_each_digit_of_a_digest(key.hash);
    let none = Seq::<KeyView>::empty();
    assert(none.push(key) =~= seq![key]);
    assert forall|hash: Seq<u8>|
        (#[trigger] crate::store::held_in(seq![key], name, hash)) is None by {
        crate::laws::law_insertion_is_last(none, key, name, hash);
    }
    crate::laws::law_insertion_is_last(none, key, name, key.hash);
}

/// The keys that a name names are those whose id or digest it is, all of them,
/// each as often as it is held and in the order they are held. `places` says
/// where each one stands.
pub proof fn law_the_named_are_those_called_so(keys: Seq<KeyView>, name: Seq<char>) -> (places: Seq<int>)
    ensures
        places.len() == crate::store::named_in(keys, name).len(),
        forall|k: int|
            #![trigger places[k]]
            0 <= k < places.len() ==> 0 <= places[k] < keys.len() && crate::store::named_in(
                keys,
                name,
            )[k] == keys[places[k]],
        forall|j: int, k: int|
            #![trigger places[j], places[k]]
            0 <= j < k < places.len() ==> places[j] < places[k],
        forall|i: int|
            #![trigger keys[i]]
            0 <= i < keys.len() ==> (places.contains(i) <==> name == keys[i].id || name
                == crate::store::digest_text(keys[i].hash)),
    decreases keys.len(),
{
    if keys.len() == 0 {
        reveal(Seq::filter);
        Seq::empty()
    } else {
        let rest = keys.drop_last();
        let key = keys.last();
        let before = law_the_named_are_those_called_so(rest, name);
        assert(rest.push(key) =~= keys);
        assert(key == keys[keys.len() - 1]);
        crate::laws::law_insertion_is_last(rest, key, name, key.hash);
        law_what_a_key_answers_to(key, name, key.hash, 0);
        let last = keys.len() - 1;
        let places = if key.is_named(name) {
            before.push(last)
        } else {
            before
        };
        assert forall|i: int| #![trigger keys[i]] 0 <= i < keys.len() implies (places.contains(i)
            <==> name == keys[i].id || name == crate::store::digest_text(keys[i].hash)) by {
            if i < last {
                assert(rest[i] == keys[i]);
                if before.contains(i) {
                    let k = choose|k: int| 0 <= k < before.len() && before[k] == i;
                    assert(places[k] == i);
                }
                if places.contains(i) {
                    let k = choose|k: int| 0 <= k < places.len() && places[k] == i;
                    assert(k < before.len() && before[k] == i);
                }
            } else {
                if key.is_named(name) {
                    assert(places[before.len() as int] == last);
                }
                if places.contains(i) && !key.is_named(name) {
                    let k = choose|k: int| 0 <= k < before.len() && before[k] == i;
                    assert(before[k] < rest.len());
                }
            }
        }
        places
    }
}

/// What is held under a name with a hash is the first key that has the hash and
/// whose id or digest the name is; and nothing, just where there is none.
pub proof fn law_the_held_is_the_first_called_so(keys: Seq<KeyView>, name: Seq<char>, hash: Seq<u8>)
    ensures
        crate::store::held_in(keys, name, hash) is None <==> forall|i: int|
            #![trigger keys[i]]
            0 <= i < keys.len() ==> !(keys[i].hash == hash && (name == keys[i].id || name
                == crate::store::digest_text(keys[i].hash))),
        forall|i: int|
            #![trigger keys[i]]
            0 <= i < keys.len() && keys[i].hash == hash && (name == keys[i].id || name
                == crate::store::digest_text(keys[i].hash)) && (forall|j: int|
                #![trigger keys[j]]
                0 <= j < i ==> !(keys[j].hash == hash && (name == keys[j].id || name
                    == crate::store::digest_text(keys[j].hash))))
                ==> crate::store::held_in(keys, name, hash) == Some(keys[i]),
{
    crate::laws::law_the_first_that_fits_is_held(keys, name, hash);
    assert forall|i: int| #![trigger keys[i]] 0 <= i < keys.len() implies (keys[i].fits(name, hash)
        <==> keys[i].hash == hash && (name == keys[i].id || name
            == crate::store::digest_text(keys[i].hash))) by {
        law_what_a_key_answers_to(keys[i], name, hash, 0);
    }
    if crate::store::held_in(keys, name, hash) is Some {
        let first = choose|i: int| #[trigger]
            crate::laws::is_first_fit(keys, name, hash, i) && keys[i] == crate::store::held_in(
                keys,
                name,
                hash,
            )->0;
        assert(keys[first].fits(name, hash));
        assert forall|i: int|
            #![trigger keys[i]]
            0 <= i < keys.len() && keys[i].hash == hash && (name == keys[i].id || name
                == crate::store::digest_text(keys[i].hash)) && (forall|j: int|
                #![trigger keys[j]]
                0 <= j < i ==> !(keys[j].hash == hash && (name == keys[j].id || name
                    == crate::store::digest_text(keys[j].hash))))
            implies crate::store::held_in(keys, name, hash) == Some(keys[i]) by {
            assert(keys[i].fits(name, hash));
            if i < first {
                assert(!keys[i].fits(name, hash));
            }
            if first < i {
                assert(!keys[first].fits(name, hash));
            }
        }
    } else {
        assert forall|i: int| #![trigger keys[i]] 0 <= i < keys.len() implies !(keys[i].hash == hash
            && (name == keys[i].id || name == crate::store::digest_text(keys[i].hash))) by {
            assert(!keys[i].fits(name, hash));
        }
    }
}

/// The proof under a name is the whole text that was bound to it, and there is
/// none where none was bound.
pub proof fn law_the_whole_proof_is_read(claim: ClaimView, name: Seq<char>)
    ensures
        claim.proofs.dom().contains(name) ==> claim.proof_under(name) == Some(claim.proofs[name]),
        !claim.proofs.dom().contains(name) ==> claim.proof_under(name) is None,
{
}

/// An answer is the result itself, with a failure's message whole.
pub proof fn law_an_answer_is_the_result(verified: Verified, failure: AuthenticateError)
    ensures
        crate::claim::answer(Ok(verified)) == Ok::<Verified, Seq<char>>(verified),
        crate::claim::answer(Err(failure)) == Err::<Verified, Seq<char>>(failure.message@),
{
}

/// What a clock shows is the seconds it counts, the largest number where they
/// are past counting, and zero before the epoch.
pub proof fn law_seconds_are_counted_as_they_are(count: u64)
    ensures
        count <= 0x7fff_ffff_ffff_ffff ==> crate::clock::seconds_shown(Some(count)) == count,
        count > 0x7fff_ffff_ffff_ffff ==> crate::clock::seconds_shown(Some(count))
            == 0x7fff_ffff_ffff_ffff,
        crate::clock::seconds_shown(None) == 0,
{
}

/// A reading after the epoch shows the whole seconds of the duration, and a
/// reading before it shows zero.
pub proof fn law_a_reading_shows_whole_seconds(
    since: Result<Duration, SystemTimeError>,
    seconds: i64,
)
    ensures
        since is Ok && crate::clock::reading_shows(since, seconds) && seconds < i64::MAX
            ==> seconds >= 0 && call_ensures(Duration::as_secs, (&since->Ok_0,), seconds as u64),
        since is Ok && crate::clock::reading_shows(since, seconds) && seconds == i64::MAX
            ==> exists|count: u64| #[trigger]
            call_ensures(Duration::as_secs, (&since->Ok_0,), count) && count >= i64::MAX,
        forall|count: u64|
            since is Ok && count <= i64::MAX && #[trigger] call_ensures(
                Duration::as_secs,
                (&since->Ok_0,),
                count,
            ) ==> crate::clock::reading_shows(since, count as i64),
        since is Err ==> (crate::clock::reading_shows(since, seconds) <==> seconds == 0),
{
}

/// The machine's clock shows what the moment it says it is comes to against the
/// epoch: the whole seconds of the difference, as far as they can be counted, or
/// zero before it.
pub proof fn law_the_machine_shows_its_moment(seconds: i64)
    requires
        crate::clock::machine_shows(seconds),
    ensures
        exists|moment: SystemTime, since: Result<Duration, SystemTimeError>| #[trigger]
            crate::clock::epoch_reading(moment, since) && call_ensures(SystemTime::now, (), moment)
                && match since {
                Ok(since) => exists|count: u64| #[trigger]
                    call_ensures(Duration::as_secs, (&since,), count) && (count <= i64::MAX
                        ==> seconds == count) && (count > i64::MAX ==> seconds == i64::MAX),
                Err(_) => seconds == 0,
            },
{
}

/// A key is presented just where the mechanism is `api-key` and a text that is
/// not empty is bound to `api-key` among the proofs; and the key is that text,
/// whole.
pub proof fn law_the_key_presented_is_the_whole_proof(claim: ClaimView, secret: Seq<char>)
    ensures
        crate::authenticator::key_presented(claim) == Ok::<Seq<char>, Seq<char>>(secret) <==> (
        claim.mechanism == "api-key"@ && claim.proofs.dom().contains("api-key"@)
            && claim.proofs["api-key"@] == secret && secret.len() > 0),
{
}

/// What is said of a claim that presents no key: of another mechanism its name,
/// of a missing key the name that is claimed, of an empty key that it is empty.
/// Whatever keys are held, at any time.
pub proof fn law_what_is_said_without_a_key(keys: Seq<KeyView>, claim: ClaimView, now: i64)
    ensures
        claim.mechanism != "api-key"@ ==> crate::authenticator::verdict(keys, claim, now) == Err::<
            Verified,
            Seq<char>,
        >("'"@ + claim.mechanism + "' was presented and this authenticator verifies api-key"@),
        claim.mechanism == "api-key"@ && !claim.proofs.dom().contains("api-key"@)
            ==> crate::authenticator::verdict(keys, claim, now) == Err::<Verified, Seq<char>>(
            "no 'api-key' proof was presented with the key '"@ + claim.value + "'"@,
        ),
        claim.mechanism == "api-key"@ && claim.proofs.dom().contains("api-key"@)
            && claim.proofs["api-key"@].len() == 0 ==> crate::authenticator::verdict(
            keys,
            claim,
            now,
        ) == Err::<Verified, Seq<char>>("the key presented is empty"@),
        claim.mechanism != "api-key"@ || !claim.proofs.dom().contains("api-key"@)
            || claim.proofs["api-key"@].len() == 0 ==> crate::authenticator::key_presented(claim)
            is Err && !crate::authenticator::is_held(keys, claim),
        match crate::authenticator::key_presented(claim) {
            Err(message) => crate::authenticator::verdict(keys, claim, now) == Err::<
                Verified,
                Seq<char>,
            >(message),
            Ok(_) => true,
        },
{
    reveal_strlit("no '");
    reveal_strlit("api-key");
    reveal_strlit("' proof was presented with the key '");
    reveal_strlit("no 'api-key' proof was presented with the key '");
    assert("no '"@ + "api-key"@ + "' proof was presented with the key '"@
        =~= "no 'api-key' proof was presented with the key '"@);
}

/// A presented key is looked for by the SHA-256 of the whole of it, under the
/// name that is claimed. It is held just where some key has that SHA-256 and the
/// name is its id or its digest, and where there is none the answer is `Refused`.
pub proof fn law_a_key_not_held_is_refused(keys: Seq<KeyView>, claim: ClaimView, now: i64)
    requires
        claim.mechanism == "api-key"@,
        claim.proofs.dom().contains("api-key"@),
        claim.proofs["api-key"@].len() > 0,
    ensures
        crate::authenticator::is_held(keys, claim) <==> exists|i: int|
            #![trigger keys[i]]
            0 <= i < keys.len() && keys[i].hash
                == crate::digest::sha256_of(vstd::utf8::encode_utf8(claim.proofs["api-key"@]))
                && (claim.value == keys[i].id || claim.value
                == crate::store::digest_text(keys[i].hash)),
        crate::authenticator::verdict(keys, claim, now) == Ok::<Verified, Seq<char>>(
            Verified::Refused,
        ) <==> forall|i: int|
            #![trigger keys[i]]
            0 <= i < keys.len() ==> !(keys[i].hash
                == crate::digest::sha256_of(vstd::utf8::encode_utf8(claim.proofs["api-key"@]))
                && (claim.value == keys[i].id || claim.value
                == crate::store::digest_text(keys[i].hash))),
{
    law_the_held_is_the_first_called_so(
        keys,
        claim.value,
        crate::digest::sha256_of(vstd::utf8::encode_utf8(claim.proofs["api-key"@])),
    );
}

/// Where the key that stands at `first` is the first that has the SHA-256 of the
/// whole proof and whose id or digest is the name that is claimed, it decides:
/// the claim is proven until its expiry, and from then on refused with its id,
/// the expiry and the time.
pub proof fn law_the_first_key_decides(keys: Seq<KeyView>, claim: ClaimView, first: int, now: i64)
    requires
        claim.mechanism == "api-key"@,
        claim.proofs.dom().contains("api-key"@),
        claim.proofs["api-key"@].len() > 0,
        0 <= first < keys.len(),
        keys[first].hash
            == crate::digest::sha256_of(vstd::utf8::encode_utf8(claim.proofs["api-key"@])),
        claim.value == keys[first].id || claim.value == crate::store::digest_text(keys[first].hash),
        forall|j: int|
            #![trigger keys[j]]
            0 <= j < first ==> !(keys[j].hash
                == crate::digest::sha256_of(vstd::utf8::encode_utf8(claim.proofs["api-key"@]))
                && (claim.value == keys[j].id || claim.value
                == crate::store::digest_text(keys[j].hash))),
    ensures
        keys[first].expiry is None ==> crate::authenticator::verdict(keys, claim, now) == Ok::<
            Verified,
            Seq<char>,
        >(Verified::Proven),
        keys[first].expiry matches Some(expiry) ==> now < expiry
            ==> crate::authenticator::verdict(keys, claim, now) == Ok::<Verified, Seq<char>>(
            Verified::Proven,
        ),
        keys[first].expiry matches Some(expiry) ==> now >= expiry
            ==> crate::authenticator::verdict(keys, claim, now) == Err::<Verified, Seq<char>>(
            "the key '"@ + keys[first].id + "' expired at "@ + crate::text::decimal_text(
                expiry as int,
            ) + " and it is "@ + crate::text::decimal_text(now as int),
        ),
{
    law_the_held_is_the_first_called_so(
        keys,
        claim.value,
        crate::digest::sha256_of(vstd::utf8::encode_utf8(claim.proofs["api-key"@])),
    );
}

/// A held key is judged by its expiry: good before that second, refused with its
/// id, the expiry and the time from then on, and always good without one.
pub proof fn law_a_key_is_judged_by_its_expiry(key: KeyView, now: i64)
    ensures
        key.expiry is None ==> crate::authenticator::judged(key, now) == Ok::<Verified, Seq<char>>(
            Verified::Proven,
        ),
        key.expiry matches Some(expiry) ==> now < expiry ==> crate::authenticator::judged(key, now)
            == Ok::<Verified, Seq<char>>(Verified::Proven),
        key.expiry matches Some(expiry) ==> now >= expiry ==> crate::authenticator::judged(key, now)
            == Err::<Verified, Seq<char>>(
            "the key '"@ + key.id + "' expired at "@ + crate::text::decimal_text(expiry as int)
                + " and it is "@ + crate::text::decimal_text(now as int),
        ),
{
}

/// A hash is answered as a claim that presents a key of that hash would be: it
/// is refused where no key has it under the name, and otherwise the first that
/// has decides.
pub proof fn law_a_hash_is_answered_as_its_key(
    keys: Seq<KeyView>,
    name: Seq<char>,
    hash: Seq<u8>,
    now: i64,
)
    ensures
        (forall|i: int|
            #![trigger keys[i]]
            0 <= i < keys.len() ==> !(keys[i].hash == hash && (name == keys[i].id || name
                == crate::store::digest_text(keys[i].hash))))
            ==> crate::authenticator::hash_verdict(keys, name, hash, now) == Ok::<
            Verified,
            Seq<char>,
        >(Verified::Refused),
        forall|i: int|
            #![trigger keys[i]]
            0 <= i < keys.len() && keys[i].hash == hash && (name == keys[i].id || name
                == crate::store::digest_text(keys[i].hash)) && (forall|j: int|
                #![trigger keys[j]]
                0 <= j < i ==> !(keys[j].hash == hash && (name == keys[j].id || name
                    == crate::store::digest_text(keys[j].hash))))
                ==> crate::authenticator::hash_verdict(keys, name, hash, now)
                == crate::authenticator::judged(keys[i], now),
{
    law_the_held_is_the_first_called_so(keys, name, hash);
}

/// Whoever presents the key that was inserted first under an id, without an
/// expiry, proves the claim on that id, however long the key is and whatever was
/// inserted after it; and proves the claim on its digest too.
pub proof fn law_the_holder_of_a_key_proves_the_claim(
    id: Seq<char>,
    secret: Seq<char>,
    later: Seq<KeyView>,
    claim: ClaimView,
    now: i64,
)
    requires
        secret.len() > 0,
        claim.mechanism == "api-key"@,
        claim.value == id || claim.value == crate::store::digest_text(
            crate::digest::sha256_of(vstd::utf8::encode_utf8(secret)),
        ),
    ensures
        crate::authenticator::verdict(
            seq![(KeyView { id, hash: crate::digest::sha256_of(vstd::utf8::encode_utf8(secret)), expiry: None })] + later,
            (ClaimView { proofs: claim.proofs.insert("api-key"@, secret), ..claim }),
            now,
        ) == Ok::<Verified, Seq<char>>(Verified::Proven),
{
    let key = KeyView { id, hash: crate::digest::sha256_of(vstd::utf8::encode_utf8(secret)), expiry: None };
    let keys = seq![key] + later;
    let presented = ClaimView { proofs: claim.proofs.insert("api-key"@, secret), ..claim };
    assert(keys[0] == key);
    law_the_first_key_decides(keys, presented, 0, now);
}

} // verus!
