//! The key store: API keys hashed at rest, each with its id and its expiry.
//!
//! What is kept for a key is its id, the name an operator and the record know
//! it by; the SHA-256 of the key; and the moment it stops being good, in
//! seconds since the Unix epoch. The key is not kept.
//!
//! A key is named on the record in one of two forms, and the store finds it by
//! either: the public id the issuer put in front of the secret, or `sha256:`
//! and the first eight bytes of the key's SHA-256 in hexadecimal. A name is
//! only where to look. The key itself is then hashed and compared with every
//! key the name found, each in constant time and with no early exit. That
//! much is so by the code; the contracts say what is found, not in what time.

use crate::digest::{constant_time_eq, sha256, KEY_LENGTH};
use crate::text::hex;
use vstd::prelude::*;
use vstd::slice::slice_subrange;
use vstd::string::StringExecFns;

verus! {

/// What a name that is a digest of the key starts with.
pub const DIGEST_PREFIX: &'static str = "sha256:";

/// How many bytes of the key's SHA-256 the digest form carries.
pub const DIGEST_BYTES: usize = 8;

/// What a key is, to a reader of the contracts.
pub struct KeyView {
    pub id: Seq<char>,
    pub hash: Seq<u8>,
    pub expiry: Option<i64>,
}

impl KeyView {
    /// The digest form of the key's name.
    pub open spec fn digest(self) -> Seq<char> {
        digest_text(self.hash)
    }

    /// Whether `name` is the key's, in either form.
    pub open spec fn is_named(self, name: Seq<char>) -> bool {
        name == self.id || name == self.digest()
    }

    /// Whether the key is named `name` and its SHA-256 is `hash`.
    pub open spec fn fits(self, name: Seq<char>, hash: Seq<u8>) -> bool {
        self.is_named(name) && self.hash == hash
    }

    /// Whether the key is no longer good at `now`.
    pub open spec fn is_expired(self, now: i64) -> bool {
        self.expiry matches Some(expiry) && now >= expiry
    }
}

/// The digest form of the name of a key whose SHA-256 is `hash`.
pub open spec fn digest_text(hash: Seq<u8>) -> Seq<char> {
    DIGEST_PREFIX@ + crate::text::hex_text(hash.take(DIGEST_BYTES as int))
}

/// The keys that `name` names, in the order they are held.
pub open spec fn named_in(keys: Seq<KeyView>, name: Seq<char>) -> Seq<KeyView> {
    keys.filter(|key: KeyView| key.is_named(name))
}

/// The keys whose SHA-256 is `hash`, in the order they are held.
pub open spec fn hashed_in(keys: Seq<KeyView>, hash: Seq<u8>) -> Seq<KeyView> {
    keys.filter(|key: KeyView| key.hash == hash)
}

/// The first of `keys`, where there is one.
pub open spec fn first_of(keys: Seq<KeyView>) -> Option<KeyView> {
    if keys.len() == 0 {
        None
    } else {
        Some(keys[0])
    }
}

/// The first key that `name` names whose SHA-256 is `hash`.
pub open spec fn held_in(keys: Seq<KeyView>, name: Seq<char>, hash: Seq<u8>) -> Option<KeyView> {
    first_of(hashed_in(named_in(keys, name), hash))
}

/// The views of a list of borrowed keys.
pub open spec fn views(keys: Seq<&Key>) -> Seq<KeyView> {
    keys.map_values(|key: &Key| key@)
}

/// One key as the store holds it.
#[derive(Debug, Eq, PartialEq)]
pub struct Key {
    id: String,
    hash: [u8; KEY_LENGTH],
    expiry: Option<i64>,
}

impl View for Key {
    type V = KeyView;

    closed spec fn view(&self) -> KeyView {
        KeyView { id: self.id@, hash: self.hash@, expiry: self.expiry }
    }
}

impl Clone for Key {
    fn clone(&self) -> (key: Self)
        ensures
            key@ == self@,
    {
        Key { id: self.id.clone(), hash: self.hash, expiry: self.expiry }
    }
}

impl Key {
    /// The name the key is known by; never the key.
    #[must_use]
    pub fn id(&self) -> (id: &str)
        ensures
            id@ == self@.id,
    {
        self.id.as_str()
    }

    /// SHA-256 of the key.
    #[must_use]
    pub fn hash(&self) -> (hash: &[u8; KEY_LENGTH])
        ensures
            hash@ == self@.hash,
    {
        &self.hash
    }

    /// The first second, since the Unix epoch, at which the key is no longer
    /// good. `None` is a key that does not expire.
    #[must_use]
    pub fn expiry(&self) -> (expiry: Option<i64>)
        ensures
            expiry == self@.expiry,
    {
        self.expiry
    }

    /// The digest form of this key's name: `sha256:` and sixteen hexadecimal
    /// digits.
    #[must_use]
    pub fn digest(&self) -> (digest: String)
        ensures
            digest@ == self@.digest(),
            digest@.len() == DIGEST_PREFIX@.len() + 2 * DIGEST_BYTES,
    {
        let head = slice_subrange(self.hash.as_slice(), 0, DIGEST_BYTES);
        assert(head@ =~= self.hash@.take(DIGEST_BYTES as int));
        let mut digest = DIGEST_PREFIX.to_owned();
        digest.append(hex(head).as_str());
        digest
    }

    /// Whether `name` is this key's, in either form.
    #[must_use]
    pub fn is_named(&self, name: &str) -> (named: bool)
        ensures
            named == self@.is_named(name@),
    {
        let name = name.to_owned();
        name == self.id || name == self.digest()
    }
}

/// The keys a node takes, built from configuration and read-only after.
#[derive(Debug)]
pub struct KeyStore {
    keys: Vec<Key>,
}

impl View for KeyStore {
    type V = Seq<KeyView>;

    closed spec fn view(&self) -> Seq<KeyView> {
        self.keys@.map_values(|key: Key| key@)
    }
}

impl Clone for KeyStore {
    fn clone(&self) -> (store: Self)
        ensures
            store@ == self@,
    {
        let mut keys: Vec<Key> = Vec::new();
        let mut i: usize = 0;
        while i < self.keys.len()
            invariant
                i <= self.keys@.len(),
                keys@.len() == i,
                forall|j: int| 0 <= j < i ==> (#[trigger] keys@[j])@ == self.keys@[j]@,
            decreases self.keys@.len() - i,
        {
            keys.push(self.keys[i].clone());
            i = i + 1;
        }
        let store = KeyStore { keys };
        assert(store@ =~= self@);
        store
    }
}

impl Default for KeyStore {
    fn default() -> (store: Self)
        ensures
            store@ == Seq::<KeyView>::empty(),
    {
        let store = KeyStore { keys: Vec::new() };
        assert(store@ =~= Seq::<KeyView>::empty());
        store
    }
}

impl KeyStore {
    /// Of every key that is held, the whole SHA-256 is.
    pub proof fn law_hashes_are_whole(&self)
        ensures
            forall|i: int| 0 <= i < self@.len() ==> (#[trigger] self@[i]).hash.len() == KEY_LENGTH,
    {
    }

    /// A store holding nothing, which verifies nobody.
    #[must_use]
    pub fn new() -> (store: Self)
        ensures
            store@ == Seq::<KeyView>::empty(),
    {
        Self::default()
    }

    /// Hold `key` under `id`, hashed. The key is not kept. A second key under
    /// the same id stands beside the first, which is how a key is rotated
    /// without a gap.
    pub fn insert(&mut self, id: &str, key: &str, expiry: Option<i64>)
        ensures
            final(self)@ == old(self)@.push(
                (KeyView {
                    id: id@,
                    hash: crate::digest::sha256_of(vstd::utf8::encode_utf8(key@)),
                    expiry,
                }),
            ),
            crate::digest::sha256_of(vstd::utf8::encode_utf8(key@)).len() == KEY_LENGTH,
    {
        self.insert_hash(id, sha256(key.as_bytes()), expiry);
    }

    /// Hold a key hashed elsewhere, as configuration carries it.
    pub fn insert_hash(&mut self, id: &str, hash: [u8; KEY_LENGTH], expiry: Option<i64>)
        ensures
            final(self)@ == old(self)@.push((KeyView { id: id@, hash: hash@, expiry })),
    {
        self.keys.push(Key { id: id.to_owned(), hash, expiry });
        assert(self@ =~= old(self)@.push((KeyView { id: id@, hash: hash@, expiry })));
    }

    /// How many keys are held.
    #[must_use]
    pub fn len(&self) -> (len: usize)
        ensures
            len == self@.len(),
    {
        self.keys.len()
    }

    /// Whether nothing is held.
    #[must_use]
    pub fn is_empty(&self) -> (empty: bool)
        ensures
            empty == (self@.len() == 0),
    {
        self.keys.is_empty()
    }

    /// The keys `name` names, by id or by digest, in the order they were
    /// inserted. Finding one proves nothing: a name is public.
    pub fn named<'a>(&'a self, name: &str) -> (named: Vec<&'a Key>)
        ensures
            views(named@) == named_in(self@, name@),
            named@.len() == named_in(self@, name@).len(),
            forall|i: int|
                0 <= i < named@.len() ==> (#[trigger] named@[i])@ == named_in(self@, name@)[i],
    {
        let mut named: Vec<&'a Key> = Vec::new();
        let mut i: usize = 0;
        let ghost is_named = |key: KeyView| key.is_named(name@);
        assert(self@.take(0) =~= Seq::<KeyView>::empty());
        assert(views(named@) =~= Seq::<KeyView>::empty());
        reveal(Seq::filter);
        while i < self.keys.len()
            invariant
                i <= self.keys@.len(),
                self@.len() == self.keys@.len(),
                is_named == (|key: KeyView| key.is_named(name@)),
                views(named@) == self@.take(i as int).filter(is_named),
            decreases self.keys@.len() - i,
        {
            let key = &self.keys[i];
            let ghost before = named@;
            if key.is_named(name) {
                named.push(key);
                assert(views(named@) =~= views(before).push(key@));
            }
            proof {
                reveal(Seq::filter);
                assert(self@.take(i + 1).drop_last() =~= self@.take(i as int));
                assert(self@.take(i + 1).last() == key@);
            }
            i = i + 1;
        }
        assert(self@.take(i as int) =~= self@);
        assert forall|k: int| 0 <= k < named@.len() implies (#[trigger] named@[k])@ == named_in(
            self@,
            name@,
        )[k] by {
            assert(views(named@)[k] == named@[k]@);
        }
        named
    }

    /// The key `name` names whose hash is `hash`, compared in constant time
    /// against every key the name found. Where there are several, the one
    /// inserted first.
    ///
    /// That every key the name found is compared, also after one that fits, is
    /// how the code is written. The contract says which key is found, not how
    /// many were compared nor in what time.
    #[must_use]
    pub fn holding(&self, name: &str, hash: &[u8; KEY_LENGTH]) -> (held: Option<&Key>)
        ensures
            match held {
                Some(key) => held_in(self@, name@, hash@) == Some(key@),
                None => held_in(self@, name@, hash@) is None,
            },
    {
        let named = self.named(name);
        let ghost keys = named_in(self@, name@);
        let ghost is_hashed = |key: KeyView| key.hash == hash@;
        let mut held: Option<&Key> = None;
        let mut i: usize = 0;
        reveal(Seq::filter);
        assert(keys.take(0) =~= Seq::<KeyView>::empty());
        while i < named.len()
            invariant
                i <= named@.len(),
                keys == views(named@),
                is_hashed == (|key: KeyView| key.hash == hash@),
                match held {
                    Some(key) => first_of(keys.take(i as int).filter(is_hashed)) == Some(key@),
                    None => first_of(keys.take(i as int).filter(is_hashed)) is None,
                },
            decreases named@.len() - i,
        {
            let key = named[i];
            if constant_time_eq(key.hash.as_slice(), hash.as_slice()) {
                held = match held {
                    Some(found) => Some(found),
                    None => Some(key),
                };
            }
            proof {
                reveal(Seq::filter);
                assert(keys.take(i + 1).drop_last() =~= keys.take(i as int));
                assert(keys.take(i + 1).last() == key@);
            }
            i = i + 1;
        }
        assert(keys.take(i as int) =~= keys);
        held
    }
}

} // verus!
