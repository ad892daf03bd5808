# api_key

Authenticate by API key: a key against a store of keys that are hashed at rest,
each with an id and an expiry. Written in Rust and proved with Verus.

- `src/store.rs`: the keys, the two names each one has, and how they are found.
- `src/authenticator.rs`: what a claim must present, and what becomes of it.
- `src/claim.rs`: a claim, and the answers to one.
- `src/clock.rs`: seconds since the Unix epoch.
- `src/digest.rs`, `src/text.rs`: SHA-256, its comparison, and bytes and numbers
  as text.
- `src/laws.rs`: what holds of the store and the verifier together.
- `app/`: the verifier as an `Authenticator` of the node.

Taken on trust: that `sha2::Sha256::digest` is a function of its bytes, and the
system clock, of which nothing is assumed.
