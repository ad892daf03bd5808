//! SHA-256 of a key, and the comparison of two of them.

use sha2::{Digest, Sha256};
use vstd::prelude::*;

verus! {

/// How many bytes a SHA-256 is.
pub const KEY_LENGTH: usize = 32;

/// SHA-256 of `data`, as FIPS 180-4 defines it: a function of the bytes alone.
pub uninterp spec fn sha256_of(data: Seq<u8>) -> Seq<u8>;

/// SHA-256 of a key: of its characters in UTF-8.
pub open spec fn key_hash(key: Seq<char>) -> Seq<u8> {
    sha256_of(vstd::utf8::encode_utf8(key))
}

/// SHA-256 of `data`.
///
/// Calls `sha2::Sha256::digest` and hands its thirty-two bytes on. Taken on
/// trust: that the digest is a function of the bytes, which `sha256_of` names.
/// The algorithm itself is not stated. It is defined for inputs of less than
/// 2^61 bytes, and no address space holds a longer slice.
#[verifier::external_body]
pub(crate) fn sha256(data: &[u8]) -> (hash: [u8; KEY_LENGTH])
    ensures
        hash@ == sha256_of(data@),
{
    Sha256::digest(data).into()
}

/// Whether `a` and `b` hold the same bytes. Every byte is looked at, whether
/// or not an earlier one differed; only the lengths are compared first.
///
/// That it does not stop at the first difference is how the code is written.
/// The contract says what is answered, not in what time.
pub fn constant_time_eq(a: &[u8], b: &[u8]) -> (same: bool)
    ensures
        same == (a@ == b@),
{
    if a.len() != b.len() {
        return false;
    }
    let mut difference: u8 = 0;
    let mut i: usize = 0;
    while i < a.len()
        invariant
            i <= a@.len(),
            a@.len() == b@.len(),
            (difference == 0) == (a@.take(i as int) =~= b@.take(i as int)),
        decreases a@.len() - i,
    {
        let ghost before = difference;
        let x = a[i];
        let y = b[i];
        difference = difference | (x ^ y);
        proof {
            assert((before | (x ^ y)) == 0 <==> before == 0 && x == y) by (bit_vector);
            if a@.take(i + 1) =~= b@.take(i + 1) {
                assert(a@.take(i + 1)[i as int] == b@.take(i + 1)[i as int]);
                assert(a@.take(i + 1).take(i as int) =~= a@.take(i as int));
                assert(b@.take(i + 1).take(i as int) =~= b@.take(i as int));
            }
            if difference == 0 {
                assert(a@.take(i + 1) =~= a@.take(i as int).push(x));
                assert(b@.take(i + 1) =~= b@.take(i as int).push(y));
            }
        }
        i = i + 1;
    }
    proof {
        assert(a@.take(i as int) =~= a@);
        assert(b@.take(i as int) =~= b@);
    }
    difference == 0
}

} // verus!
