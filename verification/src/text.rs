//! Bytes and numbers as text: lower-case hexadecimal and signed decimal.

use vstd::prelude::*;
use vstd::string::{StrSliceExecFns, StringExecFns};

verus! {

/// The digits, each at its own value.
pub const DIGITS: &'static str = "0123456789abcdef";

/// The digit whose value is `value`, for values below sixteen.
pub open spec fn digit(value: int) -> char {
    DIGITS@[value]
}

/// `bytes` in hexadecimal: two digits a byte, the high half first.
pub open spec fn hex_text(bytes: Seq<u8>) -> Seq<char> {
    Seq::new(
        2 * bytes.len(),
        |i: int|
            if i % 2 == 0 {
                digit(bytes[i / 2] as int / 16)
            } else {
                digit(bytes[i / 2] as int % 16)
            },
    )
}

/// `n` in decimal, without leading zeros.
pub open spec fn natural_text(n: nat) -> Seq<char>
    decreases n,
{
    if n < 10 {
        seq![digit(n as int)]
    } else {
        natural_text(n / 10).push(digit((n % 10) as int))
    }
}

/// `n` in decimal, with a minus sign in front of a negative number.
pub open spec fn decimal_text(n: int) -> Seq<char> {
    if n < 0 {
        "-"@ + natural_text((-n) as nat)
    } else {
        natural_text(n as nat)
    }
}

/// What `DIGITS` holds.
pub proof fn lemma_digits()
    ensures
        DIGITS@.len() == 16,
        DIGITS.is_ascii(),
        forall|i: int, j: int|
            0 <= i < 16 && 0 <= j < 16 && #[trigger] DIGITS@[i] == #[trigger] DIGITS@[j] ==> i == j,
{
    reveal_strlit("0123456789abcdef");
}

/// Two byte strings with the same hexadecimal form are the same.
pub proof fn lemma_hex_injective(a: Seq<u8>, b: Seq<u8>)
    requires
        hex_text(a) == hex_text(b),
    ensures
        a == b,
{
    lemma_digits();
    assert(hex_text(a).len() == 2 * a.len());
    assert(hex_text(b).len() == 2 * b.len());
    assert forall|i: int| 0 <= i < a.len() implies a[i] == b[i] by {
        assert(hex_text(a)[2 * i] == hex_text(b)[2 * i]);
        assert(hex_text(a)[2 * i + 1] == hex_text(b)[2 * i + 1]);
        assert(hex_text(a)[2 * i] == digit(a[i] as int / 16));
        assert(hex_text(b)[2 * i] == digit(b[i] as int / 16));
        assert(hex_text(a)[2 * i + 1] == digit(a[i] as int % 16));
        assert(hex_text(b)[2 * i + 1] == digit(b[i] as int % 16));
    }
    assert(a =~= b);
}

/// Appends the digit whose value is `value`.
fn push_digit(out: &mut String, value: usize)
    requires
        value < 16,
    ensures
        final(out)@ == old(out)@.push(digit(value as int)),
{
    proof {
        lemma_digits();
    }
    let one = DIGITS.substring_ascii(value, value + 1);
    out.append(one);
    proof {
        assert(one@ =~= seq![digit(value as int)]);
    }
}

/// `bytes` in lower-case hexadecimal.
pub fn hex(bytes: &[u8]) -> (out: String)
    ensures
        out@ == hex_text(bytes@),
{
    let mut out = String::new();
    let mut i: usize = 0;
    while i < bytes.len()
        invariant
            i <= bytes@.len(),
            out@ == hex_text(bytes@.take(i as int)),
        decreases bytes@.len() - i,
    {
        let byte = bytes[i];
        push_digit(&mut out, (byte / 16) as usize);
        push_digit(&mut out, (byte % 16) as usize);
        proof {
            let next = bytes@.take(i + 1);
            assert(out@ =~= hex_text(next));
        }
        i = i + 1;
    }
    assert(bytes@.take(i as int) =~= bytes@);
    out
}

/// Appends `n` in decimal.
fn push_natural(out: &mut String, n: u64)
    ensures
        final(out)@ == old(out)@ + natural_text(n as nat),
    decreases n,
{
    if n >= 10 {
        push_natural(out, n / 10);
    }
    push_digit(out, (n % 10) as usize);
}

/// `n` in decimal.
pub fn decimal(n: i64) -> (out: String)
    ensures
        out@ == decimal_text(n as int),
{
    let mut out = String::new();
    if n < 0 {
        out.append("-");
        push_natural(&mut out, (-(n + 1)) as u64 + 1);
    } else {
        push_natural(&mut out, n as u64);
    }
    out
}

} // verus!
