//! Little-endian byte strings as natural numbers.

use vstd::prelude::*;

verus! {

/// The number that a byte string encodes, least significant byte first.
pub open spec fn le_value(bytes: Seq<u8>) -> nat
    decreases bytes.len(),
{
    if bytes.len() == 0 {
        0
    } else {
        bytes[0] as nat + 256 * le_value(bytes.drop_first())
    }
}

/// The `len`-byte little-endian encoding of `value` (of its low `len` bytes
/// where it does not fit).
pub open spec fn le_encode(value: nat, len: nat) -> Seq<u8>
    decreases len,
{
    if len == 0 {
        Seq::empty()
    } else {
        seq![(value % 256) as u8] + le_encode(value / 256, (len - 1) as nat)
    }
}

/// 256 to the power `n`: the number of byte strings of length `n`.
pub open spec fn pow256(n: nat) -> nat
    decreases n,
{
    if n == 0 {
        1
    } else {
        256 * pow256((n - 1) as nat)
    }
}

/// The value of the bytes from index `from` on, by index rather than by
/// taking the string apart.
pub open spec fn le_value_from(bytes: Seq<u8>, from: int) -> nat
    decreases bytes.len() - from,
{
    if from < 0 || from >= bytes.len() {
        0
    } else {
        bytes[from] as nat + 256 * le_value_from(bytes, from + 1)
    }
}

/// The two ways of reading a byte string agree.
pub proof fn lemma_le_value_from(bytes: Seq<u8>, from: int)
    requires
        0 <= from <= bytes.len(),
    ensures
        le_value_from(bytes, from) == le_value(bytes.subrange(from, bytes.len() as int)),
    decreases bytes.len() - from,
{
    let tail = bytes.subrange(from, bytes.len() as int);
    if from < bytes.len() {
        lemma_le_value_from(bytes, from + 1);
        assert(tail.drop_first() =~= bytes.subrange(from + 1, bytes.len() as int));
    }
}

/// A byte string whose last byte is not zero encodes at least 256^(n-1).
pub proof fn lemma_le_value_lower_bound(bytes: Seq<u8>)
    requires
        bytes.len() > 0,
        bytes.last() != 0,
    ensures
        le_value(bytes) >= pow256((bytes.len() - 1) as nat),
    decreases bytes.len(),
{
    if bytes.len() > 1 {
        assert(bytes.drop_first().last() == bytes.last());
        lemma_le_value_lower_bound(bytes.drop_first());
    }
}

/// Powers of 256 grow with the exponent.
pub proof fn lemma_pow256_monotonic(a: nat, b: nat)
    requires
        a <= b,
    ensures
        1 <= pow256(a) <= pow256(b),
    decreases b,
{
    if a < b {
        lemma_pow256_monotonic(a, (b - 1) as nat);
    } else if a > 0 {
        lemma_pow256_monotonic((a - 1) as nat, (a - 1) as nat);
    }
}

/// 256^32 is 2^256.
pub proof fn lemma_pow256_32()
    ensures
        pow256(32) == 0x1_0000000000000000_0000000000000000_0000000000000000_0000000000000000nat,
{
    assert(pow256(0) == 1);
    assert(pow256(4) == 0x1_0000_0000nat) by {
        reveal_with_fuel(pow256, 5);
    }
    assert(pow256(8) == 0x1_0000_0000_0000_0000nat) by {
        reveal_with_fuel(pow256, 5);
    }
    assert(pow256(12) == 0x1_0000_0000_0000_0000_0000_0000nat) by {
        reveal_with_fuel(pow256, 5);
    }
    assert(pow256(16) == 0x1_0000_0000_0000_0000_0000_0000_0000_0000nat) by {
        reveal_with_fuel(pow256, 5);
    }
    assert(pow256(20) == 0x1_0000_0000_0000_0000_0000_0000_0000_0000_0000_0000nat) by {
        reveal_with_fuel(pow256, 5);
    }
    assert(pow256(24) == 0x1_0000_0000_0000_0000_0000_0000_0000_0000_0000_0000_0000_0000nat) by {
        reveal_with_fuel(pow256, 5);
    }
    assert(pow256(28) == 0x1_0000_0000_0000_0000_0000_0000_0000_0000_0000_0000_0000_0000_0000_0000nat)
        by {
        reveal_with_fuel(pow256, 5);
    }
    assert(pow256(32)
        == 0x1_0000_0000_0000_0000_0000_0000_0000_0000_0000_0000_0000_0000_0000_0000_0000_0000nat)
        by {
        reveal_with_fuel(pow256, 5);
    }
}

/// An encoding has the length that was asked for.
pub proof fn lemma_le_encode_len(value: nat, len: nat)
    ensures
        le_encode(value, len).len() == len,
    decreases len,
{
    if len > 0 {
        lemma_le_encode_len(value / 256, (len - 1) as nat);
    }
}

/// Encoding a number that fits and reading it back gives the number.
pub proof fn lemma_le_value_of_encode(value: nat, len: nat)
    requires
        value < pow256(len),
    ensures
        le_value(le_encode(value, len)) == value,
    decreases len,
{
    if len > 0 {
        let rest = le_encode(value / 256, (len - 1) as nat);
        lemma_le_value_of_encode(value / 256, (len - 1) as nat);
        assert(le_encode(value, len).drop_first() =~= rest);
    }
}

/// Reading a byte string and encoding the number at the same length gives
/// the byte string back.
pub proof fn lemma_le_encode_of_value(bytes: Seq<u8>)
    ensures
        le_encode(le_value(bytes), bytes.len()) == bytes,
    decreases bytes.len(),
{
    if bytes.len() > 0 {
        lemma_le_encode_of_value(bytes.drop_first());
        let value = le_value(bytes);
        assert(value % 256 == bytes[0]);
        assert(value / 256 == le_value(bytes.drop_first()));
        assert(le_encode(value, bytes.len()) =~= bytes);
    } else {
        assert(le_encode(le_value(bytes), bytes.len()) =~= bytes);
    }
}

/// Zero bytes at the end do not change the number.
pub proof fn lemma_le_value_push_zero(bytes: Seq<u8>)
    ensures
        le_value(bytes.push(0u8)) == le_value(bytes),
    decreases bytes.len(),
{
    if bytes.len() > 0 {
        lemma_le_value_push_zero(bytes.drop_first());
        assert(bytes.push(0u8).drop_first() =~= bytes.drop_first().push(0u8));
    } else {
        assert(bytes.push(0u8).drop_first() =~= bytes);
    }
}

/// A byte string that is zero from index `n` on encodes the same number as
/// its first `n` bytes.
pub proof fn lemma_le_value_zero_padded(bytes: Seq<u8>, n: int)
    requires
        0 <= n <= bytes.len(),
        forall|j: int| n <= j < bytes.len() ==> bytes[j] == 0,
    ensures
        le_value(bytes) == le_value(bytes.subrange(0, n)),
    decreases bytes.len() - n,
{
    if n < bytes.len() {
        let shorter = bytes.drop_last();
        lemma_le_value_zero_padded(shorter, n);
        lemma_le_value_push_zero(shorter);
        assert(shorter.push(0u8) =~= bytes);
        assert(shorter.subrange(0, n) =~= bytes.subrange(0, n));
    } else {
        assert(bytes.subrange(0, n) =~= bytes);
    }
}

} // verus!
