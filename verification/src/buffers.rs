//! Copying between slices, fixed-size arrays and vectors.

use vstd::prelude::*;

verus! {

/// Copies the 32 bytes that start at `offset`.
pub fn take_32(data: &[u8], offset: usize) -> (out: [u8; 32])
    requires
        offset + 32 <= data@.len(),
    ensures
        out@ == data@.subrange(offset as int, offset + 32),
{
    let len = data.len();
    let mut out = [0u8; 32];
    let mut i: usize = 0;
    while i < 32
        invariant
            i <= 32,
            offset + 32 <= data@.len() == len,
            forall|j: int| 0 <= j < i ==> out@[j] == data@[offset + j],
        decreases 32 - i,
    {
        out[i] = data[offset + i];
        i += 1;
    }
    assert(out@ =~= data@.subrange(offset as int, offset + 32));
    out
}

/// Copies a slice into a new vector.
pub fn to_vec(data: &[u8]) -> (out: Vec<u8>)
    ensures
        out@ == data@,
{
    let mut out: Vec<u8> = Vec::new();
    out.extend_from_slice(data);
    assert(out@ =~= data@);
    out
}

/// Joins two byte strings.
pub fn concat(first: &[u8], second: &[u8]) -> (out: Vec<u8>)
    ensures
        out@ == first@ + second@,
{
    let mut out: Vec<u8> = Vec::new();
    out.extend_from_slice(first);
    out.extend_from_slice(second);
    assert(out@ =~= first@ + second@);
    out
}

/// Whether two 32-byte strings are the same.
pub fn equal_32(a: &[u8; 32], b: &[u8; 32]) -> (same: bool)
    ensures
        same == (a@ == b@),
{
    let mut i: usize = 0;
    while i < 32
        invariant
            i <= 32,
            forall|j: int| 0 <= j < i ==> a@[j] == b@[j],
        decreases 32 - i,
    {
        if a[i] != b[i] {
            return false;
        }
        i += 1;
    }
    assert(a@ =~= b@);
    true
}

} // verus!
