//! 32-byte account addresses as plain values.
//!
//! The host chain identifies every account by a 32-byte address. The engine
//! never interprets an address; it only stores, copies and compares them, so
//! a plain byte array is the whole model.

use vstd::prelude::*;

verus! {

/// A 32-byte account address.
pub type Address = [u8; 32];

/// Byte-for-byte equality of two addresses.
pub fn addr_eq(a: &Address, b: &Address) -> (r: bool)
    ensures
        r <==> a@ == b@,
{
    let mut i: usize = 0;
    while i < 32
        invariant
            i <= 32,
            forall|j: int| 0 <= j < i ==> a@[j] == b@[j],
        decreases 32 - i,
    {
        if a[i] != b[i] {
            assert(a@[i as int] != b@[i as int]);
            return false;
        }
        i = i + 1;
    }
    assert(a@ =~= b@);
    true
}

/// The `N` bytes of `s` starting at `off`, as a fixed-size array.
pub fn read_bytes<const N: usize>(s: &[u8], off: usize) -> (r: [u8; N])
    requires
        off + N <= s@.len(),
    ensures
        r@ == s@.subrange(off as int, off as int + N),
{
    assert(s@.len() <= usize::MAX) by {
        vstd::slice::axiom_spec_len::<u8>(s);
    }
    let mut arr: [u8; N] = vstd::array::array_fill_for_copy_types(0u8);
    let mut i: usize = 0;
    while i < N
        invariant
            off + N <= s@.len(),
            s@.len() <= usize::MAX,
            i <= N,
            arr@.len() == N,
            forall|j: int| 0 <= j < i ==> arr@[j] == s@[off + j],
        decreases N - i,
    {
        arr[i] = s[off + i];
        i = i + 1;
    }
    assert(arr@ =~= s@.subrange(off as int, off as int + N));
    arr
}

/// Append the `N` bytes of `a` to `out`.
pub fn push_bytes<const N: usize>(out: &mut Vec<u8>, a: &[u8; N])
    ensures
        final(out)@ == old(out)@ + a@,
{
    let mut i: usize = 0;
    while i < N
        invariant
            out@.len() == old(out)@.len() + i,
            i <= N,
            out@ == old(out)@ + a@.subrange(0, i as int),
        decreases N - i,
    {
        out.push(a[i]);
        proof {
            assert(out@ =~= old(out)@ + a@.subrange(0, i + 1));
        }
        i = i + 1;
    }
    assert(out@ =~= old(out)@ + a@);
}

} // verus!
