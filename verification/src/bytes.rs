//! Byte-string helpers shared by the protocol modules.

use vstd::prelude::*;
use zeroize::Zeroize;

verus! {

/// Overwrites a buffer that held key material with zeros.
///
/// Calls `zeroize::Zeroize::zeroize` on the slice; trusted to leave the length as it is, to set
/// every byte to zero, and not to panic: it asserts only that the length fits in an `isize`, as that
/// of every slice does.
#[verifier::external_body]
pub(crate) fn wipe(buf: &mut [u8])
    ensures
        final(buf)@ == Seq::new(old(buf)@.len(), |i: int| 0u8),
    opens_invariants none
    no_unwind
{
    buf.zeroize();
}

/// Whether two byte strings are equal, in length and content.
pub(crate) fn same_bytes(a: &[u8], b: &[u8]) -> (same: bool)
    ensures
        same == (a@ == b@),
{
    if a.len() != b.len() {
        return false;
    }
    let mut i: usize = 0;
    while i < a.len()
        invariant
            i <= a@.len(),
            a@.len() == b@.len(),
            forall|j: int| 0 <= j < i ==> a@[j] == b@[j],
        decreases a@.len() - i,
    {
        if a[i] != b[i] {
            assert(a@ != b@);
            return false;
        }
        i = i + 1;
    }
    assert(a@ =~= b@);
    true
}

/// Copies the `N` bytes of `data` that start at `from`.
pub(crate) fn array_at<const N: usize>(data: &[u8], from: usize) -> (out: [u8; N])
    requires
        from + N <= data@.len(),
    ensures
        out@ == data@.subrange(from as int, from + N),
{
    let mut out: [u8; N] = [0u8; N];
    let len: usize = data.len();
    let mut i: usize = 0;
    while i < N
        invariant
            i <= N,
            from + N <= len,
            len == data@.len(),
            forall|j: int| 0 <= j < i ==> out@[j] == data@[from + j],
        decreases N - i,
    {
        out[i] = data[from + i];
        i = i + 1;
    }
    assert(out@ =~= data@.subrange(from as int, from + N));
    out
}

/// Copies a byte string.
pub(crate) fn copied(data: &[u8]) -> (out: Vec<u8>)
    ensures
        out@ == data@,
{
    vstd::slice::slice_to_vec(data)
}

/// Copies the bytes of `data` from `from` to its end.
pub(crate) fn tail(data: &[u8], from: usize) -> (out: Vec<u8>)
    requires
        from <= data@.len(),
    ensures
        out@ == data@.subrange(from as int, data@.len() as int),
{
    vstd::slice::slice_to_vec(vstd::slice::slice_subrange(data, from, data.len()))
}

/// Joins two byte strings.
pub(crate) fn joined(first: &[u8], second: &[u8]) -> (out: Vec<u8>)
    ensures
        out@ == first@ + second@,
{
    let mut out: Vec<u8> = vstd::slice::slice_to_vec(first);
    out.extend_from_slice(second);
    assert(out@ =~= first@ + second@);
    out
}

} // verus!
