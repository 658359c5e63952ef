//! Small verified helpers over byte strings: appending and exact
//! comparison, used by the commit-reveal verifier.

use vstd::prelude::*;

verus! {

/// Appends every byte of `bytes` to `buf`, in order.
pub fn append_bytes(buf: &mut Vec<u8>, bytes: &[u8])
    requires
        old(buf)@.len() + bytes@.len() <= usize::MAX,
    ensures
        final(buf)@ == old(buf)@ + bytes@,
{
    let ghost orig = buf@;
    let mut i: usize = 0;
    while i < bytes.len()
        invariant
            i <= bytes@.len(),
            orig.len() + bytes@.len() <= usize::MAX,
            buf@ == orig + bytes@.subrange(0, i as int),
        decreases bytes@.len() - i,
    {
        buf.push(bytes[i]);
        i = i + 1;
        proof {
            assert(orig + bytes@.subrange(0, i - 1) + seq![bytes@[i - 1]] =~= orig
                + bytes@.subrange(0, i as int));
        }
    }
    proof {
        assert(orig + bytes@.subrange(0, bytes@.len() as int) =~= orig + bytes@);
    }
}

/// Whether two 32-byte strings are identical.
pub fn bytes32_eq(a: &[u8; 32], b: &[u8; 32]) -> (r: bool)
    ensures
        r == (a@ == b@),
{
    let mut i: usize = 0;
    while i < 32
        invariant
            i <= 32,
            forall|j: int| 0 <= j < i ==> a@[j] == b@[j],
        decreases 32 - i,
    {
        if a[i] != b[i] {
            return false;
        }
        i = i + 1;
    }
    proof {
        assert(a@ =~= b@);
    }
    true
}

/// Whether the window of `data` starting at `off` equals the 32-byte string
/// `key`.
pub fn window_eq32(data: &[u8], off: usize, key: &[u8; 32]) -> (r: bool)
    requires
        off + 32 <= data@.len(),
    ensures
        r == (data@.subrange(off as int, off as int + 32) == key@),
{
    let n: usize = data.len();
    let mut i: usize = 0;
    while i < 32
        invariant
            i <= 32,
            n == data@.len(),
            off + 32 <= n,
            forall|j: int| 0 <= j < i ==> data@[off + j] == key@[j],
        decreases 32 - i,
    {
        if data[off + i] != key[i] {
            proof {
                assert(data@.subrange(off as int, off as int + 32)[i as int] != key@[i as int]);
            }
            return false;
        }
        i = i + 1;
    }
    proof {
        assert(data@.subrange(off as int, off as int + 32) =~= key@);
    }
    true
}

/// Whether the window of `data` starting at `off` equals the 64-byte string
/// `sig`.
pub fn window_eq64(data: &[u8], off: usize, sig: &[u8; 64]) -> (r: bool)
    requires
        off + 64 <= data@.len(),
    ensures
        r == (data@.subrange(off as int, off as int + 64) == sig@),
{
    let n: usize = data.len();
    let mut i: usize = 0;
    while i < 64
        invariant
            i <= 64,
            n == data@.len(),
            off + 64 <= n,
            forall|j: int| 0 <= j < i ==> data@[off + j] == sig@[j],
        decreases 64 - i,
    {
        if data[off + i] != sig[i] {
            proof {
                assert(data@.subrange(off as int, off as int + 64)[i as int] != sig@[i as int]);
            }
            return false;
        }
        i = i + 1;
    }
    proof {
        assert(data@.subrange(off as int, off as int + 64) =~= sig@);
    }
    true
}

/// Whether the optional keys are both present and identical.
pub fn key_option_matches(a: &Option<[u8; 32]>, b: &Option<[u8; 32]>) -> (r: bool)
    ensures
        r == (a matches Some(x) && b matches Some(y) && x@ == y@),
{
    match (a, b) {
        (Some(x), Some(y)) => bytes32_eq(x, y),
        _ => false,
    }
}

} // verus!
