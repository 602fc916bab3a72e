use vstd::prelude::*;

verus! {

/// A vector that holds the bytes of `src`.
pub fn copy_of(src: &[u8]) -> (copy: Vec<u8>)
    ensures
        copy@ == src@,
{
    let mut copy: Vec<u8> = Vec::with_capacity(src.len());
    let mut i: usize = 0;
    while i < src.len()
        invariant
            i <= src@.len(),
            copy@ == src@.subrange(0, i as int),
        decreases src@.len() - i,
    {
        copy.push(src[i]);
        assert(copy@ == src@.subrange(0, i + 1));
        i += 1;
    }
    assert(src@ == src@.subrange(0, i as int));
    copy
}

/// Overwrites every byte of `dst` with the byte of `src` at the same place.
pub fn copy_into(dst: &mut [u8], src: &[u8])
    requires
        old(dst)@.len() == src@.len(),
    ensures
        final(dst)@ == src@,
{
    let n = src.len();
    let mut i: usize = 0;
    while i < n
        invariant
            n == src@.len(),
            dst@.len() == n,
            i <= n,
            dst@.subrange(0, i as int) == src@.subrange(0, i as int),
        decreases n - i,
    {
        dst[i] = src[i];
        assert(dst@.subrange(0, i + 1) == src@.subrange(0, i + 1));
        i += 1;
    }
    assert(dst@ == dst@.subrange(0, n as int));
    assert(src@ == src@.subrange(0, n as int));
}

/// Whether two byte strings hold the same bytes.
pub fn bytes_equal(a: &[u8], b: &[u8]) -> (same: bool)
    ensures
        same == (a@ == b@),
{
    if a.len() != b.len() {
        return false;
    }
    let mut i: usize = 0;
    while i < a.len()
        invariant
            a@.len() == b@.len(),
            i <= a@.len(),
            a@.subrange(0, i as int) == b@.subrange(0, i as int),
        decreases a@.len() - i,
    {
        if a[i] != b[i] {
            return false;
        }
        assert(a@.subrange(0, i + 1) == a@.subrange(0, i as int).push(a@[i as int]));
        assert(b@.subrange(0, i + 1) == b@.subrange(0, i as int).push(b@[i as int]));
        i += 1;
    }
    assert(a@ == a@.subrange(0, i as int));
    assert(b@ == b@.subrange(0, i as int));
    true
}

} // verus!
