//! Comparison of byte strings.

use vstd::prelude::*;

verus! {

/// The first `len` items of `a` and of `b` are the same.
pub open spec fn same_prefix(a: Seq<u8>, b: Seq<u8>, len: usize) -> bool {
    a.take(len as int) == b.take(len as int)
}

proof fn lemma_prefix_differs(a: Seq<u8>, b: Seq<u8>, len: usize, i: usize)
    requires
        i < len,
        len <= a.len(),
        len <= b.len(),
        a[i as int] != b[i as int],
    ensures
        !same_prefix(a, b, len),
{
    assert(a.take(len as int)[i as int] != b.take(len as int)[i as int]);
}

proof fn lemma_prefix_same(a: Seq<u8>, b: Seq<u8>, len: usize)
    requires
        len <= a.len(),
        len <= b.len(),
        forall|j: int| 0 <= j < len ==> a[j] == b[j],
    ensures
        same_prefix(a, b, len),
{
    assert(a.take(len as int) =~= b.take(len as int));
}

/// Whether the first `len` bytes of `src` and of `dst` are the same.
pub fn c_memcmp(src: &[u8], dst: &[u8], len: usize) -> (r: bool)
    requires
        len <= src@.len(),
        len <= dst@.len(),
    ensures
        r == same_prefix(src@, dst@, len),
{
    let mut i: usize = 0;
    while i < len
        invariant
            i <= len,
            len <= src@.len(),
            len <= dst@.len(),
            forall|j: int| 0 <= j < i ==> src@[j] == dst@[j],
        decreases len - i,
    {
        if src[i] != dst[i] {
            proof {
                lemma_prefix_differs(src@, dst@, len, i);
            }
            return false;
        }
        i += 1;
    }
    proof {
        lemma_prefix_same(src@, dst@, len);
    }
    true
}

} // verus!
