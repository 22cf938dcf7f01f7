//! Copying a string into a C character array.

use vstd::prelude::*;
use vstd::string::StringSliceAdditionalSpecFns;

verus! {

/// Copies the bytes of `src` to the start of `dst`, each taken as a signed
/// character, and puts a NUL behind them.  The rest of `dst` stays.  Returns
/// 0.
pub fn c_strcpy(dst: &mut [i8], src: &str) -> (ret: i32)
    requires
        src.spec_bytes().len() < old(dst)@.len(),
    ensures
        ret == 0,
        final(dst)@.len() == old(dst)@.len(),
        forall|i: int|
            0 <= i < src.spec_bytes().len() ==> final(dst)@[i] == src.spec_bytes()[i] as i8,
        final(dst)@[src.spec_bytes().len() as int] == 0,
        forall|i: int|
            src.spec_bytes().len() < i < old(dst)@.len() ==> final(dst)@[i] == old(dst)@[i],
{
    let mut i: usize = 0;
    let src_bytes = src.as_bytes();
    let n: usize = src_bytes.len();

    while i < n
        invariant
            i <= n,
            n == src_bytes@.len(),
            src_bytes@ == src.spec_bytes(),
            n < dst@.len(),
            dst@.len() == old(dst)@.len(),
            forall|j: int| 0 <= j < i ==> dst@[j] == src_bytes@[j] as i8,
            forall|j: int| i <= j < dst@.len() ==> dst@[j] == old(dst)@[j],
        decreases n - i,
    {
        dst[i] = #[verifier::truncate]
        (src_bytes[i] as i8);
        i = i + 1
    }
    dst[i] = 0;

    return 0;
}

} // verus!
