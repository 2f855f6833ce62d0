//! Copying a run of bytes into memory or into the register file.

use vstd::prelude::*;

verus! {

/// The bytes `base` with `patch` written over them from index `at` on.
pub open spec fn overlay(base: Seq<u8>, at: int, patch: Seq<u8>) -> Seq<u8> {
    Seq::new(
        base.len(),
        |a: int|
            if at <= a < at + patch.len() {
                patch[a - at]
            } else {
                base[a]
            },
    )
}

/// Writes `source` over `target` from index `at` on.
pub(crate) fn copy_into(target: &mut [u8], at: usize, source: &[u8])
    requires
        at + source@.len() <= old(target)@.len(),
    ensures
        final(target)@ == overlay(old(target)@, at as int, source@),
{
    let size = target.len();
    let mut i: usize = 0;
    while i < source.len()
        invariant
            i <= source@.len(),
            size == target@.len(),
            at + source@.len() <= target@.len(),
            target@.len() == old(target)@.len(),
            target@ == overlay(old(target)@, at as int, source@.take(i as int)),
        decreases source@.len() - i,
    {
        target[at + i] = source[i];
        i += 1;
    }
}

} // verus!
