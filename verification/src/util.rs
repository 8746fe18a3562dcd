//! Small byte-buffer helpers shared across the crate.

use vstd::prelude::*;

verus! {

/// Copies a byte buffer, preserving its contents exactly.
pub(crate) fn clone_bytes(v: &Vec<u8>) -> (r: Vec<u8>)
    ensures
        r@ == v@,
{
    let r = v.clone();
    assert(r@ =~= v@);
    r
}

} // verus!
