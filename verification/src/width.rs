//! Sizes as the host receives them.
//!
//! Every offset and length crosses the host interface as a 32-bit quantity,
//! whatever the width of a native size.

use vstd::prelude::*;

verus! {

/// The 32-bit quantity the host receives for a native size: its low 32 bits.
pub open spec fn host_size(n: usize) -> u32 {
    (n as int % 0x1_0000_0000) as u32
}

/// A size that fits in 32 bits reaches the host unchanged, and no size
/// reaches it larger than it was.
pub proof fn lemma_host_size_bounds(n: usize)
    ensures
        host_size(n) <= n,
        n <= u32::MAX ==> host_size(n) == n,
{
}

/// Narrows a native size to the 32-bit quantity handed to the host.
pub fn to_host_size(n: usize) -> (size: u32)
    ensures
        size == host_size(n),
        size <= n,
        n <= u32::MAX ==> size == n,
{
    let size: u32 = #[verifier::truncate] (n as u32);
    assert(n as u32 == (n as int % 0x1_0000_0000) as u32) by (bit_vector);
    size
}

} // verus!
