//! Device-layer decisions: which of the surface's supported formats the
//! swapchain is configured with.
//!
//! The host hands in one flag per supported format, in the surface's own
//! order, saying whether that format is sRGB; the chosen index is the
//! first sRGB format, or the first format when none is.

use vstd::prelude::*;

verus! {

/// The index of the first set flag, or 0 when none is set.
pub open spec fn spec_srgb_format_index(flags: Seq<bool>) -> int {
    if exists|j: int| 0 <= j < flags.len() && flags[j] {
        choose|j: int| 0 <= j < flags.len() && flags[j] && forall|k: int| 0 <= k < j ==> !flags[k]
    } else {
        0
    }
}

/// Picks the surface format to configure the swapchain with: the first
/// sRGB one, or the first supported format when none is sRGB.
pub fn srgb_format_index(flags: &Vec<bool>) -> (i: usize)
    requires
        flags@.len() > 0,
    ensures
        i < flags@.len(),
        flags@[i as int] || (i == 0 && forall|j: int| 0 <= j < flags@.len() ==> !flags@[j]),
        forall|j: int| 0 <= j < i ==> !flags@[j],
        i == spec_srgb_format_index(flags@),
{
    let n = flags.len();
    for k in 0..n
        invariant
            n == flags@.len(),
            forall|j: int| 0 <= j < k ==> !flags@[j],
    {
        if flags[k] {
            proof {
                assert(flags@[k as int] && forall|j: int| 0 <= j < k ==> !flags@[j]);
                let w = choose|j: int|
                    0 <= j < flags@.len() && flags@[j] && forall|m: int| 0 <= m < j ==> !flags@[m];
                assert(w == k as int);
            }
            return k;
        }
    }
    0
}

} // verus!
