//! Choice of the surface texture format.

use vstd::prelude::*;

verus! {

/// Pick the surface format the demo renders to.  Each entry of `srgb_flags`
/// says whether the corresponding format offered by the surface is sRGB; the
/// first sRGB format wins, and if none is offered the first format is taken.
pub fn preferred_format_index(srgb_flags: &Vec<bool>) -> (i: usize)
    requires
        srgb_flags@.len() > 0,
    ensures
        i < srgb_flags@.len(),
        (exists|j: int| 0 <= j < srgb_flags@.len() && srgb_flags@[j]) ==> {
            &&& srgb_flags@[i as int]
            &&& forall|j: int| 0 <= j < i ==> !srgb_flags@[j]
        },
        (forall|j: int| 0 <= j < srgb_flags@.len() ==> !srgb_flags@[j]) ==> i == 0,
{
    let mut k: usize = 0;
    while k < srgb_flags.len()
        invariant
            k <= srgb_flags@.len(),
            forall|j: int| 0 <= j < k ==> !srgb_flags@[j],
        decreases srgb_flags@.len() - k,
    {
        if srgb_flags[k] {
            return k;
        }
        k += 1;
    }
    0
}

} // verus!
