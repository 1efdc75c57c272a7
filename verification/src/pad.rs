use vstd::prelude::*;

verus! {

/// A button category is held when the pad flags share a bit with its mask.
pub open spec fn spec_compare_cat(cat: i32, mask: i32) -> bool {
    (cat & mask) != 0
}

/// Tests whether the pad-flag word `cat` has any bit of `mask` set.
pub fn compare_cat(cat: i32, mask: i32) -> (held: bool)
    ensures
        held == spec_compare_cat(cat, mask),
{
    (cat & mask) != 0
}

} // verus!
