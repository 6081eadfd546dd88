use vstd::prelude::*;
use crate::data::hulls::config::Variant;

verus! {

/// The configurable container liner hull, its segment variants chosen.
#[derive(Debug, Clone, Copy, PartialEq, Eq, Structural, PartialOrd, Ord, Hash)]
pub struct HullConfigContainerLiner;

/// The configurable container liner hull, its segment variants still open.
#[derive(Debug, Clone, Copy, PartialEq, Eq, Structural, PartialOrd, Ord, Hash)]
pub struct HullConfigContainerLinerFull;

impl HullConfigContainerLinerFull {
    /// The hull with its segment variants chosen.
    pub fn with_variants(self, variants: [Variant; 3]) -> (r: HullConfigContainerLiner)
        ensures
            r == HullConfigContainerLiner,
    {
        HullConfigContainerLiner
    }
}

pub open spec fn spec_dressing_counts(variants: Seq<Variant>) -> Seq<usize> {
    seq![1usize, (variants[1].spec_select(0usize, 1usize, 0usize) + 3) as usize, 1usize]
}

/// The number of dressings on each segment: 1 on the front and on the rear,
/// and 3 on the middle, or 4 with its variant 1.
pub fn get_dressing_counts(variants: [Variant; 3]) -> (r: [usize; 3])
    ensures
        r@ == spec_dressing_counts(variants@),
{
    let r = [1usize, variants[1].select(0usize, 1usize, 0usize) + 3, 1usize];
    assert(r@ == spec_dressing_counts(variants@));
    r
}

/// Which segments (front, middle, rear) can carry the bridge: the middle and
/// rear always; the front unless it is of variant 1.
pub fn can_mount_bridges(variants: [Variant; 3]) -> (r: [bool; 3])
    ensures
        r@ == seq![variants@[0] != Variant::V1, true, true],
{
    let front = variants[0] != Variant::V1;
    let r = [front, true, true];
    assert(r@ == seq![variants@[0] != Variant::V1, true, true]);
    r
}

} // verus!
