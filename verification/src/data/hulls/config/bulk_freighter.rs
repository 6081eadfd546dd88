use vstd::prelude::*;
use crate::data::hulls::config::Variant;

verus! {

/// The configurable bulk freighter hull, its segment variants chosen.
#[derive(Debug, Clone, Copy, PartialEq, Eq, Structural, PartialOrd, Ord, Hash)]
pub struct HullConfigBulkFreighter;

/// The configurable bulk freighter hull, its segment variants still open.
#[derive(Debug, Clone, Copy, PartialEq, Eq, Structural, PartialOrd, Ord, Hash)]
pub struct HullConfigBulkFreighterFull;

impl HullConfigBulkFreighterFull {
    /// The hull with its segment variants chosen.
    pub fn with_variants(self, variants: [Variant; 3]) -> (r: HullConfigBulkFreighter)
        ensures
            r == HullConfigBulkFreighter,
    {
        HullConfigBulkFreighter
    }
}

pub open spec fn spec_dressing_counts(variants: Seq<Variant>) -> Seq<usize> {
    seq![
        variants[0].spec_select(3usize, 3usize, 2usize),
        (variants[0].spec_select(1usize, 1usize, 0usize) + variants[1].spec_select(1usize, 2usize, 0usize) + 5) as usize,
        0usize,
    ]
}

/// The number of dressings on each segment: the front has 3, or 2 with its
/// last variant; the middle has 5 plus 1 for a front of variant 0 or 1, plus
/// 1 or 2 for a middle of variant 0 or 1; the rear has none.
pub fn get_dressing_counts(variants: [Variant; 3]) -> (r: [usize; 3])
    ensures
        r@ == spec_dressing_counts(variants@),
{
    let front = variants[0].select(3usize, 3usize, 2usize);
    let middle = variants[0].select(1usize, 1usize, 0usize) + variants[1].select(1usize, 2usize, 0usize) + 5;
    let r = [front, middle, 0usize];
    assert(r@ == spec_dressing_counts(variants@));
    r
}

/// Which segments (front, middle, rear) can carry the bridge: the middle
/// always; the front and rear unless they are of variant 1.
pub fn can_mount_bridges(variants: [Variant; 3]) -> (r: [bool; 3])
    ensures
        r@ == seq![variants@[0] != Variant::V1, true, variants@[2] != Variant::V1],
{
    let front = variants[0] != Variant::V1;
    let rear = variants[2] != Variant::V1;
    let r = [front, true, rear];
    assert(r@ == seq![variants@[0] != Variant::V1, true, variants@[2] != Variant::V1]);
    r
}

} // verus!
