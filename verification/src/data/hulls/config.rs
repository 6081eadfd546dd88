pub mod bulk_freighter;
pub mod container_liner;
pub mod sample;

use vstd::prelude::*;

verus! {

/// One of the three forms each segment of a configurable hull can take.
#[derive(Debug, Clone, Copy, PartialEq, Eq, Structural, PartialOrd, Ord, Hash)]
pub enum Variant {
    V0,
    V1,
    V2,
}

impl Variant {
    pub open spec fn spec_select<T>(self, v0: T, v1: T, v2: T) -> T {
        match self {
            Variant::V0 => v0,
            Variant::V1 => v1,
            Variant::V2 => v2,
        }
    }

    /// The one of `v0`, `v1`, `v2` that this variant picks.
    pub fn select<T: Copy>(self, v0: T, v1: T, v2: T) -> (r: T)
        ensures
            r == self.spec_select(v0, v1, v2),
    {
        match self {
            Variant::V0 => v0,
            Variant::V1 => v1,
            Variant::V2 => v2,
        }
    }

    /// The entry of `array` that this variant picks.
    pub fn select_array<T>(self, array: &[T; 3]) -> (r: &T)
        ensures
            *r == self.spec_select(array@[0], array@[1], array@[2]),
    {
        match self {
            Variant::V0 => &array[0],
            Variant::V1 => &array[1],
            Variant::V2 => &array[2],
        }
    }

    pub open spec fn spec_from_num(num: u32) -> Option<Variant> {
        if num == 0 {
            Some(Variant::V0)
        } else if num == 1 {
            Some(Variant::V1)
        } else if num == 2 {
            Some(Variant::V2)
        } else {
            None
        }
    }

    /// The variant numbered `num` (0, 1 or 2).
    pub fn from_num(num: u32) -> (r: Option<Variant>)
        ensures
            r == Self::spec_from_num(num),
    {
        match num {
            0 => Some(Variant::V0),
            1 => Some(Variant::V1),
            2 => Some(Variant::V2),
            _ => None,
        }
    }
}

/// A configurable hull whose segment variants are chosen.
#[derive(Debug, Clone, Copy, PartialEq, Eq, Structural, PartialOrd, Ord, Hash)]
pub enum HullConfigTemplate {
    BulkFreighter(bulk_freighter::HullConfigBulkFreighter),
    ContainerLiner(container_liner::HullConfigContainerLiner),
}

/// A configurable hull whose segment variants are still open.
#[derive(Debug, Clone, Copy, PartialEq, Eq, Structural, PartialOrd, Ord, Hash)]
pub enum HullConfigTemplateFull {
    BulkFreighter(bulk_freighter::HullConfigBulkFreighterFull),
    ContainerLiner(container_liner::HullConfigContainerLinerFull),
}

impl HullConfigTemplateFull {
    /// The same hull with its segment variants chosen.
    pub fn with_variants(self, variants: [Variant; 3]) -> (r: HullConfigTemplate)
        ensures
            r == match self {
                HullConfigTemplateFull::BulkFreighter(_) => HullConfigTemplate::BulkFreighter(bulk_freighter::HullConfigBulkFreighter),
                HullConfigTemplateFull::ContainerLiner(_) => HullConfigTemplate::ContainerLiner(container_liner::HullConfigContainerLiner),
            },
    {
        match self {
            HullConfigTemplateFull::BulkFreighter(config) => HullConfigTemplate::BulkFreighter(config.with_variants(variants)),
            HullConfigTemplateFull::ContainerLiner(config) => HullConfigTemplate::ContainerLiner(config.with_variants(variants)),
        }
    }
}

} // verus!
