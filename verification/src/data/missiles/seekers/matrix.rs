use vstd::prelude::*;
use crate::data::Faction;
use crate::data::missiles::seekers::{Countermeasure, CountermeasureCategory};

verus! {

/// One value for each countermeasure.
#[derive(Debug, Clone, Copy, PartialEq, Eq, Structural, Hash)]
pub struct CountermeasureMatrix<T> {
    /// Radar jamming, such as from the 'Blanket' jammer.
    pub radar_jamming: T,
    /// Comms jamming, such as from the 'Hangup' jammer.
    pub comms_jamming: T,
    /// Electro-optical seeker jamming, such as from the 'Blackjack' laser dazzler.
    pub laser_dazzler: T,
    /// Chaff decoys.
    pub chaff_decoy: T,
    /// Flare decoys.
    pub flare_decoy: T,
    /// Active decoys, only available to the Alliance.
    pub active_decoy: T,
    /// The ship has cut its thrusters (or has been immobilized).
    pub cut_engines: T,
    /// The ship has cut all radar emissions.
    pub cut_radar: T,
}

/// The set of countermeasures currently employed.
pub type CountermeasuresMask = CountermeasureMatrix<bool>;

impl Countermeasure {
    /// The position of this countermeasure in declaration order, which is also
    /// its bit in the numeric form of a mask.
    pub open spec fn spec_bit(self) -> nat {
        match self {
            Countermeasure::RadarJamming => 0,
            Countermeasure::CommsJamming => 1,
            Countermeasure::LaserDazzler => 2,
            Countermeasure::ChaffDecoy => 3,
            Countermeasure::FlareDecoy => 4,
            Countermeasure::ActiveDecoy => 5,
            Countermeasure::CutEngines => 6,
            Countermeasure::CutRadar => 7,
        }
    }

    pub open spec fn spec_category(self) -> CountermeasureCategory {
        match self {
            Countermeasure::RadarJamming | Countermeasure::CommsJamming | Countermeasure::LaserDazzler => CountermeasureCategory::Jamming,
            Countermeasure::ChaffDecoy | Countermeasure::FlareDecoy | Countermeasure::ActiveDecoy => CountermeasureCategory::Decoy,
            Countermeasure::CutEngines | Countermeasure::CutRadar => CountermeasureCategory::Concealment,
        }
    }

    /// The way this countermeasure defeats a seeker.
    pub fn category(self) -> (r: CountermeasureCategory)
        ensures
            r == self.spec_category(),
    {
        match self {
            Countermeasure::RadarJamming | Countermeasure::CommsJamming | Countermeasure::LaserDazzler => CountermeasureCategory::Jamming,
            Countermeasure::ChaffDecoy | Countermeasure::FlareDecoy | Countermeasure::ActiveDecoy => CountermeasureCategory::Decoy,
            Countermeasure::CutEngines | Countermeasure::CutRadar => CountermeasureCategory::Concealment,
        }
    }
}

impl CountermeasureCategory {
    /// The countermeasures of this category.
    pub fn mask(self) -> (r: CountermeasuresMask)
        ensures
            r == CountermeasuresMask::spec_from_fn(|cm: Countermeasure| cm.spec_category() == self),
    {
        match self {
            CountermeasureCategory::Decoy => CountermeasuresMask::only_decoy(),
            CountermeasureCategory::Jamming => CountermeasuresMask::only_jamming(),
            CountermeasureCategory::Concealment => CountermeasuresMask::only_concealment(),
        }
    }
}

impl<T> CountermeasureMatrix<T> {
    /// The value held for `cm`.
    pub open spec fn spec_get(self, cm: Countermeasure) -> T {
        match cm {
            Countermeasure::RadarJamming => self.radar_jamming,
            Countermeasure::CommsJamming => self.comms_jamming,
            Countermeasure::LaserDazzler => self.laser_dazzler,
            Countermeasure::ChaffDecoy => self.chaff_decoy,
            Countermeasure::FlareDecoy => self.flare_decoy,
            Countermeasure::ActiveDecoy => self.active_decoy,
            Countermeasure::CutEngines => self.cut_engines,
            Countermeasure::CutRadar => self.cut_radar,
        }
    }

    /// The matrix that holds `f(cm)` for each countermeasure `cm`.
    pub open spec fn spec_from_fn(f: spec_fn(Countermeasure) -> T) -> Self {
        CountermeasureMatrix {
            radar_jamming: f(Countermeasure::RadarJamming),
            comms_jamming: f(Countermeasure::CommsJamming),
            laser_dazzler: f(Countermeasure::LaserDazzler),
            chaff_decoy: f(Countermeasure::ChaffDecoy),
            flare_decoy: f(Countermeasure::FlareDecoy),
            active_decoy: f(Countermeasure::ActiveDecoy),
            cut_engines: f(Countermeasure::CutEngines),
            cut_radar: f(Countermeasure::CutRadar),
        }
    }

    /// The value held for `cm`.
    pub fn get(&self, cm: Countermeasure) -> (r: &T)
        ensures
            *r == self.spec_get(cm),
    {
        match cm {
            Countermeasure::RadarJamming => &self.radar_jamming,
            Countermeasure::CommsJamming => &self.comms_jamming,
            Countermeasure::LaserDazzler => &self.laser_dazzler,
            Countermeasure::ChaffDecoy => &self.chaff_decoy,
            Countermeasure::FlareDecoy => &self.flare_decoy,
            Countermeasure::ActiveDecoy => &self.active_decoy,
            Countermeasure::CutEngines => &self.cut_engines,
            Countermeasure::CutRadar => &self.cut_radar,
        }
    }

    /// Applies `f` to each value, in declaration order of the countermeasures.
    pub fn map<U, F: Fn(T) -> U>(self, f: F) -> (r: CountermeasureMatrix<U>)
        requires
            forall|x: T| #[trigger] f.requires((x,)),
        ensures
            forall|cm: Countermeasure| #[trigger] f.ensures((self.spec_get(cm),), r.spec_get(cm)),
    {
        let ghost s = self;
        let r = CountermeasureMatrix {
            radar_jamming: f(self.radar_jamming),
            comms_jamming: f(self.comms_jamming),
            laser_dazzler: f(self.laser_dazzler),
            chaff_decoy: f(self.chaff_decoy),
            flare_decoy: f(self.flare_decoy),
            active_decoy: f(self.active_decoy),
            cut_engines: f(self.cut_engines),
            cut_radar: f(self.cut_radar),
        };
        proof {
            assert forall|cm: Countermeasure| #[trigger] f.ensures((s.spec_get(cm),), r.spec_get(cm)) by {
                match cm {
                    Countermeasure::RadarJamming => {},
                    Countermeasure::CommsJamming => {},
                    Countermeasure::LaserDazzler => {},
                    Countermeasure::ChaffDecoy => {},
                    Countermeasure::FlareDecoy => {},
                    Countermeasure::ActiveDecoy => {},
                    Countermeasure::CutEngines => {},
                    Countermeasure::CutRadar => {},
                }
            }
        }
        r
    }

    /// Applies `f` to each countermeasure and its value, in declaration order.
    pub fn map_with_tag<U, F: Fn(Countermeasure, T) -> U>(self, f: F) -> (r: CountermeasureMatrix<U>)
        requires
            forall|cm: Countermeasure, x: T| #[trigger] f.requires((cm, x)),
        ensures
            forall|cm: Countermeasure| #[trigger] f.ensures((cm, self.spec_get(cm)), r.spec_get(cm)),
    {
        let ghost s = self;
        let r = CountermeasureMatrix {
            radar_jamming: f(Countermeasure::RadarJamming, self.radar_jamming),
            comms_jamming: f(Countermeasure::CommsJamming, self.comms_jamming),
            laser_dazzler: f(Countermeasure::LaserDazzler, self.laser_dazzler),
            chaff_decoy: f(Countermeasure::ChaffDecoy, self.chaff_decoy),
            flare_decoy: f(Countermeasure::FlareDecoy, self.flare_decoy),
            active_decoy: f(Countermeasure::ActiveDecoy, self.active_decoy),
            cut_engines: f(Countermeasure::CutEngines, self.cut_engines),
            cut_radar: f(Countermeasure::CutRadar, self.cut_radar),
        };
        proof {
            assert forall|cm: Countermeasure| #[trigger] f.ensures((cm, s.spec_get(cm)), r.spec_get(cm)) by {
                match cm {
                    Countermeasure::RadarJamming => {},
                    Countermeasure::CommsJamming => {},
                    Countermeasure::LaserDazzler => {},
                    Countermeasure::ChaffDecoy => {},
                    Countermeasure::FlareDecoy => {},
                    Countermeasure::ActiveDecoy => {},
                    Countermeasure::CutEngines => {},
                    Countermeasure::CutRadar => {},
                }
            }
        }
        r
    }

    /// Combines this matrix with `other` value by value, in declaration order.
    pub fn zip<U, V, F: Fn(T, U) -> V>(self, other: CountermeasureMatrix<U>, f: F) -> (r: CountermeasureMatrix<V>)
        requires
            forall|x: T, y: U| #[trigger] f.requires((x, y)),
        ensures
            forall|cm: Countermeasure| #[trigger] f.ensures((self.spec_get(cm), other.spec_get(cm)), r.spec_get(cm)),
    {
        let ghost s = self;
        let ghost o = other;
        let r = CountermeasureMatrix {
            radar_jamming: f(self.radar_jamming, other.radar_jamming),
            comms_jamming: f(self.comms_jamming, other.comms_jamming),
            laser_dazzler: f(self.laser_dazzler, other.laser_dazzler),
            chaff_decoy: f(self.chaff_decoy, other.chaff_decoy),
            flare_decoy: f(self.flare_decoy, other.flare_decoy),
            active_decoy: f(self.active_decoy, other.active_decoy),
            cut_engines: f(self.cut_engines, other.cut_engines),
            cut_radar: f(self.cut_radar, other.cut_radar),
        };
        proof {
            assert forall|cm: Countermeasure| #[trigger] f.ensures((s.spec_get(cm), o.spec_get(cm)), r.spec_get(cm)) by {
                match cm {
                    Countermeasure::RadarJamming => {},
                    Countermeasure::CommsJamming => {},
                    Countermeasure::LaserDazzler => {},
                    Countermeasure::ChaffDecoy => {},
                    Countermeasure::FlareDecoy => {},
                    Countermeasure::ActiveDecoy => {},
                    Countermeasure::CutEngines => {},
                    Countermeasure::CutRadar => {},
                }
            }
        }
        r
    }
}

/// Two matrices that hold the same value for every countermeasure are equal.
pub proof fn lemma_matrix_ext<T>(a: CountermeasureMatrix<T>, b: CountermeasureMatrix<T>)
    requires
        forall|cm: Countermeasure| #[trigger] a.spec_get(cm) == b.spec_get(cm),
    ensures
        a == b,
{
    assert(a.spec_get(Countermeasure::RadarJamming) == b.spec_get(Countermeasure::RadarJamming));
    assert(a.spec_get(Countermeasure::CommsJamming) == b.spec_get(Countermeasure::CommsJamming));
    assert(a.spec_get(Countermeasure::LaserDazzler) == b.spec_get(Countermeasure::LaserDazzler));
    assert(a.spec_get(Countermeasure::ChaffDecoy) == b.spec_get(Countermeasure::ChaffDecoy));
    assert(a.spec_get(Countermeasure::FlareDecoy) == b.spec_get(Countermeasure::FlareDecoy));
    assert(a.spec_get(Countermeasure::ActiveDecoy) == b.spec_get(Countermeasure::ActiveDecoy));
    assert(a.spec_get(Countermeasure::CutEngines) == b.spec_get(Countermeasure::CutEngines));
    assert(a.spec_get(Countermeasure::CutRadar) == b.spec_get(Countermeasure::CutRadar));
}

} // verus!

verus! {

/// The number formed by setting bit `i` for each `true` among `bits[i]`.
pub open spec fn bits_to_num(a: bool, b: bool, c: bool, d: bool, e: bool, f: bool, g: bool, h: bool) -> u32 {
    (if a { 1u32 } else { 0u32 }) | (if b { 2u32 } else { 0u32 }) | (if c { 4u32 } else { 0u32 })
        | (if d { 8u32 } else { 0u32 }) | (if e { 16u32 } else { 0u32 }) | (if f { 32u32 } else { 0u32 })
        | (if g { 64u32 } else { 0u32 }) | (if h { 128u32 } else { 0u32 })
}

proof fn lemma_bits_to_num_bits(a: bool, b: bool, c: bool, d: bool, e: bool, f: bool, g: bool, h: bool)
    by (bit_vector)
    ensures
        (bits_to_num(a, b, c, d, e, f, g, h) & 1u32 != 0u32) == a,
        (bits_to_num(a, b, c, d, e, f, g, h) & 2u32 != 0u32) == b,
        (bits_to_num(a, b, c, d, e, f, g, h) & 4u32 != 0u32) == c,
        (bits_to_num(a, b, c, d, e, f, g, h) & 8u32 != 0u32) == d,
        (bits_to_num(a, b, c, d, e, f, g, h) & 16u32 != 0u32) == e,
        (bits_to_num(a, b, c, d, e, f, g, h) & 32u32 != 0u32) == f,
        (bits_to_num(a, b, c, d, e, f, g, h) & 64u32 != 0u32) == g,
        (bits_to_num(a, b, c, d, e, f, g, h) & 128u32 != 0u32) == h,
        bits_to_num(a, b, c, d, e, f, g, h) < 256,
        (bits_to_num(a, b, c, d, e, f, g, h) == 0u32) == (!a && !b && !c && !d && !e && !f && !g && !h),
{
}

proof fn lemma_num_to_bits(n: u32)
    by (bit_vector)
    requires
        n < 256,
    ensures
        bits_to_num(n & 1u32 != 0u32, n & 2u32 != 0u32, n & 4u32 != 0u32, n & 8u32 != 0u32,
            n & 16u32 != 0u32, n & 32u32 != 0u32, n & 64u32 != 0u32, n & 128u32 != 0u32) == n,
{
}

impl CountermeasureMatrix<bool> {
    /// Whether `cm` is in the mask.
    pub open spec fn has(self, cm: Countermeasure) -> bool {
        self.spec_get(cm)
    }

    /// The countermeasures available to `faction`: the Alliance has all but the
    /// laser dazzler, the Protectorate all but the active decoy.
    pub open spec fn spec_from_faction(faction: Faction) -> Self {
        match faction {
            Faction::Alliance => Self::spec_from_fn(|cm: Countermeasure| cm != Countermeasure::LaserDazzler),
            Faction::Protectorate => Self::spec_from_fn(|cm: Countermeasure| cm != Countermeasure::ActiveDecoy),
        }
    }

    /// Whether some countermeasure is in the mask.
    pub open spec fn spec_any(self) -> bool {
        exists|cm: Countermeasure| #[trigger] self.has(cm)
    }

    /// Whether every countermeasure is in the mask.
    pub open spec fn spec_all(self) -> bool {
        forall|cm: Countermeasure| #[trigger] self.has(cm)
    }

    /// Whether no countermeasure is in the mask.
    pub open spec fn spec_none(self) -> bool {
        forall|cm: Countermeasure| !#[trigger] self.has(cm)
    }

    /// The countermeasures in both masks.
    pub open spec fn spec_and(self, other: Self) -> Self {
        Self::spec_from_fn(|cm: Countermeasure| self.has(cm) && other.has(cm))
    }

    /// The countermeasures not in the mask.
    pub open spec fn spec_not(self) -> Self {
        Self::spec_from_fn(|cm: Countermeasure| !self.has(cm))
    }

    /// Whether every countermeasure of `self` is in `other`.
    pub open spec fn is_subset_of(self, other: Self) -> bool {
        forall|cm: Countermeasure| #[trigger] self.has(cm) ==> other.has(cm)
    }

    /// The number of countermeasures in the mask.
    pub open spec fn spec_count_trues(self) -> nat {
        (if self.radar_jamming { 1nat } else { 0nat }) + (if self.comms_jamming { 1nat } else { 0nat }) + (if self.laser_dazzler { 1nat } else { 0nat }) + (if self.chaff_decoy { 1nat } else { 0nat }) + (if self.flare_decoy { 1nat } else { 0nat }) + (if self.active_decoy { 1nat } else { 0nat }) + (if self.cut_engines { 1nat } else { 0nat }) + (if self.cut_radar { 1nat } else { 0nat })
    }

    /// The number of countermeasures not in the mask.
    pub open spec fn spec_count_falses(self) -> nat {
        (if self.radar_jamming { 0nat } else { 1nat }) + (if self.comms_jamming { 0nat } else { 1nat }) + (if self.laser_dazzler { 0nat } else { 1nat }) + (if self.chaff_decoy { 0nat } else { 1nat }) + (if self.flare_decoy { 0nat } else { 1nat }) + (if self.active_decoy { 0nat } else { 1nat }) + (if self.cut_engines { 0nat } else { 1nat }) + (if self.cut_radar { 0nat } else { 1nat })
    }

    /// The mask whose countermeasure at position `i` (in declaration order) is
    /// present exactly when bit `i` of `num` is set.
    pub open spec fn spec_from_num(num: u32) -> Self {
        CountermeasureMatrix {
            radar_jamming: num & 1u32 != 0u32,
            comms_jamming: num & 2u32 != 0u32,
            laser_dazzler: num & 4u32 != 0u32,
            chaff_decoy: num & 8u32 != 0u32,
            flare_decoy: num & 16u32 != 0u32,
            active_decoy: num & 32u32 != 0u32,
            cut_engines: num & 64u32 != 0u32,
            cut_radar: num & 128u32 != 0u32,
        }
    }

    /// The number with bit `i` set exactly when the countermeasure at position
    /// `i` (in declaration order) is in the mask.
    pub open spec fn spec_to_num(self) -> u32 {
        bits_to_num(self.radar_jamming, self.comms_jamming, self.laser_dazzler, self.chaff_decoy, self.flare_decoy, self.active_decoy, self.cut_engines, self.cut_radar)
    }

    /// The countermeasures of the mask among the first `k` in declaration order.
    pub open spec fn spec_filtered_prefix(self, k: nat) -> Seq<Countermeasure>
        decreases k,
    {
        if k == 0 {
            Seq::empty()
        } else {
            let cm = Countermeasure::spec_values()[k - 1];
            self.spec_filtered_prefix((k - 1) as nat) + (if self.has(cm) { seq![cm] } else { Seq::empty() })
        }
    }

    /// The countermeasures in the mask, in declaration order.
    pub open spec fn spec_filtered(self) -> Seq<Countermeasure> {
        self.spec_filtered_prefix(8)
    }

    /// Every countermeasure.
    pub fn mask_all() -> (r: Self)
        ensures
            r == Self::spec_from_fn(|cm: Countermeasure| true),
    {
        CountermeasureMatrix {
            radar_jamming: true,
            comms_jamming: true,
            laser_dazzler: true,
            chaff_decoy: true,
            flare_decoy: true,
            active_decoy: true,
            cut_engines: true,
            cut_radar: true,
        }
    }

    /// No countermeasure.
    pub fn mask_none() -> (r: Self)
        ensures
            r == Self::spec_from_fn(|cm: Countermeasure| false),
    {
        CountermeasureMatrix {
            radar_jamming: false,
            comms_jamming: false,
            laser_dazzler: false,
            chaff_decoy: false,
            flare_decoy: false,
            active_decoy: false,
            cut_engines: false,
            cut_radar: false,
        }
    }

    /// The decoys: chaff, flares and active decoys.
    pub fn only_decoy() -> (r: Self)
        ensures
            r == Self::spec_from_fn(|cm: Countermeasure| cm.spec_category() == CountermeasureCategory::Decoy),
    {
        CountermeasureMatrix {
            radar_jamming: false,
            comms_jamming: false,
            laser_dazzler: false,
            chaff_decoy: true,
            flare_decoy: true,
            active_decoy: true,
            cut_engines: false,
            cut_radar: false,
        }
    }

    /// The jammers: radar and comms jamming and the laser dazzler.
    pub fn only_jamming() -> (r: Self)
        ensures
            r == Self::spec_from_fn(|cm: Countermeasure| cm.spec_category() == CountermeasureCategory::Jamming),
    {
        CountermeasureMatrix {
            radar_jamming: true,
            comms_jamming: true,
            laser_dazzler: true,
            chaff_decoy: false,
            flare_decoy: false,
            active_decoy: false,
            cut_engines: false,
            cut_radar: false,
        }
    }

    /// Concealment: cutting engines or radar.
    pub fn only_concealment() -> (r: Self)
        ensures
            r == Self::spec_from_fn(|cm: Countermeasure| cm.spec_category() == CountermeasureCategory::Concealment),
    {
        CountermeasureMatrix {
            radar_jamming: false,
            comms_jamming: false,
            laser_dazzler: false,
            chaff_decoy: false,
            flare_decoy: false,
            active_decoy: false,
            cut_engines: true,
            cut_radar: true,
        }
    }

    /// Countermeasures available to the Alliance (all except the laser dazzler).
    pub fn only_alliance_countermeasures() -> (r: Self)
        ensures
            r == Self::spec_from_faction(Faction::Alliance),
    {
        CountermeasureMatrix {
            radar_jamming: true,
            comms_jamming: true,
            laser_dazzler: false,
            chaff_decoy: true,
            flare_decoy: true,
            active_decoy: true,
            cut_engines: true,
            cut_radar: true,
        }
    }

    /// Countermeasures available to the Protectorate (all except the active decoy).
    pub fn only_protectorate_countermeasures() -> (r: Self)
        ensures
            r == Self::spec_from_faction(Faction::Protectorate),
    {
        CountermeasureMatrix {
            radar_jamming: true,
            comms_jamming: true,
            laser_dazzler: true,
            chaff_decoy: true,
            flare_decoy: true,
            active_decoy: false,
            cut_engines: true,
            cut_radar: true,
        }
    }

    /// The countermeasures available to `faction`.
    pub fn from_faction(faction: Faction) -> (r: Self)
        ensures
            r == Self::spec_from_faction(faction),
    {
        match faction {
            Faction::Alliance => Self::only_alliance_countermeasures(),
            Faction::Protectorate => Self::only_protectorate_countermeasures(),
        }
    }

    /// Whether some countermeasure is in the mask.
    pub fn any(self) -> (r: bool)
        ensures
            r == self.spec_any(),
    {
        let r = !self.none();
        proof {
            if !r {
                assert(!self.spec_any());
            } else {
                assert(self.radar_jamming ==> self.has(Countermeasure::RadarJamming));
                assert(self.comms_jamming ==> self.has(Countermeasure::CommsJamming));
                assert(self.laser_dazzler ==> self.has(Countermeasure::LaserDazzler));
                assert(self.chaff_decoy ==> self.has(Countermeasure::ChaffDecoy));
                assert(self.flare_decoy ==> self.has(Countermeasure::FlareDecoy));
                assert(self.active_decoy ==> self.has(Countermeasure::ActiveDecoy));
                assert(self.cut_engines ==> self.has(Countermeasure::CutEngines));
                assert(self.cut_radar ==> self.has(Countermeasure::CutRadar));
            }
        }
        r
    }

    /// Whether every countermeasure is in the mask.
    pub fn all(self) -> (r: bool)
        ensures
            r == self.spec_all(),
    {
        let r = self.radar_jamming && self.comms_jamming && self.laser_dazzler && self.chaff_decoy && self.flare_decoy && self.active_decoy && self.cut_engines && self.cut_radar;
        proof {
            if !r {
                assert(!self.radar_jamming ==> !self.has(Countermeasure::RadarJamming));
                assert(!self.comms_jamming ==> !self.has(Countermeasure::CommsJamming));
                assert(!self.laser_dazzler ==> !self.has(Countermeasure::LaserDazzler));
                assert(!self.chaff_decoy ==> !self.has(Countermeasure::ChaffDecoy));
                assert(!self.flare_decoy ==> !self.has(Countermeasure::FlareDecoy));
                assert(!self.active_decoy ==> !self.has(Countermeasure::ActiveDecoy));
                assert(!self.cut_engines ==> !self.has(Countermeasure::CutEngines));
                assert(!self.cut_radar ==> !self.has(Countermeasure::CutRadar));
            }
        }
        r
    }

    /// Whether no countermeasure is in the mask.
    pub fn none(self) -> (r: bool)
        ensures
            r == self.spec_none(),
    {
        let r = !self.radar_jamming && !self.comms_jamming && !self.laser_dazzler && !self.chaff_decoy && !self.flare_decoy && !self.active_decoy && !self.cut_engines && !self.cut_radar;
        proof {
            if !r {
                assert(self.radar_jamming ==> self.has(Countermeasure::RadarJamming));
                assert(self.comms_jamming ==> self.has(Countermeasure::CommsJamming));
                assert(self.laser_dazzler ==> self.has(Countermeasure::LaserDazzler));
                assert(self.chaff_decoy ==> self.has(Countermeasure::ChaffDecoy));
                assert(self.flare_decoy ==> self.has(Countermeasure::FlareDecoy));
                assert(self.active_decoy ==> self.has(Countermeasure::ActiveDecoy));
                assert(self.cut_engines ==> self.has(Countermeasure::CutEngines));
                assert(self.cut_radar ==> self.has(Countermeasure::CutRadar));
            }
        }
        r
    }

    /// The countermeasures in both masks.
    pub fn and(self, other: Self) -> (r: Self)
        ensures
            r == self.spec_and(other),
    {
        CountermeasureMatrix {
            radar_jamming: self.radar_jamming && other.radar_jamming,
            comms_jamming: self.comms_jamming && other.comms_jamming,
            laser_dazzler: self.laser_dazzler && other.laser_dazzler,
            chaff_decoy: self.chaff_decoy && other.chaff_decoy,
            flare_decoy: self.flare_decoy && other.flare_decoy,
            active_decoy: self.active_decoy && other.active_decoy,
            cut_engines: self.cut_engines && other.cut_engines,
            cut_radar: self.cut_radar && other.cut_radar,
        }
    }

    /// The countermeasures in both masks: this method computes the same
    /// intersection as [`Self::and`].
    pub fn or(self, other: Self) -> (r: Self)
        ensures
            r == self.spec_and(other),
    {
        self.and(other)
    }

    /// The countermeasures in both masks: this method computes the same
    /// intersection as [`Self::and`].
    pub fn xor(self, other: Self) -> (r: Self)
        ensures
            r == self.spec_and(other),
    {
        self.and(other)
    }

    /// The countermeasures not in the mask.
    pub fn not(self) -> (r: Self)
        ensures
            r == self.spec_not(),
    {
        CountermeasureMatrix {
            radar_jamming: !self.radar_jamming,
            comms_jamming: !self.comms_jamming,
            laser_dazzler: !self.laser_dazzler,
            chaff_decoy: !self.chaff_decoy,
            flare_decoy: !self.flare_decoy,
            active_decoy: !self.active_decoy,
            cut_engines: !self.cut_engines,
            cut_radar: !self.cut_radar,
        }
    }

    /// The number of countermeasures in the mask.
    pub fn count_trues(self) -> (r: usize)
        ensures
            r == self.spec_count_trues(),
    {
        let mut count: usize = 0;
        if self.radar_jamming {
            count = count + 1;
        }
        if self.comms_jamming {
            count = count + 1;
        }
        if self.laser_dazzler {
            count = count + 1;
        }
        if self.chaff_decoy {
            count = count + 1;
        }
        if self.flare_decoy {
            count = count + 1;
        }
        if self.active_decoy {
            count = count + 1;
        }
        if self.cut_engines {
            count = count + 1;
        }
        if self.cut_radar {
            count = count + 1;
        }
        count
    }

    /// The number of countermeasures not in the mask.
    pub fn count_falses(self) -> (r: usize)
        ensures
            r == self.spec_count_falses(),
    {
        let mut count: usize = 0;
        if !self.radar_jamming {
            count = count + 1;
        }
        if !self.comms_jamming {
            count = count + 1;
        }
        if !self.laser_dazzler {
            count = count + 1;
        }
        if !self.chaff_decoy {
            count = count + 1;
        }
        if !self.flare_decoy {
            count = count + 1;
        }
        if !self.active_decoy {
            count = count + 1;
        }
        if !self.cut_engines {
            count = count + 1;
        }
        if !self.cut_radar {
            count = count + 1;
        }
        count
    }

    /// The mask whose countermeasure at position `i` (in declaration order) is
    /// present exactly when bit `i` of `num` is set.
    pub fn from_num(num: u32) -> (r: Self)
        ensures
            r == Self::spec_from_num(num),
    {
        CountermeasureMatrix {
            radar_jamming: num & 1u32 != 0u32,
            comms_jamming: num & 2u32 != 0u32,
            laser_dazzler: num & 4u32 != 0u32,
            chaff_decoy: num & 8u32 != 0u32,
            flare_decoy: num & 16u32 != 0u32,
            active_decoy: num & 32u32 != 0u32,
            cut_engines: num & 64u32 != 0u32,
            cut_radar: num & 128u32 != 0u32,
        }
    }

    /// The number with bit `i` set exactly when the countermeasure at position
    /// `i` (in declaration order) is in the mask.
    pub fn to_num(self) -> (r: u32)
        ensures
            r == self.spec_to_num(),
    {
        (if self.radar_jamming { 1u32 } else { 0u32 }) | (if self.comms_jamming { 2u32 } else { 0u32 })
            | (if self.laser_dazzler { 4u32 } else { 0u32 }) | (if self.chaff_decoy { 8u32 } else { 0u32 })
            | (if self.flare_decoy { 16u32 } else { 0u32 }) | (if self.active_decoy { 32u32 } else { 0u32 })
            | (if self.cut_engines { 64u32 } else { 0u32 }) | (if self.cut_radar { 128u32 } else { 0u32 })
    }

    /// The countermeasures of this mask that `faction` has.
    pub fn mask_faction(self, faction: Faction) -> (r: Self)
        ensures
            r == self.spec_and(Self::spec_from_faction(faction)),
    {
        self.and(Self::from_faction(faction))
    }

    /// The countermeasures of this mask that `faction` does not have.
    pub fn mask_faction_inv(self, faction: Faction) -> (r: Self)
        ensures
            r == self.spec_and(Self::spec_from_faction(faction).spec_not()),
    {
        self.and(Self::from_faction(faction).not())
    }

    /// The countermeasures of this mask in `category`.
    pub fn mask_category(self, category: CountermeasureCategory) -> (r: Self)
        ensures
            r == self.spec_and(Self::spec_from_fn(|cm: Countermeasure| cm.spec_category() == category)),
    {
        self.and(category.mask())
    }

    /// The countermeasures of this mask outside `category`.
    pub fn mask_category_inv(self, category: CountermeasureCategory) -> (r: Self)
        ensures
            r == self.spec_and(Self::spec_from_fn(|cm: Countermeasure| cm.spec_category() == category).spec_not()),
    {
        self.and(category.mask().not())
    }

    /// The countermeasures in the mask, in declaration order.
    pub fn iter_filtered(self) -> (r: Vec<Countermeasure>)
        ensures
            r@ == self.spec_filtered(),
    {
        let all = Countermeasure::values();
        let mut r: Vec<Countermeasure> = Vec::new();
        let mut i: usize = 0;
        while i < all.len()
            invariant
                all@ == Countermeasure::spec_values(),
                i <= all@.len(),
                r@ == self.spec_filtered_prefix(i as nat),
            decreases all.len() - i,
        {
            let cm = all[i];
            if *self.get(cm) {
                r.push(cm);
            }
            i = i + 1;
        }
        r
    }

    /// Every mask, ordered by its numeric form: `r[n]` is the mask of number `n`.
    pub fn values() -> (r: Vec<Self>)
        ensures
            r@.len() == 256,
            forall|n: int| 0 <= n < 256 ==> #[trigger] r@[n] == Self::spec_from_num(n as u32),
    {
        let mut r: Vec<Self> = Vec::new();
        let mut n: u32 = 0;
        while n < 256
            invariant
                n <= 256,
                r@.len() == n,
                forall|k: int| 0 <= k < n ==> #[trigger] r@[k] == Self::spec_from_num(k as u32),
            decreases 256 - n,
        {
            r.push(Self::from_num(n));
            n = n + 1;
        }
        r
    }
}

/// A mask read back from its number is the mask itself.
pub proof fn lemma_mask_num_round_trip(m: CountermeasuresMask)
    ensures
        CountermeasuresMask::spec_from_num(m.spec_to_num()) == m,
        m.spec_to_num() < 256,
        (m.spec_to_num() == 0) == m.spec_none(),
{
    assert(m.has(Countermeasure::RadarJamming) == m.radar_jamming);
    assert(m.has(Countermeasure::CommsJamming) == m.comms_jamming);
    assert(m.has(Countermeasure::LaserDazzler) == m.laser_dazzler);
    assert(m.has(Countermeasure::ChaffDecoy) == m.chaff_decoy);
    assert(m.has(Countermeasure::FlareDecoy) == m.flare_decoy);
    assert(m.has(Countermeasure::ActiveDecoy) == m.active_decoy);
    assert(m.has(Countermeasure::CutEngines) == m.cut_engines);
    assert(m.has(Countermeasure::CutRadar) == m.cut_radar);
    lemma_bits_to_num_bits(m.radar_jamming, m.comms_jamming, m.laser_dazzler, m.chaff_decoy, m.flare_decoy, m.active_decoy, m.cut_engines, m.cut_radar);
}

/// Every number below 256 is the number of the mask it stands for.
pub proof fn lemma_num_mask_round_trip(n: u32)
    requires
        n < 256,
    ensures
        CountermeasuresMask::spec_from_num(n).spec_to_num() == n,
{
    lemma_num_to_bits(n);
}

/// Each countermeasure is counted once, as present or as absent.
pub proof fn lemma_count_trues_falses(m: CountermeasuresMask)
    ensures
        m.spec_count_trues() + m.spec_count_falses() == 8,
{
}

/// A mask has some countermeasure exactly when it is not empty.
pub proof fn lemma_any_not_none(m: CountermeasuresMask)
    ensures
        m.spec_any() == !m.spec_none(),
{
}

} // verus!

verus! {

/// The number of countermeasures in the mask of number `n`.
pub open spec fn num_count(n: u32) -> nat {
    CountermeasuresMask::spec_from_num(n).spec_count_trues()
}

/// The order of `values_ordered`: by number of countermeasures, then by number.
pub open spec fn num_before(a: u32, b: u32) -> bool {
    num_count(a) < num_count(b) || (num_count(a) == num_count(b) && a < b)
}

/// Orders masks as `values_ordered` lists them: by number of countermeasures,
/// then by numeric form.
pub open spec fn mask_before(a: CountermeasuresMask, b: CountermeasuresMask) -> bool {
    num_before(a.spec_to_num(), b.spec_to_num())
}

/// The numbers of the non-empty masks, ordered by number of countermeasures
/// and then by value.
fn ordered_numbers() -> (r: Vec<u32>)
    ensures
        forall|i: int| 0 <= i < r@.len() ==> 0 < #[trigger] r@[i] < 256,
        forall|i: int, j: int| 0 <= i < j < r@.len() ==> num_before(#[trigger] r@[i], #[trigger] r@[j]),
        forall|m: u32| 0 < m < 256 ==> #[trigger] r@.contains(m),
{
    let mut r: Vec<u32> = Vec::new();
    let mut k: usize = 1;
    proof {
        assert forall|m: u32| 0 < m < 256 && num_count(m) < 1 implies #[trigger] r@.contains(m) by {
            lemma_num_mask_round_trip(m);
            lemma_mask_num_round_trip(CountermeasuresMask::spec_from_num(m));
        }
    }
    while k <= 8
        invariant
            1 <= k <= 9,
            forall|i: int| 0 <= i < r@.len() ==> 0 < #[trigger] r@[i] < 256,
            forall|i: int| 0 <= i < r@.len() ==> num_count(#[trigger] r@[i]) < k,
            forall|i: int, j: int| 0 <= i < j < r@.len() ==> num_before(#[trigger] r@[i], #[trigger] r@[j]),
            forall|m: u32| 0 < m < 256 && num_count(m) < k ==> #[trigger] r@.contains(m),
        decreases 9 - k,
    {
        let mut n: u32 = 1;
        while n < 256
            invariant
                1 <= k <= 8,
                1 <= n <= 256,
                forall|i: int| 0 <= i < r@.len() ==> 0 < #[trigger] r@[i] < 256,
                forall|i: int| 0 <= i < r@.len() ==> num_count(#[trigger] r@[i]) < k || (num_count(r@[i]) == k && r@[i] < n),
                forall|i: int, j: int| 0 <= i < j < r@.len() ==> num_before(#[trigger] r@[i], #[trigger] r@[j]),
                forall|m: u32| 0 < m < 256 && (num_count(m) < k || (num_count(m) == k && m < n)) ==> #[trigger] r@.contains(m),
            decreases 256 - n,
        {
            if CountermeasuresMask::from_num(n).count_trues() == k {
                let ghost before = r@;
                r.push(n);
                proof {
                    assert(r@[r@.len() - 1] == n);
                    assert forall|m: u32| 0 < m < 256 && (num_count(m) < k || (num_count(m) == k && m < n + 1)) implies #[trigger] r@.contains(m) by {
                        if m == n {
                            assert(r@[r@.len() - 1] == m);
                        } else {
                            assert(before.contains(m));
                            let i = choose|i: int| 0 <= i < before.len() && before[i] == m;
                            assert(r@[i] == m);
                        }
                    }
                }
            } else {
                proof {
                    assert forall|m: u32| 0 < m < 256 && (num_count(m) < k || (num_count(m) == k && m < n + 1)) implies #[trigger] r@.contains(m) by {
                        if m == n {
                            assert(num_count(m) < k);
                        }
                    }
                }
            }
            n = n + 1;
        }
        proof {
            assert forall|m: u32| 0 < m < 256 && num_count(m) < k + 1 implies #[trigger] r@.contains(m) by {
                if num_count(m) == k {
                    assert(m < n);
                }
            }
        }
        k = k + 1;
    }
    proof {
        assert forall|m: u32| 0 < m < 256 implies #[trigger] r@.contains(m) by {
            assert(num_count(m) < 9);
        }
    }
    r
}

impl CountermeasureMatrix<bool> {
    /// Every non-empty mask, ordered by number of countermeasures and then by
    /// numeric form.
    pub fn values_ordered() -> (r: Vec<Self>)
        ensures
            forall|i: int| 0 <= i < r@.len() ==> !(#[trigger] r@[i]).spec_none(),
            forall|i: int, j: int| 0 <= i < j < r@.len() ==> mask_before(#[trigger] r@[i], #[trigger] r@[j]),
            forall|m: Self| !m.spec_none() ==> #[trigger] r@.contains(m),
    {
        let nums = ordered_numbers();
        let mut r: Vec<Self> = Vec::new();
        let mut i: usize = 0;
        while i < nums.len()
            invariant
                i <= nums@.len(),
                r@.len() == i,
                forall|j: int| 0 <= j < i ==> #[trigger] r@[j] == Self::spec_from_num(nums@[j]),
            decreases nums.len() - i,
        {
            r.push(Self::from_num(nums[i]));
            i = i + 1;
        }
        proof {
            assert forall|i: int| 0 <= i < r@.len() implies !(#[trigger] r@[i]).spec_none() by {
                let n = nums@[i];
                lemma_num_mask_round_trip(n);
                lemma_mask_num_round_trip(r@[i]);
            }
            assert forall|i: int, j: int| 0 <= i < j < r@.len() implies mask_before(#[trigger] r@[i], #[trigger] r@[j]) by {
                lemma_num_mask_round_trip(nums@[i]);
                lemma_num_mask_round_trip(nums@[j]);
            }
            assert forall|m: Self| !m.spec_none() implies #[trigger] r@.contains(m) by {
                lemma_mask_num_round_trip(m);
                let n = m.spec_to_num();
                assert(nums@.contains(n));
                let i = choose|i: int| 0 <= i < nums@.len() && nums@[i] == n;
                assert(r@[i] == m);
            }
        }
        r
    }
}

} // verus!
