pub mod bodies;
pub mod seekers;

use vstd::prelude::*;
use crate::data::InvalidKey;
use crate::text::{chars_of, chars_eq_str};

verus! {

/// An auxiliary component that can be installed in a missile.
#[derive(Debug, Clone, Copy, PartialEq, Eq, Structural, PartialOrd, Ord, Hash)]
pub enum AuxiliaryKey {
    ColdGasBottle,
    DecoyLauncher,
    ClusterDecoyLauncher,
    FastStartupModule,
    HardenedSkin,
    RadarAbsorbentCoating,
    SelfScreeningJammer,
    BoostedSelfScreeningJammer,
}

impl AuxiliaryKey {
    /// Every `AuxiliaryKey`, in declaration order.
    pub open spec fn spec_values() -> Seq<AuxiliaryKey> {
        seq![AuxiliaryKey::ColdGasBottle, AuxiliaryKey::DecoyLauncher, AuxiliaryKey::ClusterDecoyLauncher, AuxiliaryKey::FastStartupModule, AuxiliaryKey::HardenedSkin, AuxiliaryKey::RadarAbsorbentCoating, AuxiliaryKey::SelfScreeningJammer, AuxiliaryKey::BoostedSelfScreeningJammer]
    }

    /// Every `AuxiliaryKey`, in declaration order.
    pub fn values() -> (v: Vec<AuxiliaryKey>)
        ensures
            v@ == Self::spec_values(),
    {
        vec![AuxiliaryKey::ColdGasBottle, AuxiliaryKey::DecoyLauncher, AuxiliaryKey::ClusterDecoyLauncher, AuxiliaryKey::FastStartupModule, AuxiliaryKey::HardenedSkin, AuxiliaryKey::RadarAbsorbentCoating, AuxiliaryKey::SelfScreeningJammer, AuxiliaryKey::BoostedSelfScreeningJammer]
    }

    pub open spec fn spec_save_key(self) -> Seq<char> {
        match self {
            AuxiliaryKey::ColdGasBottle => "Stock/Cold Gas Bottle"@,
            AuxiliaryKey::DecoyLauncher => "Stock/Decoy Launcher"@,
            AuxiliaryKey::ClusterDecoyLauncher => "Stock/Cluster Decoy Launcher"@,
            AuxiliaryKey::FastStartupModule => "Stock/Fast Startup Module"@,
            AuxiliaryKey::HardenedSkin => "Stock/Hardened Skin"@,
            AuxiliaryKey::RadarAbsorbentCoating => "Stock/Radar Absorbent Coating"@,
            AuxiliaryKey::SelfScreeningJammer => "Stock/Self-Screening Jammer"@,
            AuxiliaryKey::BoostedSelfScreeningJammer => "Stock/Boosted Self-Screening Jammer"@,
        }
    }

    /// The key under which fleet files name this component.
    pub fn save_key(self) -> (r: &'static str)
        ensures
            r@ == self.spec_save_key(),
    {
        match self {
            AuxiliaryKey::ColdGasBottle => "Stock/Cold Gas Bottle",
            AuxiliaryKey::DecoyLauncher => "Stock/Decoy Launcher",
            AuxiliaryKey::ClusterDecoyLauncher => "Stock/Cluster Decoy Launcher",
            AuxiliaryKey::FastStartupModule => "Stock/Fast Startup Module",
            AuxiliaryKey::HardenedSkin => "Stock/Hardened Skin",
            AuxiliaryKey::RadarAbsorbentCoating => "Stock/Radar Absorbent Coating",
            AuxiliaryKey::SelfScreeningJammer => "Stock/Self-Screening Jammer",
            AuxiliaryKey::BoostedSelfScreeningJammer => "Stock/Boosted Self-Screening Jammer",
        }
    }
}

spec fn auxiliary_key_save_key_fingerprint(s: Seq<char>) -> int {
    s.len() as int
}

spec fn auxiliary_key_from_save_key_fingerprint(n: int) -> Option<AuxiliaryKey> {
    if n == 21 {
        Some(AuxiliaryKey::ColdGasBottle)
    } else if n == 20 {
        Some(AuxiliaryKey::DecoyLauncher)
    } else if n == 28 {
        Some(AuxiliaryKey::ClusterDecoyLauncher)
    } else if n == 25 {
        Some(AuxiliaryKey::FastStartupModule)
    } else if n == 19 {
        Some(AuxiliaryKey::HardenedSkin)
    } else if n == 29 {
        Some(AuxiliaryKey::RadarAbsorbentCoating)
    } else if n == 27 {
        Some(AuxiliaryKey::SelfScreeningJammer)
    } else if n == 35 {
        Some(AuxiliaryKey::BoostedSelfScreeningJammer)
    } else {
        None
    }
}

proof fn lemma_auxiliary_key_save_key_fingerprint(k: AuxiliaryKey)
    ensures
        auxiliary_key_from_save_key_fingerprint(auxiliary_key_save_key_fingerprint(k.spec_save_key())) == Some(k),
{
    match k {
        AuxiliaryKey::ColdGasBottle => {
            reveal_strlit("Stock/Cold Gas Bottle");
        },
        AuxiliaryKey::DecoyLauncher => {
            reveal_strlit("Stock/Decoy Launcher");
        },
        AuxiliaryKey::ClusterDecoyLauncher => {
            reveal_strlit("Stock/Cluster Decoy Launcher");
        },
        AuxiliaryKey::FastStartupModule => {
            reveal_strlit("Stock/Fast Startup Module");
        },
        AuxiliaryKey::HardenedSkin => {
            reveal_strlit("Stock/Hardened Skin");
        },
        AuxiliaryKey::RadarAbsorbentCoating => {
            reveal_strlit("Stock/Radar Absorbent Coating");
        },
        AuxiliaryKey::SelfScreeningJammer => {
            reveal_strlit("Stock/Self-Screening Jammer");
        },
        AuxiliaryKey::BoostedSelfScreeningJammer => {
            reveal_strlit("Stock/Boosted Self-Screening Jammer");
        },
    }
}

/// No two `AuxiliaryKey` values share a `save_key`.
pub proof fn lemma_auxiliary_key_save_key_injective()
    ensures
        forall|a: AuxiliaryKey, b: AuxiliaryKey| a.spec_save_key() == b.spec_save_key() ==> a == b,
{
    assert forall|a: AuxiliaryKey, b: AuxiliaryKey| a.spec_save_key() == b.spec_save_key() implies a == b by {
        lemma_auxiliary_key_save_key_fingerprint(a);
        lemma_auxiliary_key_save_key_fingerprint(b);
    }
}

/// An avionics package that can be installed in a missile.
#[derive(Debug, Clone, Copy, PartialEq, Eq, Structural, PartialOrd, Ord, Hash)]
pub enum AvionicsKey {
    DirectGuidance,
    CruiseGuidance,
}

impl AvionicsKey {
    /// Every `AvionicsKey`, in declaration order.
    pub open spec fn spec_values() -> Seq<AvionicsKey> {
        seq![AvionicsKey::DirectGuidance, AvionicsKey::CruiseGuidance]
    }

    /// Every `AvionicsKey`, in declaration order.
    pub fn values() -> (v: Vec<AvionicsKey>)
        ensures
            v@ == Self::spec_values(),
    {
        vec![AvionicsKey::DirectGuidance, AvionicsKey::CruiseGuidance]
    }

    pub open spec fn spec_save_key(self) -> Seq<char> {
        match self {
            AvionicsKey::DirectGuidance => "Stock/Direct Guidance"@,
            AvionicsKey::CruiseGuidance => "Stock/Cruise Guidance"@,
        }
    }

    /// The key under which fleet files name this component.
    pub fn save_key(self) -> (r: &'static str)
        ensures
            r@ == self.spec_save_key(),
    {
        match self {
            AvionicsKey::DirectGuidance => "Stock/Direct Guidance",
            AvionicsKey::CruiseGuidance => "Stock/Cruise Guidance",
        }
    }
}

spec fn avionics_key_save_key_fingerprint(s: Seq<char>) -> int {
    s.len() as int
        + (if 6 < s.len() { s[6] as int } else { 0 }) * 2097152
}

spec fn avionics_key_from_save_key_fingerprint(n: int) -> Option<AvionicsKey> {
    if n == 142606357 {
        Some(AvionicsKey::DirectGuidance)
    } else if n == 140509205 {
        Some(AvionicsKey::CruiseGuidance)
    } else {
        None
    }
}

proof fn lemma_avionics_key_save_key_fingerprint(k: AvionicsKey)
    ensures
        avionics_key_from_save_key_fingerprint(avionics_key_save_key_fingerprint(k.spec_save_key())) == Some(k),
{
    match k {
        AvionicsKey::DirectGuidance => {
            reveal_strlit("Stock/Direct Guidance");
        },
        AvionicsKey::CruiseGuidance => {
            reveal_strlit("Stock/Cruise Guidance");
        },
    }
}

/// No two `AvionicsKey` values share a `save_key`.
pub proof fn lemma_avionics_key_save_key_injective()
    ensures
        forall|a: AvionicsKey, b: AvionicsKey| a.spec_save_key() == b.spec_save_key() ==> a == b,
{
    assert forall|a: AvionicsKey, b: AvionicsKey| a.spec_save_key() == b.spec_save_key() implies a == b by {
        lemma_avionics_key_save_key_fingerprint(a);
        lemma_avionics_key_save_key_fingerprint(b);
    }
}

/// A warhead that can be installed in a missile.
#[derive(Debug, Clone, Copy, PartialEq, Eq, Structural, PartialOrd, Ord, Hash)]
pub enum WarheadKey {
    HEImpact,
    HEKineticPenetrator,
    BlastFragmentation,
    BlastFragmentationEL,
}

impl WarheadKey {
    /// Every `WarheadKey`, in declaration order.
    pub open spec fn spec_values() -> Seq<WarheadKey> {
        seq![WarheadKey::HEImpact, WarheadKey::HEKineticPenetrator, WarheadKey::BlastFragmentation, WarheadKey::BlastFragmentationEL]
    }

    /// Every `WarheadKey`, in declaration order.
    pub fn values() -> (v: Vec<WarheadKey>)
        ensures
            v@ == Self::spec_values(),
    {
        vec![WarheadKey::HEImpact, WarheadKey::HEKineticPenetrator, WarheadKey::BlastFragmentation, WarheadKey::BlastFragmentationEL]
    }

    pub open spec fn spec_save_key(self) -> Seq<char> {
        match self {
            WarheadKey::HEImpact => "Stock/HE Impact"@,
            WarheadKey::HEKineticPenetrator => "Stock/HE Kinetic Penetrator"@,
            WarheadKey::BlastFragmentation => "Stock/Blast Fragmentation"@,
            WarheadKey::BlastFragmentationEL => "Stock/Blast Fragmentation EL"@,
        }
    }

    /// The key under which fleet files name this component.
    pub fn save_key(self) -> (r: &'static str)
        ensures
            r@ == self.spec_save_key(),
    {
        match self {
            WarheadKey::HEImpact => "Stock/HE Impact",
            WarheadKey::HEKineticPenetrator => "Stock/HE Kinetic Penetrator",
            WarheadKey::BlastFragmentation => "Stock/Blast Fragmentation",
            WarheadKey::BlastFragmentationEL => "Stock/Blast Fragmentation EL",
        }
    }
}

spec fn warhead_key_save_key_fingerprint(s: Seq<char>) -> int {
    s.len() as int
}

spec fn warhead_key_from_save_key_fingerprint(n: int) -> Option<WarheadKey> {
    if n == 15 {
        Some(WarheadKey::HEImpact)
    } else if n == 27 {
        Some(WarheadKey::HEKineticPenetrator)
    } else if n == 25 {
        Some(WarheadKey::BlastFragmentation)
    } else if n == 28 {
        Some(WarheadKey::BlastFragmentationEL)
    } else {
        None
    }
}

proof fn lemma_warhead_key_save_key_fingerprint(k: WarheadKey)
    ensures
        warhead_key_from_save_key_fingerprint(warhead_key_save_key_fingerprint(k.spec_save_key())) == Some(k),
{
    match k {
        WarheadKey::HEImpact => {
            reveal_strlit("Stock/HE Impact");
        },
        WarheadKey::HEKineticPenetrator => {
            reveal_strlit("Stock/HE Kinetic Penetrator");
        },
        WarheadKey::BlastFragmentation => {
            reveal_strlit("Stock/Blast Fragmentation");
        },
        WarheadKey::BlastFragmentationEL => {
            reveal_strlit("Stock/Blast Fragmentation EL");
        },
    }
}

/// No two `WarheadKey` values share a `save_key`.
pub proof fn lemma_warhead_key_save_key_injective()
    ensures
        forall|a: WarheadKey, b: WarheadKey| a.spec_save_key() == b.spec_save_key() ==> a == b,
{
    assert forall|a: WarheadKey, b: WarheadKey| a.spec_save_key() == b.spec_save_key() implies a == b by {
        lemma_warhead_key_save_key_fingerprint(a);
        lemma_warhead_key_save_key_fingerprint(b);
    }
}

/// The evasive maneuvers a missile performs on its terminal approach.
#[derive(Debug, Clone, Copy, PartialEq, Eq, Structural, PartialOrd, Ord, Hash)]
pub enum Maneuvers {
    NoManeuvers,
    Weave,
    Corkscrew,
}

impl Maneuvers {
    /// Every `Maneuvers`, in declaration order.
    pub open spec fn spec_values() -> Seq<Maneuvers> {
        seq![Maneuvers::NoManeuvers, Maneuvers::Weave, Maneuvers::Corkscrew]
    }

    /// Every `Maneuvers`, in declaration order.
    pub fn values() -> (v: Vec<Maneuvers>)
        ensures
            v@ == Self::spec_values(),
    {
        vec![Maneuvers::NoManeuvers, Maneuvers::Weave, Maneuvers::Corkscrew]
    }

    pub open spec fn spec_to_str(self) -> Seq<char> {
        match self {
            Maneuvers::NoManeuvers => "None"@,
            Maneuvers::Weave => "Weave"@,
            Maneuvers::Corkscrew => "Corkscrew"@,
        }
    }

    /// The text under which fleet files store these maneuvers.
    pub fn to_str(self) -> (r: &'static str)
        ensures
            r@ == self.spec_to_str(),
    {
        match self {
            Maneuvers::NoManeuvers => "None",
            Maneuvers::Weave => "Weave",
            Maneuvers::Corkscrew => "Corkscrew",
        }
    }

    /// What [`Maneuvers::from_str`] gives for the text `s`: the value whose
    /// `to_str` is `s`, or the error when there is none.
    pub open spec fn spec_from_str(s: Seq<char>) -> Result<Maneuvers, InvalidKey> {
        if exists|k: Maneuvers| k.spec_to_str() == s {
            Ok(choose|k: Maneuvers| k.spec_to_str() == s)
        } else {
            Err(InvalidKey::Maneuvers)
        }
    }

    /// Parses the text that [`Maneuvers::to_str`] gives.
    pub fn from_str(s: &str) -> (r: Result<Maneuvers, InvalidKey>)
        ensures
            r == Self::spec_from_str(s@),
    {
        proof { lemma_maneuvers_to_str_injective(); }
        let chars = chars_of(s);
        if chars_eq_str(&chars, "None") {
            proof { assert(Maneuvers::NoManeuvers.spec_to_str() == s@); }
            return Ok(Maneuvers::NoManeuvers);
        }
        if chars_eq_str(&chars, "Weave") {
            proof { assert(Maneuvers::Weave.spec_to_str() == s@); }
            return Ok(Maneuvers::Weave);
        }
        if chars_eq_str(&chars, "Corkscrew") {
            proof { assert(Maneuvers::Corkscrew.spec_to_str() == s@); }
            return Ok(Maneuvers::Corkscrew);
        }
        Err(InvalidKey::Maneuvers)
    }
}

spec fn maneuvers_to_str_fingerprint(s: Seq<char>) -> int {
    s.len() as int
}

spec fn maneuvers_from_to_str_fingerprint(n: int) -> Option<Maneuvers> {
    if n == 4 {
        Some(Maneuvers::NoManeuvers)
    } else if n == 5 {
        Some(Maneuvers::Weave)
    } else if n == 9 {
        Some(Maneuvers::Corkscrew)
    } else {
        None
    }
}

proof fn lemma_maneuvers_to_str_fingerprint(k: Maneuvers)
    ensures
        maneuvers_from_to_str_fingerprint(maneuvers_to_str_fingerprint(k.spec_to_str())) == Some(k),
{
    match k {
        Maneuvers::NoManeuvers => {
            reveal_strlit("None");
        },
        Maneuvers::Weave => {
            reveal_strlit("Weave");
        },
        Maneuvers::Corkscrew => {
            reveal_strlit("Corkscrew");
        },
    }
}

/// No two `Maneuvers` values share a `to_str`.
pub proof fn lemma_maneuvers_to_str_injective()
    ensures
        forall|a: Maneuvers, b: Maneuvers| a.spec_to_str() == b.spec_to_str() ==> a == b,
{
    assert forall|a: Maneuvers, b: Maneuvers| a.spec_to_str() == b.spec_to_str() implies a == b by {
        lemma_maneuvers_to_str_fingerprint(a);
        lemma_maneuvers_to_str_fingerprint(b);
    }
}

/// Parsing the text of a `Maneuvers` gives that `Maneuvers` back.
pub proof fn lemma_maneuvers_round_trip(k: Maneuvers)
    ensures
        Maneuvers::spec_from_str(k.spec_to_str()) == Ok::<Maneuvers, InvalidKey>(k),
{
    lemma_maneuvers_to_str_injective();
}

} // verus!
