pub mod key;
pub mod codec;
pub mod missile;
pub mod template;
pub mod socket;

use vstd::prelude::*;
use crate::data::{InvalidKey, MissileSize};
use crate::data::missiles::{AuxiliaryKey, AvionicsKey, WarheadKey};
use crate::data::missiles::seekers::SeekerKey;
use crate::text::{chars_of, chars_eq_str};

verus! {

/// The kind of missiles a defensive missile engages.
#[derive(Debug, Clone, Copy, PartialEq, Eq, Structural, PartialOrd, Ord, Hash)]
pub enum DefensiveTargetType {
    All,
    Conventional,
    Hybrid,
}

impl DefensiveTargetType {
    /// Every `DefensiveTargetType`, in declaration order.
    pub open spec fn spec_values() -> Seq<DefensiveTargetType> {
        seq![DefensiveTargetType::All, DefensiveTargetType::Conventional, DefensiveTargetType::Hybrid]
    }

    /// Every `DefensiveTargetType`, in declaration order.
    pub fn values() -> (v: Vec<DefensiveTargetType>)
        ensures
            v@ == Self::spec_values(),
    {
        vec![DefensiveTargetType::All, DefensiveTargetType::Conventional, DefensiveTargetType::Hybrid]
    }

    pub open spec fn spec_to_str(self) -> Seq<char> {
        match self {
            DefensiveTargetType::All => "All"@,
            DefensiveTargetType::Conventional => "Conventional"@,
            DefensiveTargetType::Hybrid => "Hybrid"@,
        }
    }

    /// The text under which fleet files store this target type.
    pub fn to_str(self) -> (r: &'static str)
        ensures
            r@ == self.spec_to_str(),
    {
        match self {
            DefensiveTargetType::All => "All",
            DefensiveTargetType::Conventional => "Conventional",
            DefensiveTargetType::Hybrid => "Hybrid",
        }
    }

    /// What [`DefensiveTargetType::from_str`] gives for the text `s`: the value whose
    /// `to_str` is `s`, or the error when there is none.
    pub open spec fn spec_from_str(s: Seq<char>) -> Result<DefensiveTargetType, InvalidKey> {
        if exists|k: DefensiveTargetType| k.spec_to_str() == s {
            Ok(choose|k: DefensiveTargetType| k.spec_to_str() == s)
        } else {
            Err(InvalidKey::DefensiveTargetType)
        }
    }

    /// Parses the text that [`DefensiveTargetType::to_str`] gives.
    pub fn from_str(s: &str) -> (r: Result<DefensiveTargetType, InvalidKey>)
        ensures
            r == Self::spec_from_str(s@),
    {
        proof { lemma_defensive_target_type_to_str_injective(); }
        let chars = chars_of(s);
        if chars_eq_str(&chars, "All") {
            proof { assert(DefensiveTargetType::All.spec_to_str() == s@); }
            return Ok(DefensiveTargetType::All);
        }
        if chars_eq_str(&chars, "Conventional") {
            proof { assert(DefensiveTargetType::Conventional.spec_to_str() == s@); }
            return Ok(DefensiveTargetType::Conventional);
        }
        if chars_eq_str(&chars, "Hybrid") {
            proof { assert(DefensiveTargetType::Hybrid.spec_to_str() == s@); }
            return Ok(DefensiveTargetType::Hybrid);
        }
        Err(InvalidKey::DefensiveTargetType)
    }
}

spec fn defensive_target_type_to_str_fingerprint(s: Seq<char>) -> int {
    s.len() as int
}

spec fn defensive_target_type_from_to_str_fingerprint(n: int) -> Option<DefensiveTargetType> {
    if n == 3 {
        Some(DefensiveTargetType::All)
    } else if n == 12 {
        Some(DefensiveTargetType::Conventional)
    } else if n == 6 {
        Some(DefensiveTargetType::Hybrid)
    } else {
        None
    }
}

proof fn lemma_defensive_target_type_to_str_fingerprint(k: DefensiveTargetType)
    ensures
        defensive_target_type_from_to_str_fingerprint(defensive_target_type_to_str_fingerprint(k.spec_to_str())) == Some(k),
{
    match k {
        DefensiveTargetType::All => {
            reveal_strlit("All");
        },
        DefensiveTargetType::Conventional => {
            reveal_strlit("Conventional");
        },
        DefensiveTargetType::Hybrid => {
            reveal_strlit("Hybrid");
        },
    }
}

/// No two `DefensiveTargetType` values share a `to_str`.
pub proof fn lemma_defensive_target_type_to_str_injective()
    ensures
        forall|a: DefensiveTargetType, b: DefensiveTargetType| a.spec_to_str() == b.spec_to_str() ==> a == b,
{
    assert forall|a: DefensiveTargetType, b: DefensiveTargetType| a.spec_to_str() == b.spec_to_str() implies a == b by {
        lemma_defensive_target_type_to_str_fingerprint(a);
        lemma_defensive_target_type_to_str_fingerprint(b);
    }
}

/// Parsing the text of a `DefensiveTargetType` gives that `DefensiveTargetType` back.
pub proof fn lemma_defensive_target_type_round_trip(k: DefensiveTargetType)
    ensures
        DefensiveTargetType::spec_from_str(k.spec_to_str()) == Ok::<DefensiveTargetType, InvalidKey>(k),
{
    lemma_defensive_target_type_to_str_injective();
}

/// Whether a missile attacks ships or defends against missiles.
#[derive(Debug, Clone, Copy, PartialEq, Eq, Structural, PartialOrd, Ord, Hash)]
pub enum MissileRole {
    Offensive,
    Defensive,
}

impl MissileRole {
    /// Every `MissileRole`, in declaration order.
    pub open spec fn spec_values() -> Seq<MissileRole> {
        seq![MissileRole::Offensive, MissileRole::Defensive]
    }

    /// Every `MissileRole`, in declaration order.
    pub fn values() -> (v: Vec<MissileRole>)
        ensures
            v@ == Self::spec_values(),
    {
        vec![MissileRole::Offensive, MissileRole::Defensive]
    }

    pub open spec fn spec_to_str(self) -> Seq<char> {
        match self {
            MissileRole::Offensive => "Offensive"@,
            MissileRole::Defensive => "Defensive"@,
        }
    }

    /// The text under which fleet files store this role.
    pub fn to_str(self) -> (r: &'static str)
        ensures
            r@ == self.spec_to_str(),
    {
        match self {
            MissileRole::Offensive => "Offensive",
            MissileRole::Defensive => "Defensive",
        }
    }

    /// What [`MissileRole::from_str`] gives for the text `s`: the value whose
    /// `to_str` is `s`, or the error when there is none.
    pub open spec fn spec_from_str(s: Seq<char>) -> Result<MissileRole, InvalidKey> {
        if exists|k: MissileRole| k.spec_to_str() == s {
            Ok(choose|k: MissileRole| k.spec_to_str() == s)
        } else {
            Err(InvalidKey::MissileRole)
        }
    }

    /// Parses the text that [`MissileRole::to_str`] gives.
    pub fn from_str(s: &str) -> (r: Result<MissileRole, InvalidKey>)
        ensures
            r == Self::spec_from_str(s@),
    {
        proof { lemma_missile_role_to_str_injective(); }
        let chars = chars_of(s);
        if chars_eq_str(&chars, "Offensive") {
            proof { assert(MissileRole::Offensive.spec_to_str() == s@); }
            return Ok(MissileRole::Offensive);
        }
        if chars_eq_str(&chars, "Defensive") {
            proof { assert(MissileRole::Defensive.spec_to_str() == s@); }
            return Ok(MissileRole::Defensive);
        }
        Err(InvalidKey::MissileRole)
    }
}

spec fn missile_role_to_str_fingerprint(s: Seq<char>) -> int {
    s.len() as int
        + (if 0 < s.len() { s[0] as int } else { 0 }) * 2097152
}

spec fn missile_role_from_to_str_fingerprint(n: int) -> Option<MissileRole> {
    if n == 165675017 {
        Some(MissileRole::Offensive)
    } else if n == 142606345 {
        Some(MissileRole::Defensive)
    } else {
        None
    }
}

proof fn lemma_missile_role_to_str_fingerprint(k: MissileRole)
    ensures
        missile_role_from_to_str_fingerprint(missile_role_to_str_fingerprint(k.spec_to_str())) == Some(k),
{
    match k {
        MissileRole::Offensive => {
            reveal_strlit("Offensive");
        },
        MissileRole::Defensive => {
            reveal_strlit("Defensive");
        },
    }
}

/// No two `MissileRole` values share a `to_str`.
pub proof fn lemma_missile_role_to_str_injective()
    ensures
        forall|a: MissileRole, b: MissileRole| a.spec_to_str() == b.spec_to_str() ==> a == b,
{
    assert forall|a: MissileRole, b: MissileRole| a.spec_to_str() == b.spec_to_str() implies a == b by {
        lemma_missile_role_to_str_fingerprint(a);
        lemma_missile_role_to_str_fingerprint(b);
    }
}

/// Parsing the text of a `MissileRole` gives that `MissileRole` back.
pub proof fn lemma_missile_role_round_trip(k: MissileRole)
    ensures
        MissileRole::spec_from_str(k.spec_to_str()) == Ok::<MissileRole, InvalidKey>(k),
{
    lemma_missile_role_to_str_injective();
}

/// What an anti-radiation seeker homes in on.
#[derive(Debug, Clone, Copy, PartialEq, Eq, Structural, PartialOrd, Ord, Hash)]
pub enum AntiRadiationTargetType {
    All,
    JammingOnly,
}

impl AntiRadiationTargetType {
    /// Every `AntiRadiationTargetType`, in declaration order.
    pub open spec fn spec_values() -> Seq<AntiRadiationTargetType> {
        seq![AntiRadiationTargetType::All, AntiRadiationTargetType::JammingOnly]
    }

    /// Every `AntiRadiationTargetType`, in declaration order.
    pub fn values() -> (v: Vec<AntiRadiationTargetType>)
        ensures
            v@ == Self::spec_values(),
    {
        vec![AntiRadiationTargetType::All, AntiRadiationTargetType::JammingOnly]
    }

    pub open spec fn spec_to_str(self) -> Seq<char> {
        match self {
            AntiRadiationTargetType::All => "All"@,
            AntiRadiationTargetType::JammingOnly => "JammingOnly"@,
        }
    }

    /// The text under which fleet files store this target type.
    pub fn to_str(self) -> (r: &'static str)
        ensures
            r@ == self.spec_to_str(),
    {
        match self {
            AntiRadiationTargetType::All => "All",
            AntiRadiationTargetType::JammingOnly => "JammingOnly",
        }
    }

    /// What [`AntiRadiationTargetType::from_str`] gives for the text `s`: the value whose
    /// `to_str` is `s`, or the error when there is none.
    pub open spec fn spec_from_str(s: Seq<char>) -> Result<AntiRadiationTargetType, InvalidKey> {
        if exists|k: AntiRadiationTargetType| k.spec_to_str() == s {
            Ok(choose|k: AntiRadiationTargetType| k.spec_to_str() == s)
        } else {
            Err(InvalidKey::AntiRadiationTargetType)
        }
    }

    /// Parses the text that [`AntiRadiationTargetType::to_str`] gives.
    pub fn from_str(s: &str) -> (r: Result<AntiRadiationTargetType, InvalidKey>)
        ensures
            r == Self::spec_from_str(s@),
    {
        proof { lemma_anti_radiation_target_type_to_str_injective(); }
        let chars = chars_of(s);
        if chars_eq_str(&chars, "All") {
            proof { assert(AntiRadiationTargetType::All.spec_to_str() == s@); }
            return Ok(AntiRadiationTargetType::All);
        }
        if chars_eq_str(&chars, "JammingOnly") {
            proof { assert(AntiRadiationTargetType::JammingOnly.spec_to_str() == s@); }
            return Ok(AntiRadiationTargetType::JammingOnly);
        }
        Err(InvalidKey::AntiRadiationTargetType)
    }
}

spec fn anti_radiation_target_type_to_str_fingerprint(s: Seq<char>) -> int {
    s.len() as int
}

spec fn anti_radiation_target_type_from_to_str_fingerprint(n: int) -> Option<AntiRadiationTargetType> {
    if n == 3 {
        Some(AntiRadiationTargetType::All)
    } else if n == 11 {
        Some(AntiRadiationTargetType::JammingOnly)
    } else {
        None
    }
}

proof fn lemma_anti_radiation_target_type_to_str_fingerprint(k: AntiRadiationTargetType)
    ensures
        anti_radiation_target_type_from_to_str_fingerprint(anti_radiation_target_type_to_str_fingerprint(k.spec_to_str())) == Some(k),
{
    match k {
        AntiRadiationTargetType::All => {
            reveal_strlit("All");
        },
        AntiRadiationTargetType::JammingOnly => {
            reveal_strlit("JammingOnly");
        },
    }
}

/// No two `AntiRadiationTargetType` values share a `to_str`.
pub proof fn lemma_anti_radiation_target_type_to_str_injective()
    ensures
        forall|a: AntiRadiationTargetType, b: AntiRadiationTargetType| a.spec_to_str() == b.spec_to_str() ==> a == b,
{
    assert forall|a: AntiRadiationTargetType, b: AntiRadiationTargetType| a.spec_to_str() == b.spec_to_str() implies a == b by {
        lemma_anti_radiation_target_type_to_str_fingerprint(a);
        lemma_anti_radiation_target_type_to_str_fingerprint(b);
    }
}

/// Parsing the text of a `AntiRadiationTargetType` gives that `AntiRadiationTargetType` back.
pub proof fn lemma_anti_radiation_target_type_round_trip(k: AntiRadiationTargetType)
    ensures
        AntiRadiationTargetType::spec_from_str(k.spec_to_str()) == Ok::<AntiRadiationTargetType, InvalidKey>(k),
{
    lemma_anti_radiation_target_type_to_str_injective();
}

/// The order in which a defensive missile engages targets by size.
#[derive(Debug, Clone, Copy, PartialEq, Eq, Structural, PartialOrd, Ord, Hash)]
pub enum SizeOrdering {
    Ascending,
    Descending,
    Equal,
}

impl SizeOrdering {
    /// Every `SizeOrdering`, in declaration order.
    pub open spec fn spec_values() -> Seq<SizeOrdering> {
        seq![SizeOrdering::Ascending, SizeOrdering::Descending, SizeOrdering::Equal]
    }

    /// Every `SizeOrdering`, in declaration order.
    pub fn values() -> (v: Vec<SizeOrdering>)
        ensures
            v@ == Self::spec_values(),
    {
        vec![SizeOrdering::Ascending, SizeOrdering::Descending, SizeOrdering::Equal]
    }

    pub open spec fn spec_to_str(self) -> Seq<char> {
        match self {
            SizeOrdering::Ascending => "Ascending"@,
            SizeOrdering::Descending => "Descending"@,
            SizeOrdering::Equal => "Equal"@,
        }
    }

    /// The text under which fleet files store this ordering.
    pub fn to_str(self) -> (r: &'static str)
        ensures
            r@ == self.spec_to_str(),
    {
        match self {
            SizeOrdering::Ascending => "Ascending",
            SizeOrdering::Descending => "Descending",
            SizeOrdering::Equal => "Equal",
        }
    }

    /// What [`SizeOrdering::from_str`] gives for the text `s`: the value whose
    /// `to_str` is `s`, or the error when there is none.
    pub open spec fn spec_from_str(s: Seq<char>) -> Result<SizeOrdering, InvalidKey> {
        if exists|k: SizeOrdering| k.spec_to_str() == s {
            Ok(choose|k: SizeOrdering| k.spec_to_str() == s)
        } else {
            Err(InvalidKey::SizeOrdering)
        }
    }

    /// Parses the text that [`SizeOrdering::to_str`] gives.
    pub fn from_str(s: &str) -> (r: Result<SizeOrdering, InvalidKey>)
        ensures
            r == Self::spec_from_str(s@),
    {
        proof { lemma_size_ordering_to_str_injective(); }
        let chars = chars_of(s);
        if chars_eq_str(&chars, "Ascending") {
            proof { assert(SizeOrdering::Ascending.spec_to_str() == s@); }
            return Ok(SizeOrdering::Ascending);
        }
        if chars_eq_str(&chars, "Descending") {
            proof { assert(SizeOrdering::Descending.spec_to_str() == s@); }
            return Ok(SizeOrdering::Descending);
        }
        if chars_eq_str(&chars, "Equal") {
            proof { assert(SizeOrdering::Equal.spec_to_str() == s@); }
            return Ok(SizeOrdering::Equal);
        }
        Err(InvalidKey::SizeOrdering)
    }
}

spec fn size_ordering_to_str_fingerprint(s: Seq<char>) -> int {
    s.len() as int
}

spec fn size_ordering_from_to_str_fingerprint(n: int) -> Option<SizeOrdering> {
    if n == 9 {
        Some(SizeOrdering::Ascending)
    } else if n == 10 {
        Some(SizeOrdering::Descending)
    } else if n == 5 {
        Some(SizeOrdering::Equal)
    } else {
        None
    }
}

proof fn lemma_size_ordering_to_str_fingerprint(k: SizeOrdering)
    ensures
        size_ordering_from_to_str_fingerprint(size_ordering_to_str_fingerprint(k.spec_to_str())) == Some(k),
{
    match k {
        SizeOrdering::Ascending => {
            reveal_strlit("Ascending");
        },
        SizeOrdering::Descending => {
            reveal_strlit("Descending");
        },
        SizeOrdering::Equal => {
            reveal_strlit("Equal");
        },
    }
}

/// No two `SizeOrdering` values share a `to_str`.
pub proof fn lemma_size_ordering_to_str_injective()
    ensures
        forall|a: SizeOrdering, b: SizeOrdering| a.spec_to_str() == b.spec_to_str() ==> a == b,
{
    assert forall|a: SizeOrdering, b: SizeOrdering| a.spec_to_str() == b.spec_to_str() implies a == b by {
        lemma_size_ordering_to_str_fingerprint(a);
        lemma_size_ordering_to_str_fingerprint(b);
    }
}

/// Parsing the text of a `SizeOrdering` gives that `SizeOrdering` back.
pub proof fn lemma_size_ordering_round_trip(k: SizeOrdering)
    ensures
        SizeOrdering::spec_from_str(k.spec_to_str()) == Ok::<SizeOrdering, InvalidKey>(k),
{
    lemma_size_ordering_to_str_injective();
}

/// A component that can be installed in a missile socket.
#[derive(Debug, Clone, Copy, PartialEq, Eq, Structural, PartialOrd, Ord, Hash)]
pub enum MissileComponentKey {
    CommandReceiver,
    FixedActiveRadarSeeker,
    SteerableActiveRadarSeeker,
    SteerableExtendedActiveRadarSeeker,
    FixedSemiActiveRadarSeeker,
    FixedAntiRadiationSeeker,
    ElectroOpticalSeeker,
    WakeHomingSeeker,
    ColdGasBottle,
    DecoyLauncher,
    ClusterDecoyLauncher,
    FastStartupModule,
    HardenedSkin,
    RadarAbsorbentCoating,
    SelfScreeningJammer,
    BoostedSelfScreeningJammer,
    DirectGuidance,
    CruiseGuidance,
    HEImpact,
    HEKineticPenetrator,
    BlastFragmentation,
    BlastFragmentationEL,
}

impl MissileComponentKey {
    /// Every `MissileComponentKey`, in declaration order.
    pub open spec fn spec_values() -> Seq<MissileComponentKey> {
        seq![MissileComponentKey::CommandReceiver, MissileComponentKey::FixedActiveRadarSeeker, MissileComponentKey::SteerableActiveRadarSeeker, MissileComponentKey::SteerableExtendedActiveRadarSeeker, MissileComponentKey::FixedSemiActiveRadarSeeker, MissileComponentKey::FixedAntiRadiationSeeker, MissileComponentKey::ElectroOpticalSeeker, MissileComponentKey::WakeHomingSeeker, MissileComponentKey::ColdGasBottle, MissileComponentKey::DecoyLauncher, MissileComponentKey::ClusterDecoyLauncher, MissileComponentKey::FastStartupModule, MissileComponentKey::HardenedSkin, MissileComponentKey::RadarAbsorbentCoating, MissileComponentKey::SelfScreeningJammer, MissileComponentKey::BoostedSelfScreeningJammer, MissileComponentKey::DirectGuidance, MissileComponentKey::CruiseGuidance, MissileComponentKey::HEImpact, MissileComponentKey::HEKineticPenetrator, MissileComponentKey::BlastFragmentation, MissileComponentKey::BlastFragmentationEL]
    }

    /// Every `MissileComponentKey`, in declaration order.
    pub fn values() -> (v: Vec<MissileComponentKey>)
        ensures
            v@ == Self::spec_values(),
    {
        vec![MissileComponentKey::CommandReceiver, MissileComponentKey::FixedActiveRadarSeeker, MissileComponentKey::SteerableActiveRadarSeeker, MissileComponentKey::SteerableExtendedActiveRadarSeeker, MissileComponentKey::FixedSemiActiveRadarSeeker, MissileComponentKey::FixedAntiRadiationSeeker, MissileComponentKey::ElectroOpticalSeeker, MissileComponentKey::WakeHomingSeeker, MissileComponentKey::ColdGasBottle, MissileComponentKey::DecoyLauncher, MissileComponentKey::ClusterDecoyLauncher, MissileComponentKey::FastStartupModule, MissileComponentKey::HardenedSkin, MissileComponentKey::RadarAbsorbentCoating, MissileComponentKey::SelfScreeningJammer, MissileComponentKey::BoostedSelfScreeningJammer, MissileComponentKey::DirectGuidance, MissileComponentKey::CruiseGuidance, MissileComponentKey::HEImpact, MissileComponentKey::HEKineticPenetrator, MissileComponentKey::BlastFragmentation, MissileComponentKey::BlastFragmentationEL]
    }

    pub open spec fn spec_save_key(self) -> Seq<char> {
        match self {
            MissileComponentKey::CommandReceiver => "Stock/Command Receiver"@,
            MissileComponentKey::FixedActiveRadarSeeker => "Stock/Fixed Active Radar Seeker"@,
            MissileComponentKey::SteerableActiveRadarSeeker => "Stock/Steerable Active Radar Seeker"@,
            MissileComponentKey::SteerableExtendedActiveRadarSeeker => "Stock/Steerable Extended Active Radar Seeker"@,
            MissileComponentKey::FixedSemiActiveRadarSeeker => "Stock/Fixed Semi-Active Radar Seeker"@,
            MissileComponentKey::FixedAntiRadiationSeeker => "Stock/Fixed Anti-Radiation Seeker"@,
            MissileComponentKey::ElectroOpticalSeeker => "Stock/Electro-Optical Seeker"@,
            MissileComponentKey::WakeHomingSeeker => "Stock/Wake-Homing Seeker"@,
            MissileComponentKey::ColdGasBottle => "Stock/Cold Gas Bottle"@,
            MissileComponentKey::DecoyLauncher => "Stock/Decoy Launcher"@,
            MissileComponentKey::ClusterDecoyLauncher => "Stock/Cluster Decoy Launcher"@,
            MissileComponentKey::FastStartupModule => "Stock/Fast Startup Module"@,
            MissileComponentKey::HardenedSkin => "Stock/Hardened Skin"@,
            MissileComponentKey::RadarAbsorbentCoating => "Stock/Radar Absorbent Coating"@,
            MissileComponentKey::SelfScreeningJammer => "Stock/Self-Screening Jammer"@,
            MissileComponentKey::BoostedSelfScreeningJammer => "Stock/Boosted Self-Screening Jammer"@,
            MissileComponentKey::DirectGuidance => "Stock/Direct Guidance"@,
            MissileComponentKey::CruiseGuidance => "Stock/Cruise Guidance"@,
            MissileComponentKey::HEImpact => "Stock/HE Impact"@,
            MissileComponentKey::HEKineticPenetrator => "Stock/HE Kinetic Penetrator"@,
            MissileComponentKey::BlastFragmentation => "Stock/Blast Fragmentation"@,
            MissileComponentKey::BlastFragmentationEL => "Stock/Blast Fragmentation EL"@,
        }
    }

    /// The key under which fleet files name this component.
    pub fn save_key(self) -> (r: &'static str)
        ensures
            r@ == self.spec_save_key(),
    {
        match self {
            MissileComponentKey::CommandReceiver => "Stock/Command Receiver",
            MissileComponentKey::FixedActiveRadarSeeker => "Stock/Fixed Active Radar Seeker",
            MissileComponentKey::SteerableActiveRadarSeeker => "Stock/Steerable Active Radar Seeker",
            MissileComponentKey::SteerableExtendedActiveRadarSeeker => "Stock/Steerable Extended Active Radar Seeker",
            MissileComponentKey::FixedSemiActiveRadarSeeker => "Stock/Fixed Semi-Active Radar Seeker",
            MissileComponentKey::FixedAntiRadiationSeeker => "Stock/Fixed Anti-Radiation Seeker",
            MissileComponentKey::ElectroOpticalSeeker => "Stock/Electro-Optical Seeker",
            MissileComponentKey::WakeHomingSeeker => "Stock/Wake-Homing Seeker",
            MissileComponentKey::ColdGasBottle => "Stock/Cold Gas Bottle",
            MissileComponentKey::DecoyLauncher => "Stock/Decoy Launcher",
            MissileComponentKey::ClusterDecoyLauncher => "Stock/Cluster Decoy Launcher",
            MissileComponentKey::FastStartupModule => "Stock/Fast Startup Module",
            MissileComponentKey::HardenedSkin => "Stock/Hardened Skin",
            MissileComponentKey::RadarAbsorbentCoating => "Stock/Radar Absorbent Coating",
            MissileComponentKey::SelfScreeningJammer => "Stock/Self-Screening Jammer",
            MissileComponentKey::BoostedSelfScreeningJammer => "Stock/Boosted Self-Screening Jammer",
            MissileComponentKey::DirectGuidance => "Stock/Direct Guidance",
            MissileComponentKey::CruiseGuidance => "Stock/Cruise Guidance",
            MissileComponentKey::HEImpact => "Stock/HE Impact",
            MissileComponentKey::HEKineticPenetrator => "Stock/HE Kinetic Penetrator",
            MissileComponentKey::BlastFragmentation => "Stock/Blast Fragmentation",
            MissileComponentKey::BlastFragmentationEL => "Stock/Blast Fragmentation EL",
        }
    }

    /// What [`MissileComponentKey::from_str`] gives for the text `s`: the value whose
    /// `save_key` is `s`, or the error when there is none.
    pub open spec fn spec_from_str(s: Seq<char>) -> Result<MissileComponentKey, InvalidKey> {
        if exists|k: MissileComponentKey| k.spec_save_key() == s {
            Ok(choose|k: MissileComponentKey| k.spec_save_key() == s)
        } else {
            Err(InvalidKey::MissileComponent)
        }
    }

    /// Parses the text that [`MissileComponentKey::save_key`] gives.
    pub fn from_str(s: &str) -> (r: Result<MissileComponentKey, InvalidKey>)
        ensures
            r == Self::spec_from_str(s@),
    {
        proof { lemma_missile_component_key_save_key_injective(); }
        let chars = chars_of(s);
        if chars_eq_str(&chars, "Stock/Command Receiver") {
            proof { assert(MissileComponentKey::CommandReceiver.spec_save_key() == s@); }
            return Ok(MissileComponentKey::CommandReceiver);
        }
        if chars_eq_str(&chars, "Stock/Fixed Active Radar Seeker") {
            proof { assert(MissileComponentKey::FixedActiveRadarSeeker.spec_save_key() == s@); }
            return Ok(MissileComponentKey::FixedActiveRadarSeeker);
        }
        if chars_eq_str(&chars, "Stock/Steerable Active Radar Seeker") {
            proof { assert(MissileComponentKey::SteerableActiveRadarSeeker.spec_save_key() == s@); }
            return Ok(MissileComponentKey::SteerableActiveRadarSeeker);
        }
        if chars_eq_str(&chars, "Stock/Steerable Extended Active Radar Seeker") {
            proof { assert(MissileComponentKey::SteerableExtendedActiveRadarSeeker.spec_save_key() == s@); }
            return Ok(MissileComponentKey::SteerableExtendedActiveRadarSeeker);
        }
        if chars_eq_str(&chars, "Stock/Fixed Semi-Active Radar Seeker") {
            proof { assert(MissileComponentKey::FixedSemiActiveRadarSeeker.spec_save_key() == s@); }
            return Ok(MissileComponentKey::FixedSemiActiveRadarSeeker);
        }
        if chars_eq_str(&chars, "Stock/Fixed Anti-Radiation Seeker") {
            proof { assert(MissileComponentKey::FixedAntiRadiationSeeker.spec_save_key() == s@); }
            return Ok(MissileComponentKey::FixedAntiRadiationSeeker);
        }
        if chars_eq_str(&chars, "Stock/Electro-Optical Seeker") {
            proof { assert(MissileComponentKey::ElectroOpticalSeeker.spec_save_key() == s@); }
            return Ok(MissileComponentKey::ElectroOpticalSeeker);
        }
        if chars_eq_str(&chars, "Stock/Wake-Homing Seeker") {
            proof { assert(MissileComponentKey::WakeHomingSeeker.spec_save_key() == s@); }
            return Ok(MissileComponentKey::WakeHomingSeeker);
        }
        if chars_eq_str(&chars, "Stock/Cold Gas Bottle") {
            proof { assert(MissileComponentKey::ColdGasBottle.spec_save_key() == s@); }
            return Ok(MissileComponentKey::ColdGasBottle);
        }
        if chars_eq_str(&chars, "Stock/Decoy Launcher") {
            proof { assert(MissileComponentKey::DecoyLauncher.spec_save_key() == s@); }
            return Ok(MissileComponentKey::DecoyLauncher);
        }
        if chars_eq_str(&chars, "Stock/Cluster Decoy Launcher") {
            proof { assert(MissileComponentKey::ClusterDecoyLauncher.spec_save_key() == s@); }
            return Ok(MissileComponentKey::ClusterDecoyLauncher);
        }
        if chars_eq_str(&chars, "Stock/Fast Startup Module") {
            proof { assert(MissileComponentKey::FastStartupModule.spec_save_key() == s@); }
            return Ok(MissileComponentKey::FastStartupModule);
        }
        if chars_eq_str(&chars, "Stock/Hardened Skin") {
            proof { assert(MissileComponentKey::HardenedSkin.spec_save_key() == s@); }
            return Ok(MissileComponentKey::HardenedSkin);
        }
        if chars_eq_str(&chars, "Stock/Radar Absorbent Coating") {
            proof { assert(MissileComponentKey::RadarAbsorbentCoating.spec_save_key() == s@); }
            return Ok(MissileComponentKey::RadarAbsorbentCoating);
        }
        if chars_eq_str(&chars, "Stock/Self-Screening Jammer") {
            proof { assert(MissileComponentKey::SelfScreeningJammer.spec_save_key() == s@); }
            return Ok(MissileComponentKey::SelfScreeningJammer);
        }
        if chars_eq_str(&chars, "Stock/Boosted Self-Screening Jammer") {
            proof { assert(MissileComponentKey::BoostedSelfScreeningJammer.spec_save_key() == s@); }
            return Ok(MissileComponentKey::BoostedSelfScreeningJammer);
        }
        if chars_eq_str(&chars, "Stock/Direct Guidance") {
            proof { assert(MissileComponentKey::DirectGuidance.spec_save_key() == s@); }
            return Ok(MissileComponentKey::DirectGuidance);
        }
        if chars_eq_str(&chars, "Stock/Cruise Guidance") {
            proof { assert(MissileComponentKey::CruiseGuidance.spec_save_key() == s@); }
            return Ok(MissileComponentKey::CruiseGuidance);
        }
        if chars_eq_str(&chars, "Stock/HE Impact") {
            proof { assert(MissileComponentKey::HEImpact.spec_save_key() == s@); }
            return Ok(MissileComponentKey::HEImpact);
        }
        if chars_eq_str(&chars, "Stock/HE Kinetic Penetrator") {
            proof { assert(MissileComponentKey::HEKineticPenetrator.spec_save_key() == s@); }
            return Ok(MissileComponentKey::HEKineticPenetrator);
        }
        if chars_eq_str(&chars, "Stock/Blast Fragmentation") {
            proof { assert(MissileComponentKey::BlastFragmentation.spec_save_key() == s@); }
            return Ok(MissileComponentKey::BlastFragmentation);
        }
        if chars_eq_str(&chars, "Stock/Blast Fragmentation EL") {
            proof { assert(MissileComponentKey::BlastFragmentationEL.spec_save_key() == s@); }
            return Ok(MissileComponentKey::BlastFragmentationEL);
        }
        Err(InvalidKey::MissileComponent)
    }
}

spec fn missile_component_key_save_key_fingerprint(s: Seq<char>) -> int {
    s.len() as int
        + (if 8 < s.len() { s[8] as int } else { 0 }) * 2097152
}

spec fn missile_component_key_from_save_key_fingerprint(n: int) -> Option<MissileComponentKey> {
    if n == 228589590 {
        Some(MissileComponentKey::CommandReceiver)
    } else if n == 251658271 {
        Some(MissileComponentKey::FixedActiveRadarSeeker)
    } else if n == 211812387 {
        Some(MissileComponentKey::SteerableActiveRadarSeeker)
    } else if n == 211812396 {
        Some(MissileComponentKey::SteerableExtendedActiveRadarSeeker)
    } else if n == 251658276 {
        Some(MissileComponentKey::FixedSemiActiveRadarSeeker)
    } else if n == 251658273 {
        Some(MissileComponentKey::FixedAntiRadiationSeeker)
    } else if n == 211812380 {
        Some(MissileComponentKey::ElectroOpticalSeeker)
    } else if n == 224395288 {
        Some(MissileComponentKey::WakeHomingSeeker)
    } else if n == 226492437 {
        Some(MissileComponentKey::ColdGasBottle)
    } else if n == 207618068 {
        Some(MissileComponentKey::DecoyLauncher)
    } else if n == 245366812 {
        Some(MissileComponentKey::ClusterDecoyLauncher)
    } else if n == 241172505 {
        Some(MissileComponentKey::FastStartupModule)
    } else if n == 239075347 {
        Some(MissileComponentKey::HardenedSkin)
    } else if n == 209715229 {
        Some(MissileComponentKey::RadarAbsorbentCoating)
    } else if n == 226492443 {
        Some(MissileComponentKey::SelfScreeningJammer)
    } else if n == 232783907 {
        Some(MissileComponentKey::BoostedSelfScreeningJammer)
    } else if n == 239075349 {
        Some(MissileComponentKey::DirectGuidance)
    } else if n == 245366805 {
        Some(MissileComponentKey::CruiseGuidance)
    } else if n == 67108879 {
        Some(MissileComponentKey::HEImpact)
    } else if n == 67108891 {
        Some(MissileComponentKey::HEKineticPenetrator)
    } else if n == 203423769 {
        Some(MissileComponentKey::BlastFragmentation)
    } else if n == 203423772 {
        Some(MissileComponentKey::BlastFragmentationEL)
    } else {
        None
    }
}

proof fn lemma_missile_component_key_save_key_fingerprint(k: MissileComponentKey)
    ensures
        missile_component_key_from_save_key_fingerprint(missile_component_key_save_key_fingerprint(k.spec_save_key())) == Some(k),
{
    match k {
        MissileComponentKey::CommandReceiver => {
            reveal_strlit("Stock/Command Receiver");
        },
        MissileComponentKey::FixedActiveRadarSeeker => {
            reveal_strlit("Stock/Fixed Active Radar Seeker");
        },
        MissileComponentKey::SteerableActiveRadarSeeker => {
            reveal_strlit("Stock/Steerable Active Radar Seeker");
        },
        MissileComponentKey::SteerableExtendedActiveRadarSeeker => {
            reveal_strlit("Stock/Steerable Extended Active Radar Seeker");
        },
        MissileComponentKey::FixedSemiActiveRadarSeeker => {
            reveal_strlit("Stock/Fixed Semi-Active Radar Seeker");
        },
        MissileComponentKey::FixedAntiRadiationSeeker => {
            reveal_strlit("Stock/Fixed Anti-Radiation Seeker");
        },
        MissileComponentKey::ElectroOpticalSeeker => {
            reveal_strlit("Stock/Electro-Optical Seeker");
        },
        MissileComponentKey::WakeHomingSeeker => {
            reveal_strlit("Stock/Wake-Homing Seeker");
        },
        MissileComponentKey::ColdGasBottle => {
            reveal_strlit("Stock/Cold Gas Bottle");
        },
        MissileComponentKey::DecoyLauncher => {
            reveal_strlit("Stock/Decoy Launcher");
        },
        MissileComponentKey::ClusterDecoyLauncher => {
            reveal_strlit("Stock/Cluster Decoy Launcher");
        },
        MissileComponentKey::FastStartupModule => {
            reveal_strlit("Stock/Fast Startup Module");
        },
        MissileComponentKey::HardenedSkin => {
            reveal_strlit("Stock/Hardened Skin");
        },
        MissileComponentKey::RadarAbsorbentCoating => {
            reveal_strlit("Stock/Radar Absorbent Coating");
        },
        MissileComponentKey::SelfScreeningJammer => {
            reveal_strlit("Stock/Self-Screening Jammer");
        },
        MissileComponentKey::BoostedSelfScreeningJammer => {
            reveal_strlit("Stock/Boosted Self-Screening Jammer");
        },
        MissileComponentKey::DirectGuidance => {
            reveal_strlit("Stock/Direct Guidance");
        },
        MissileComponentKey::CruiseGuidance => {
            reveal_strlit("Stock/Cruise Guidance");
        },
        MissileComponentKey::HEImpact => {
            reveal_strlit("Stock/HE Impact");
        },
        MissileComponentKey::HEKineticPenetrator => {
            reveal_strlit("Stock/HE Kinetic Penetrator");
        },
        MissileComponentKey::BlastFragmentation => {
            reveal_strlit("Stock/Blast Fragmentation");
        },
        MissileComponentKey::BlastFragmentationEL => {
            reveal_strlit("Stock/Blast Fragmentation EL");
        },
    }
}

/// No two `MissileComponentKey` values share a `save_key`.
pub proof fn lemma_missile_component_key_save_key_injective()
    ensures
        forall|a: MissileComponentKey, b: MissileComponentKey| a.spec_save_key() == b.spec_save_key() ==> a == b,
{
    assert forall|a: MissileComponentKey, b: MissileComponentKey| a.spec_save_key() == b.spec_save_key() implies a == b by {
        lemma_missile_component_key_save_key_fingerprint(a);
        lemma_missile_component_key_save_key_fingerprint(b);
    }
}

/// Parsing the text of a `MissileComponentKey` gives that `MissileComponentKey` back.
pub proof fn lemma_missile_component_key_round_trip(k: MissileComponentKey)
    ensures
        MissileComponentKey::spec_from_str(k.spec_save_key()) == Ok::<MissileComponentKey, InvalidKey>(k),
{
    lemma_missile_component_key_save_key_injective();
}

} // verus!

verus! {

impl MissileComponentKey {
    pub open spec fn spec_to_seeker_key(self) -> Option<SeekerKey> {
        match self {
            MissileComponentKey::CommandReceiver => Some(SeekerKey::Command),
            MissileComponentKey::FixedActiveRadarSeeker => Some(SeekerKey::FixedActiveRadar),
            MissileComponentKey::SteerableActiveRadarSeeker => Some(SeekerKey::SteerableActiveRadar),
            MissileComponentKey::SteerableExtendedActiveRadarSeeker => Some(SeekerKey::SteerableExtendedActiveRadar),
            MissileComponentKey::FixedSemiActiveRadarSeeker => Some(SeekerKey::FixedSemiActiveRadar),
            MissileComponentKey::FixedAntiRadiationSeeker => Some(SeekerKey::FixedAntiRadiation),
            MissileComponentKey::ElectroOpticalSeeker => Some(SeekerKey::ElectroOptical),
            MissileComponentKey::WakeHomingSeeker => Some(SeekerKey::WakeHoming),
            _ => None,
        }
    }

    /// The seeker this component is, if it is one.
    pub fn to_seeker_key(self) -> (r: Option<SeekerKey>)
        ensures
            r == self.spec_to_seeker_key(),
    {
        match self {
            MissileComponentKey::CommandReceiver => Some(SeekerKey::Command),
            MissileComponentKey::FixedActiveRadarSeeker => Some(SeekerKey::FixedActiveRadar),
            MissileComponentKey::SteerableActiveRadarSeeker => Some(SeekerKey::SteerableActiveRadar),
            MissileComponentKey::SteerableExtendedActiveRadarSeeker => Some(SeekerKey::SteerableExtendedActiveRadar),
            MissileComponentKey::FixedSemiActiveRadarSeeker => Some(SeekerKey::FixedSemiActiveRadar),
            MissileComponentKey::FixedAntiRadiationSeeker => Some(SeekerKey::FixedAntiRadiation),
            MissileComponentKey::ElectroOpticalSeeker => Some(SeekerKey::ElectroOptical),
            MissileComponentKey::WakeHomingSeeker => Some(SeekerKey::WakeHoming),
            _ => None,
        }
    }

    pub open spec fn spec_to_auxiliary_key(self) -> Option<AuxiliaryKey> {
        match self {
            MissileComponentKey::ColdGasBottle => Some(AuxiliaryKey::ColdGasBottle),
            MissileComponentKey::DecoyLauncher => Some(AuxiliaryKey::DecoyLauncher),
            MissileComponentKey::ClusterDecoyLauncher => Some(AuxiliaryKey::ClusterDecoyLauncher),
            MissileComponentKey::FastStartupModule => Some(AuxiliaryKey::FastStartupModule),
            MissileComponentKey::HardenedSkin => Some(AuxiliaryKey::HardenedSkin),
            MissileComponentKey::RadarAbsorbentCoating => Some(AuxiliaryKey::RadarAbsorbentCoating),
            MissileComponentKey::SelfScreeningJammer => Some(AuxiliaryKey::SelfScreeningJammer),
            MissileComponentKey::BoostedSelfScreeningJammer => Some(AuxiliaryKey::BoostedSelfScreeningJammer),
            _ => None,
        }
    }

    /// The auxiliary component this component is, if it is one.
    pub fn to_auxiliary_key(self) -> (r: Option<AuxiliaryKey>)
        ensures
            r == self.spec_to_auxiliary_key(),
    {
        match self {
            MissileComponentKey::ColdGasBottle => Some(AuxiliaryKey::ColdGasBottle),
            MissileComponentKey::DecoyLauncher => Some(AuxiliaryKey::DecoyLauncher),
            MissileComponentKey::ClusterDecoyLauncher => Some(AuxiliaryKey::ClusterDecoyLauncher),
            MissileComponentKey::FastStartupModule => Some(AuxiliaryKey::FastStartupModule),
            MissileComponentKey::HardenedSkin => Some(AuxiliaryKey::HardenedSkin),
            MissileComponentKey::RadarAbsorbentCoating => Some(AuxiliaryKey::RadarAbsorbentCoating),
            MissileComponentKey::SelfScreeningJammer => Some(AuxiliaryKey::SelfScreeningJammer),
            MissileComponentKey::BoostedSelfScreeningJammer => Some(AuxiliaryKey::BoostedSelfScreeningJammer),
            _ => None,
        }
    }

    pub open spec fn spec_to_avionics_key(self) -> Option<AvionicsKey> {
        match self {
            MissileComponentKey::DirectGuidance => Some(AvionicsKey::DirectGuidance),
            MissileComponentKey::CruiseGuidance => Some(AvionicsKey::CruiseGuidance),
            _ => None,
        }
    }

    /// The avionics package this component is, if it is one.
    pub fn to_avionics_key(self) -> (r: Option<AvionicsKey>)
        ensures
            r == self.spec_to_avionics_key(),
    {
        match self {
            MissileComponentKey::DirectGuidance => Some(AvionicsKey::DirectGuidance),
            MissileComponentKey::CruiseGuidance => Some(AvionicsKey::CruiseGuidance),
            _ => None,
        }
    }

    pub open spec fn spec_to_warhead_key(self) -> Option<WarheadKey> {
        match self {
            MissileComponentKey::HEImpact => Some(WarheadKey::HEImpact),
            MissileComponentKey::HEKineticPenetrator => Some(WarheadKey::HEKineticPenetrator),
            MissileComponentKey::BlastFragmentation => Some(WarheadKey::BlastFragmentation),
            MissileComponentKey::BlastFragmentationEL => Some(WarheadKey::BlastFragmentationEL),
            _ => None,
        }
    }

    /// The warhead this component is, if it is one.
    pub fn to_warhead_key(self) -> (r: Option<WarheadKey>)
        ensures
            r == self.spec_to_warhead_key(),
    {
        match self {
            MissileComponentKey::HEImpact => Some(WarheadKey::HEImpact),
            MissileComponentKey::HEKineticPenetrator => Some(WarheadKey::HEKineticPenetrator),
            MissileComponentKey::BlastFragmentation => Some(WarheadKey::BlastFragmentation),
            MissileComponentKey::BlastFragmentationEL => Some(WarheadKey::BlastFragmentationEL),
            _ => None,
        }
    }

}

/// A missile component saves under the key of the auxiliary component,
/// avionics package or warhead that it is.
pub proof fn lemma_missile_component_save_keys(k: MissileComponentKey)
    ensures
        k.spec_to_auxiliary_key() matches Some(a) ==> k.spec_save_key() == a.spec_save_key(),
        k.spec_to_avionics_key() matches Some(a) ==> k.spec_save_key() == a.spec_save_key(),
        k.spec_to_warhead_key() matches Some(w) ==> k.spec_save_key() == w.spec_save_key(),
{
}

/// Every missile component is exactly one of a seeker, an auxiliary component,
/// an avionics package or a warhead.
pub proof fn lemma_missile_component_partition(k: MissileComponentKey)
    ensures
        (k.spec_to_seeker_key() is Some) as int + (k.spec_to_auxiliary_key() is Some) as int
            + (k.spec_to_avionics_key() is Some) as int + (k.spec_to_warhead_key() is Some) as int == 1,
{
}

/// Which missile sizes a defensive missile engages.
#[derive(Debug, Clone, Copy, PartialEq, Eq, Structural)]
pub struct MissileSizeMask {
    pub size1: bool,
    pub size2: bool,
    pub size3: bool,
}

impl MissileSizeMask {
    /// The mask stored in bits 3 (size 1), 2 (size 2) and 1 (size 3) of `b`.
    pub open spec fn spec_from_u8(b: u8) -> MissileSizeMask {
        MissileSizeMask { size1: (b >> 3u8) & 1u8 == 1u8, size2: (b >> 2u8) & 1u8 == 1u8, size3: (b >> 1u8) & 1u8 == 1u8 }
    }

    /// The byte with bit 3 set for size 1, bit 2 for size 2 and bit 1 for size 3.
    pub open spec fn spec_to_u8(self) -> u8 {
        (if self.size1 { 8u8 } else { 0u8 }) | (if self.size2 { 4u8 } else { 0u8 }) | (if self.size3 { 2u8 } else { 0u8 })
    }

    /// The mask stored in bits 3 (size 1), 2 (size 2) and 1 (size 3) of `b`.
    pub fn from_u8(b: u8) -> (r: MissileSizeMask)
        ensures
            r == Self::spec_from_u8(b),
    {
        MissileSizeMask { size1: (b >> 3u8) & 1u8 == 1u8, size2: (b >> 2u8) & 1u8 == 1u8, size3: (b >> 1u8) & 1u8 == 1u8 }
    }

    /// The byte with bit 3 set for size 1, bit 2 for size 2 and bit 1 for size 3.
    pub fn to_u8(self) -> (r: u8)
        ensures
            r == self.spec_to_u8(),
    {
        (if self.size1 { 8u8 } else { 0u8 }) | (if self.size2 { 4u8 } else { 0u8 }) | (if self.size3 { 2u8 } else { 0u8 })
    }

    pub open spec fn spec_get(self, size: MissileSize) -> bool {
        match size {
            MissileSize::Size1 => self.size1,
            MissileSize::Size2 => self.size2,
            MissileSize::Size3 => self.size3,
        }
    }

    /// Whether missiles of `size` are engaged.
    pub fn get(&self, size: MissileSize) -> (r: bool)
        ensures
            r == self.spec_get(size),
    {
        match size {
            MissileSize::Size1 => self.size1,
            MissileSize::Size2 => self.size2,
            MissileSize::Size3 => self.size3,
        }
    }
}

impl Default for MissileSizeMask {
    /// Sizes 2 and 3, not size 1.
    fn default() -> (r: MissileSizeMask)
        ensures
            r == (MissileSizeMask { size1: false, size2: true, size3: true }),
    {
        MissileSizeMask { size1: false, size2: true, size3: true }
    }
}

proof fn lemma_size_bits(a: bool, b: bool, c: bool)
    by (bit_vector)
    ensures
        ((((if a { 8u8 } else { 0u8 }) | (if b { 4u8 } else { 0u8 }) | (if c { 2u8 } else { 0u8 })) >> 3u8) & 1u8 == 1u8) == a,
        ((((if a { 8u8 } else { 0u8 }) | (if b { 4u8 } else { 0u8 }) | (if c { 2u8 } else { 0u8 })) >> 2u8) & 1u8 == 1u8) == b,
        ((((if a { 8u8 } else { 0u8 }) | (if b { 4u8 } else { 0u8 }) | (if c { 2u8 } else { 0u8 })) >> 1u8) & 1u8 == 1u8) == c,
{
}

proof fn lemma_byte_bits(x: u8)
    by (bit_vector)
    ensures
        ((if (x >> 3u8) & 1u8 == 1u8 { 8u8 } else { 0u8 }) | (if (x >> 2u8) & 1u8 == 1u8 { 4u8 } else { 0u8 })
            | (if (x >> 1u8) & 1u8 == 1u8 { 2u8 } else { 0u8 })) == x & 14u8,
{
}

/// A mask survives a trip through its byte.
pub proof fn lemma_missile_size_mask_round_trip(m: MissileSizeMask)
    ensures
        MissileSizeMask::spec_from_u8(m.spec_to_u8()) == m,
{
    lemma_size_bits(m.size1, m.size2, m.size3);
}

/// A byte read as a mask and written back keeps bits 1 to 3 and loses the others.
pub proof fn lemma_missile_size_byte_round_trip(b: u8)
    ensures
        MissileSizeMask::spec_from_u8(b).spec_to_u8() == b & 14u8,
{
    lemma_byte_bits(b);
}

/// A character that cannot appear in a missile size mask.
#[derive(Debug, Clone, Copy)]
pub struct InvalidMissileSizeMask(pub char);

/// A three-dimensional vector.
#[derive(Debug, Clone, Copy, PartialEq, Eq, Structural, PartialOrd, Ord, Hash, Default)]
pub struct Vector3<T> {
    pub x: T,
    pub y: T,
    pub z: T,
}

impl<T: Copy> Vector3<T> {
    /// The vector with every coordinate `v`.
    pub fn splat(v: T) -> (r: Self)
        ensures
            r.x == v && r.y == v && r.z == v,
    {
        Vector3 { x: v, y: v, z: v }
    }
}

/// A two-dimensional vector.
#[derive(Debug, Clone, Copy, PartialEq, Eq, Structural, PartialOrd, Ord, Hash, Default)]
pub struct Vector2<T> {
    pub x: T,
    pub y: T,
}

impl<T: Copy> Vector2<T> {
    /// The vector with both coordinates `v`.
    pub fn splat(v: T) -> (r: Self)
        ensures
            r.x == v && r.y == v,
    {
        Vector2 { x: v, y: v }
    }
}

/// The point costs of a fleet, by what they are spent on.
#[derive(Debug, Clone, Copy, PartialEq, Eq, Structural, Hash, Default)]
pub struct Costs {
    pub hulls: usize,
    pub components: usize,
    pub ammunition: usize,
    pub missiles: usize,
}

impl Costs {
    pub open spec fn spec_total(self) -> int {
        self.hulls + self.components + self.ammunition + self.missiles
    }

    /// The sum of all four costs.
    pub fn total(self) -> (r: usize)
        requires
            self.spec_total() <= usize::MAX,
        ensures
            r == self.spec_total(),
    {
        self.hulls + self.components + self.ammunition + self.missiles
    }

    /// The costs of both, added category by category.
    pub fn add(self, rhs: Costs) -> (r: Costs)
        requires
            self.hulls + rhs.hulls <= usize::MAX,
            self.components + rhs.components <= usize::MAX,
            self.ammunition + rhs.ammunition <= usize::MAX,
            self.missiles + rhs.missiles <= usize::MAX,
        ensures
            r.hulls == self.hulls + rhs.hulls,
            r.components == self.components + rhs.components,
            r.ammunition == self.ammunition + rhs.ammunition,
            r.missiles == self.missiles + rhs.missiles,
    {
        Costs {
            hulls: self.hulls + rhs.hulls,
            components: self.components + rhs.components,
            ammunition: self.ammunition + rhs.ammunition,
            missiles: self.missiles + rhs.missiles,
        }
    }
}

/// The total of two costs added together is the sum of their totals.
pub proof fn lemma_costs_total_add(a: Costs, b: Costs, c: Costs)
    requires
        c.hulls == a.hulls + b.hulls,
        c.components == a.components + b.components,
        c.ammunition == a.ammunition + b.ammunition,
        c.missiles == a.missiles + b.missiles,
    ensures
        c.spec_total() == a.spec_total() + b.spec_total(),
{
}

} // verus!

verus! {

/// How a defensive missile picks its targets.
#[derive(Debug, Clone, Copy, PartialEq, Eq, Structural)]
pub struct DefensiveDoctrine {
    pub target_size_mask: MissileSizeMask,
    pub target_type: DefensiveTargetType,
    pub target_size_ordering: SizeOrdering,
    pub salvo_size: usize,
    pub farthest_first: bool,
}

impl DefensiveDoctrine {
    /// The settings saved for missiles that are not defensive.
    pub open spec fn spec_default() -> DefensiveDoctrine {
        DefensiveDoctrine {
            target_size_mask: MissileSizeMask { size1: false, size2: true, size3: true },
            target_type: DefensiveTargetType::All,
            target_size_ordering: SizeOrdering::Descending,
            salvo_size: 0,
            farthest_first: false,
        }
    }
}

impl Default for DefensiveDoctrine {
    /// Sizes 2 and 3, all target types, largest first, no salvo, nearest
    /// first: the settings saved for missiles that are not defensive.
    fn default() -> (r: DefensiveDoctrine)
        ensures
            r == DefensiveDoctrine::spec_default(),
    {
        DefensiveDoctrine {
            target_size_mask: MissileSizeMask::default(),
            target_type: DefensiveTargetType::All,
            target_size_ordering: SizeOrdering::Descending,
            salvo_size: 0,
            farthest_first: false,
        }
    }
}

/// What a magazine holds: a munition (stock or custom missile) and its count.
#[derive(Debug, Clone, PartialEq, Eq)]
pub struct MagazineSaveData {
    pub magazine_key: crate::format::key::Key,
    /// The munition's save key, or the name of a custom missile.
    pub munition_key: String,
    pub quantity: usize,
}

/// A named group of weapons, by their socket keys.
#[derive(Debug, Clone, PartialEq, Eq)]
pub struct WeaponGroup {
    pub name: String,
    pub members: Vec<crate::format::key::Key>,
}

/// The extra data a component saves in its socket.
#[derive(Debug, Clone, PartialEq, Eq)]
pub enum ComponentData {
    BulkMagazineData { load: Vec<MagazineSaveData> },
    CellLauncherData { missile_load: Vec<MagazineSaveData> },
    ResizableCellLauncherData { missile_load: Vec<MagazineSaveData>, configured_size: Vector2<usize> },
    DeceptionComponentData { identity_option: usize },
}

impl ComponentData {
    /// The magazine contents this data holds, if any.
    pub open spec fn spec_load(self) -> Option<Seq<MagazineSaveData>> {
        match self {
            ComponentData::BulkMagazineData { load } => Some(load@),
            ComponentData::CellLauncherData { missile_load } => Some(missile_load@),
            ComponentData::ResizableCellLauncherData { missile_load, .. } => Some(missile_load@),
            ComponentData::DeceptionComponentData { .. } => None,
        }
    }

    /// The magazine contents this data holds, if any.
    pub fn get_load(&self) -> (r: Option<&[MagazineSaveData]>)
        ensures
            match self.spec_load() {
                Some(l) => r matches Some(s) && s@ == l,
                None => r is None,
            },
    {
        match self {
            ComponentData::BulkMagazineData { load } => Some(load.as_slice()),
            ComponentData::CellLauncherData { missile_load } => Some(missile_load.as_slice()),
            ComponentData::ResizableCellLauncherData { missile_load, .. } => Some(missile_load.as_slice()),
            ComponentData::DeceptionComponentData { .. } => None,
        }
    }

    /// The magazine contents this data holds, if any, to change in place.
    pub fn get_load_mut(&mut self) -> (r: Option<&mut Vec<MagazineSaveData>>)
        ensures
            match *old(self) {
                ComponentData::BulkMagazineData { load } => r matches Some(v) && *v == load
                    && *final(self) == (ComponentData::BulkMagazineData { load: *final(v) }),
                ComponentData::CellLauncherData { missile_load } => r matches Some(v) && *v == missile_load
                    && *final(self) == (ComponentData::CellLauncherData { missile_load: *final(v) }),
                ComponentData::ResizableCellLauncherData { missile_load, configured_size } => r matches Some(v)
                    && *v == missile_load && *final(self) == (ComponentData::ResizableCellLauncherData {
                        missile_load: *final(v),
                        configured_size,
                    }),
                ComponentData::DeceptionComponentData { .. } => r is None && *final(self) == *old(self),
            },
    {
        match self {
            ComponentData::BulkMagazineData { load } => Some(load),
            ComponentData::CellLauncherData { missile_load } => Some(missile_load),
            ComponentData::ResizableCellLauncherData { missile_load, .. } => Some(missile_load),
            ComponentData::DeceptionComponentData { .. } => None,
        }
    }

    /// The magazine contents this data holds, if any.
    pub fn into_load(self) -> (r: Option<Vec<MagazineSaveData>>)
        ensures
            match self.spec_load() {
                Some(l) => r matches Some(v) && v@ == l,
                None => r is None,
            },
    {
        match self {
            ComponentData::BulkMagazineData { load } => Some(load),
            ComponentData::CellLauncherData { missile_load } => Some(missile_load),
            ComponentData::ResizableCellLauncherData { missile_load, .. } => Some(missile_load),
            ComponentData::DeceptionComponentData { .. } => None,
        }
    }
}

/// Why a fleet file could not be read.
#[derive(Debug, PartialEq, Eq)]
pub enum FormatError {
    XmlError(crate::xml::Error),
    UnknownHullConfigType(String),
    UnknownComponentDataType(String),
    UnknownMissileSettingsType(String),
}

/// The root element of a document.
#[derive(Debug, Clone, Copy, PartialEq, Eq, PartialOrd, Ord)]
pub struct Root<T> {
    pub element: T,
}

} // verus!
