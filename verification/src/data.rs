pub mod components;
pub mod hulls;
pub mod missiles;
pub mod munitions;

use vstd::prelude::*;
use crate::text::{chars_of, chars_eq_str};

verus! {

/// One of the two sides that fleets belong to.
#[derive(Debug, Clone, Copy, PartialEq, Eq, Structural, PartialOrd, Ord, Hash)]
pub enum Faction {
    Alliance,
    Protectorate,
}

impl Faction {
    /// Every `Faction`, in declaration order.
    pub open spec fn spec_values() -> Seq<Faction> {
        seq![Faction::Alliance, Faction::Protectorate]
    }

    /// Every `Faction`, in declaration order.
    pub fn values() -> (v: Vec<Faction>)
        ensures
            v@ == Self::spec_values(),
    {
        vec![Faction::Alliance, Faction::Protectorate]
    }

    pub open spec fn spec_save_key(self) -> Seq<char> {
        match self {
            Faction::Alliance => "Stock/Alliance"@,
            Faction::Protectorate => "Stock/Protectorate"@,
        }
    }

    /// The key under which fleet files name this faction.
    pub fn save_key(self) -> (r: &'static str)
        ensures
            r@ == self.spec_save_key(),
    {
        match self {
            Faction::Alliance => "Stock/Alliance",
            Faction::Protectorate => "Stock/Protectorate",
        }
    }

    /// What [`Faction::from_str`] gives for the text `s`: the value whose
    /// `save_key` is `s`, or the error when there is none.
    pub open spec fn spec_from_str(s: Seq<char>) -> Result<Faction, InvalidKey> {
        if exists|k: Faction| k.spec_save_key() == s {
            Ok(choose|k: Faction| k.spec_save_key() == s)
        } else {
            Err(InvalidKey::Faction)
        }
    }

    /// Parses the text that [`Faction::save_key`] gives.
    pub fn from_str(s: &str) -> (r: Result<Faction, InvalidKey>)
        ensures
            r == Self::spec_from_str(s@),
    {
        proof { lemma_faction_save_key_injective(); }
        let chars = chars_of(s);
        if chars_eq_str(&chars, "Stock/Alliance") {
            proof { assert(Faction::Alliance.spec_save_key() == s@); }
            return Ok(Faction::Alliance);
        }
        if chars_eq_str(&chars, "Stock/Protectorate") {
            proof { assert(Faction::Protectorate.spec_save_key() == s@); }
            return Ok(Faction::Protectorate);
        }
        Err(InvalidKey::Faction)
    }
}

spec fn faction_save_key_fingerprint(s: Seq<char>) -> int {
    s.len() as int
}

spec fn faction_from_save_key_fingerprint(n: int) -> Option<Faction> {
    if n == 14 {
        Some(Faction::Alliance)
    } else if n == 18 {
        Some(Faction::Protectorate)
    } else {
        None
    }
}

proof fn lemma_faction_save_key_fingerprint(k: Faction)
    ensures
        faction_from_save_key_fingerprint(faction_save_key_fingerprint(k.spec_save_key())) == Some(k),
{
    match k {
        Faction::Alliance => {
            reveal_strlit("Stock/Alliance");
        },
        Faction::Protectorate => {
            reveal_strlit("Stock/Protectorate");
        },
    }
}

/// No two `Faction` values share a `save_key`.
pub proof fn lemma_faction_save_key_injective()
    ensures
        forall|a: Faction, b: Faction| a.spec_save_key() == b.spec_save_key() ==> a == b,
{
    assert forall|a: Faction, b: Faction| a.spec_save_key() == b.spec_save_key() implies a == b by {
        lemma_faction_save_key_fingerprint(a);
        lemma_faction_save_key_fingerprint(b);
    }
}

/// Parsing the text of a `Faction` gives that `Faction` back.
pub proof fn lemma_faction_round_trip(k: Faction)
    ensures
        Faction::spec_from_str(k.spec_save_key()) == Ok::<Faction, InvalidKey>(k),
{
    lemma_faction_save_key_injective();
}

/// The direction a hull socket faces.
#[derive(Debug, Clone, Copy, PartialEq, Eq, Structural, PartialOrd, Ord, Hash)]
pub enum Direction {
    Up,
    Down,
    Left,
    Right,
    Fore,
    Aft,
}

impl Direction {
    /// Every `Direction`, in declaration order.
    pub open spec fn spec_values() -> Seq<Direction> {
        seq![Direction::Up, Direction::Down, Direction::Left, Direction::Right, Direction::Fore, Direction::Aft]
    }

    /// Every `Direction`, in declaration order.
    pub fn values() -> (v: Vec<Direction>)
        ensures
            v@ == Self::spec_values(),
    {
        vec![Direction::Up, Direction::Down, Direction::Left, Direction::Right, Direction::Fore, Direction::Aft]
    }

}

/// A ship statistic that hulls and components can modify.
#[derive(Debug, Clone, Copy, PartialEq, Eq, Structural, PartialOrd, Ord, Hash)]
pub enum BuffKey {
    AngularThrust,
    BurstDurationBeam,
    BurstDurationEmitters,
    CasemateElevationRate,
    CasemateTraverseRate,
    CatastrophicEventProbCellLauncher,
    CatastrophicEventProbMagazine,
    CatastrophicEventProbReactor,
    CooldownTimeBeam,
    CooldownTimeEmitters,
    CooldownTimeEnergy,
    CrewVulnerability,
    DamageMultiplierBeam,
    ElevationRate,
    FlankDamageProbability,
    IdentificationDifficulty,
    IntelligenceAccuracy,
    IntelligenceEffort,
    JammingLobAccuracy,
    LauncherReloadTime,
    LinearThrust,
    MaxRepair,
    MissileProgrammingChannels,
    MissileProgrammingSpeed,
    NoiseFiltering,
    OverheatDamageChanceEmitters,
    OverheatDamageChanceBeam,
    PositionalError,
    PowerplantEfficiency,
    RadarSignature,
    RecycleTime,
    RecycleTimeEnergy,
    ReloadTime,
    ReloadTimeEnergy,
    RepairSpeed,
    RepairTeamMoveSpeed,
    Sensitivity,
    Spread,
    TopSpeed,
    TransmitPower,
    TraverseRate,
    TurnRate,
    VelocityError,
}

impl BuffKey {
    /// Every `BuffKey`, in declaration order.
    pub open spec fn spec_values() -> Seq<BuffKey> {
        seq![BuffKey::AngularThrust, BuffKey::BurstDurationBeam, BuffKey::BurstDurationEmitters, BuffKey::CasemateElevationRate, BuffKey::CasemateTraverseRate, BuffKey::CatastrophicEventProbCellLauncher, BuffKey::CatastrophicEventProbMagazine, BuffKey::CatastrophicEventProbReactor, BuffKey::CooldownTimeBeam, BuffKey::CooldownTimeEmitters, BuffKey::CooldownTimeEnergy, BuffKey::CrewVulnerability, BuffKey::DamageMultiplierBeam, BuffKey::ElevationRate, BuffKey::FlankDamageProbability, BuffKey::IdentificationDifficulty, BuffKey::IntelligenceAccuracy, BuffKey::IntelligenceEffort, BuffKey::JammingLobAccuracy, BuffKey::LauncherReloadTime, BuffKey::LinearThrust, BuffKey::MaxRepair, BuffKey::MissileProgrammingChannels, BuffKey::MissileProgrammingSpeed, BuffKey::NoiseFiltering, BuffKey::OverheatDamageChanceEmitters, BuffKey::OverheatDamageChanceBeam, BuffKey::PositionalError, BuffKey::PowerplantEfficiency, BuffKey::RadarSignature, BuffKey::RecycleTime, BuffKey::RecycleTimeEnergy, BuffKey::ReloadTime, BuffKey::ReloadTimeEnergy, BuffKey::RepairSpeed, BuffKey::RepairTeamMoveSpeed, BuffKey::Sensitivity, BuffKey::Spread, BuffKey::TopSpeed, BuffKey::TransmitPower, BuffKey::TraverseRate, BuffKey::TurnRate, BuffKey::VelocityError]
    }

    /// Every `BuffKey`, in declaration order.
    pub fn values() -> (v: Vec<BuffKey>)
        ensures
            v@ == Self::spec_values(),
    {
        vec![BuffKey::AngularThrust, BuffKey::BurstDurationBeam, BuffKey::BurstDurationEmitters, BuffKey::CasemateElevationRate, BuffKey::CasemateTraverseRate, BuffKey::CatastrophicEventProbCellLauncher, BuffKey::CatastrophicEventProbMagazine, BuffKey::CatastrophicEventProbReactor, BuffKey::CooldownTimeBeam, BuffKey::CooldownTimeEmitters, BuffKey::CooldownTimeEnergy, BuffKey::CrewVulnerability, BuffKey::DamageMultiplierBeam, BuffKey::ElevationRate, BuffKey::FlankDamageProbability, BuffKey::IdentificationDifficulty, BuffKey::IntelligenceAccuracy, BuffKey::IntelligenceEffort, BuffKey::JammingLobAccuracy, BuffKey::LauncherReloadTime, BuffKey::LinearThrust, BuffKey::MaxRepair, BuffKey::MissileProgrammingChannels, BuffKey::MissileProgrammingSpeed, BuffKey::NoiseFiltering, BuffKey::OverheatDamageChanceEmitters, BuffKey::OverheatDamageChanceBeam, BuffKey::PositionalError, BuffKey::PowerplantEfficiency, BuffKey::RadarSignature, BuffKey::RecycleTime, BuffKey::RecycleTimeEnergy, BuffKey::ReloadTime, BuffKey::ReloadTimeEnergy, BuffKey::RepairSpeed, BuffKey::RepairTeamMoveSpeed, BuffKey::Sensitivity, BuffKey::Spread, BuffKey::TopSpeed, BuffKey::TransmitPower, BuffKey::TraverseRate, BuffKey::TurnRate, BuffKey::VelocityError]
    }

}

} // verus!

verus! {

/// The error given when a save key or other stored text names nothing known.
#[derive(Debug, Clone, Copy, PartialEq, Eq, Structural)]
pub enum InvalidKey {
    Faction,
    Component,
    Hull,
    Seeker,
    MissileBody,
    MissileComponent,
    MissileSizeMask,
    MissileRole,
    AntiRadiationTargetType,
    DefensiveTargetType,
    Maneuvers,
    Munition,
    SizeOrdering,
}

impl InvalidKey {
    pub open spec fn spec_message(self) -> Seq<char> {
        match self {
            InvalidKey::Faction => "invalid faction key"@,
            InvalidKey::Component => "invalid component key"@,
            InvalidKey::Hull => "invalid hull key"@,
            InvalidKey::Seeker => "invalid seeker key"@,
            InvalidKey::MissileBody => "invalid missile body key"@,
            InvalidKey::MissileComponent => "invalid missile component key"@,
            InvalidKey::MissileSizeMask => "invalid missile size mask"@,
            InvalidKey::MissileRole => "invalid missile role"@,
            InvalidKey::AntiRadiationTargetType => "invalid target type"@,
            InvalidKey::DefensiveTargetType => "invalid target type"@,
            InvalidKey::Maneuvers => "invalid maneuvers"@,
            InvalidKey::Munition => "invalid munition key"@,
            InvalidKey::SizeOrdering => "invalid ordering"@,
        }
    }

    /// A readable description of this error.
    pub fn message(self) -> (r: &'static str)
        ensures
            r@ == self.spec_message(),
    {
        match self {
            InvalidKey::Faction => "invalid faction key",
            InvalidKey::Component => "invalid component key",
            InvalidKey::Hull => "invalid hull key",
            InvalidKey::Seeker => "invalid seeker key",
            InvalidKey::MissileBody => "invalid missile body key",
            InvalidKey::MissileComponent => "invalid missile component key",
            InvalidKey::MissileSizeMask => "invalid missile size mask",
            InvalidKey::MissileRole => "invalid missile role",
            InvalidKey::AntiRadiationTargetType => "invalid target type",
            InvalidKey::DefensiveTargetType => "invalid target type",
            InvalidKey::Maneuvers => "invalid maneuvers",
            InvalidKey::Munition => "invalid munition key",
            InvalidKey::SizeOrdering => "invalid ordering",
        }
    }
}

impl Faction {
    pub open spec fn spec_name(self) -> Seq<char> {
        match self {
            Faction::Alliance => "Shelter Alliance"@,
            Faction::Protectorate => "Outlying Systems Protectorate"@,
        }
    }

    /// The full name of this faction.
    pub fn name(self) -> (r: &'static str)
        ensures
            r@ == self.spec_name(),
    {
        match self {
            Faction::Alliance => "Shelter Alliance",
            Faction::Protectorate => "Outlying Systems Protectorate",
        }
    }
}

/// The size class of a missile.
#[derive(Debug, Clone, Copy, PartialEq, Eq, Structural, PartialOrd, Ord, Hash)]
pub enum MissileSize {
    Size1,
    Size2,
    Size3,
}

/// The error given when text names no missile size.
#[derive(Debug, Clone, Copy, PartialEq, Eq, Structural, Default)]
pub struct ParseMissileSizeError;

impl MissileSize {
    /// The number of this size class (1, 2 or 3).
    pub open spec fn spec_num(self) -> nat {
        match self {
            MissileSize::Size1 => 1,
            MissileSize::Size2 => 2,
            MissileSize::Size3 => 3,
        }
    }

    /// The size class numbered `num`, if there is one.
    pub fn from_num(num: usize) -> (r: Option<MissileSize>)
        ensures
            r matches Some(s) ==> s.spec_num() == num,
            r is None <==> !(1 <= num <= 3),
    {
        match num {
            1 => Some(MissileSize::Size1),
            2 => Some(MissileSize::Size2),
            3 => Some(MissileSize::Size3),
            _ => None,
        }
    }

    /// The size that `s` names: `"size1"` or `"1"`, and so on.
    pub open spec fn spec_from_str(s: Seq<char>) -> Result<MissileSize, ParseMissileSizeError> {
        if s == "size1"@ || s == "1"@ {
            Ok(MissileSize::Size1)
        } else if s == "size2"@ || s == "2"@ {
            Ok(MissileSize::Size2)
        } else if s == "size3"@ || s == "3"@ {
            Ok(MissileSize::Size3)
        } else {
            Err(ParseMissileSizeError)
        }
    }

    /// Parses `"size1"`/`"1"`, `"size2"`/`"2"` or `"size3"`/`"3"`.
    pub fn from_str(s: &str) -> (r: Result<MissileSize, ParseMissileSizeError>)
        ensures
            r == Self::spec_from_str(s@),
    {
        let chars = chars_of(s);
        if chars_eq_str(&chars, "size1") || chars_eq_str(&chars, "1") {
            Ok(MissileSize::Size1)
        } else if chars_eq_str(&chars, "size2") || chars_eq_str(&chars, "2") {
            Ok(MissileSize::Size2)
        } else if chars_eq_str(&chars, "size3") || chars_eq_str(&chars, "3") {
            Ok(MissileSize::Size3)
        } else {
            Err(ParseMissileSizeError)
        }
    }
}

} // verus!
