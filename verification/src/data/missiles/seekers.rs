pub mod matrix;
pub mod strategy;

use vstd::prelude::*;
use crate::data::{Faction, InvalidKey};
use crate::text::{chars_of, chars_eq_str};

verus! {

/// A seeker that can be chosen in game.
#[derive(Debug, Clone, Copy, PartialEq, Eq, Structural, PartialOrd, Ord, Hash)]
pub enum SeekerKey {
    Command,
    FixedActiveRadar,
    SteerableActiveRadar,
    SteerableExtendedActiveRadar,
    FixedSemiActiveRadar,
    FixedAntiRadiation,
    FixedHomeOnJam,
    ElectroOptical,
    WakeHoming,
}

impl SeekerKey {
    /// Every `SeekerKey`, in declaration order.
    pub open spec fn spec_values() -> Seq<SeekerKey> {
        seq![SeekerKey::Command, SeekerKey::FixedActiveRadar, SeekerKey::SteerableActiveRadar, SeekerKey::SteerableExtendedActiveRadar, SeekerKey::FixedSemiActiveRadar, SeekerKey::FixedAntiRadiation, SeekerKey::FixedHomeOnJam, SeekerKey::ElectroOptical, SeekerKey::WakeHoming]
    }

    /// Every `SeekerKey`, in declaration order.
    pub fn values() -> (v: Vec<SeekerKey>)
        ensures
            v@ == Self::spec_values(),
    {
        vec![SeekerKey::Command, SeekerKey::FixedActiveRadar, SeekerKey::SteerableActiveRadar, SeekerKey::SteerableExtendedActiveRadar, SeekerKey::FixedSemiActiveRadar, SeekerKey::FixedAntiRadiation, SeekerKey::FixedHomeOnJam, SeekerKey::ElectroOptical, SeekerKey::WakeHoming]
    }

}

/// Describes a seeker's method of operation.
#[derive(Debug, Clone, Copy, PartialEq, Eq, Structural, PartialOrd, Ord, Hash)]
pub enum SeekerKind {
    Command,
    ActiveRadar,
    SemiActiveRadar,
    AntiRadiation,
    HomeOnJam,
    ElectroOptical,
    WakeHoming,
}

impl SeekerKind {
    /// Every `SeekerKind`, in declaration order.
    pub open spec fn spec_values() -> Seq<SeekerKind> {
        seq![SeekerKind::Command, SeekerKind::ActiveRadar, SeekerKind::SemiActiveRadar, SeekerKind::AntiRadiation, SeekerKind::HomeOnJam, SeekerKind::ElectroOptical, SeekerKind::WakeHoming]
    }

    /// Every `SeekerKind`, in declaration order.
    pub fn values() -> (v: Vec<SeekerKind>)
        ensures
            v@ == Self::spec_values(),
    {
        vec![SeekerKind::Command, SeekerKind::ActiveRadar, SeekerKind::SemiActiveRadar, SeekerKind::AntiRadiation, SeekerKind::HomeOnJam, SeekerKind::ElectroOptical, SeekerKind::WakeHoming]
    }

    pub open spec fn spec_to_str(self) -> Seq<char> {
        match self {
            SeekerKind::Command => "CMD"@,
            SeekerKind::ActiveRadar => "ACT(RADAR)"@,
            SeekerKind::SemiActiveRadar => "SAH(RADAR)"@,
            SeekerKind::AntiRadiation => "ARAD(RADAR)"@,
            SeekerKind::HomeOnJam => "HOJ(RADAR)"@,
            SeekerKind::ElectroOptical => "PSV(EO)"@,
            SeekerKind::WakeHoming => "PSV(WAKE)"@,
        }
    }

    /// A short label for this kind of seeker.
    pub fn to_str(self) -> (r: &'static str)
        ensures
            r@ == self.spec_to_str(),
    {
        match self {
            SeekerKind::Command => "CMD",
            SeekerKind::ActiveRadar => "ACT(RADAR)",
            SeekerKind::SemiActiveRadar => "SAH(RADAR)",
            SeekerKind::AntiRadiation => "ARAD(RADAR)",
            SeekerKind::HomeOnJam => "HOJ(RADAR)",
            SeekerKind::ElectroOptical => "PSV(EO)",
            SeekerKind::WakeHoming => "PSV(WAKE)",
        }
    }
}

spec fn seeker_kind_to_str_fingerprint(s: Seq<char>) -> int {
    s.len() as int
        + (if 0 < s.len() { s[0] as int } else { 0 }) * 2097152
}

spec fn seeker_kind_from_to_str_fingerprint(n: int) -> Option<SeekerKind> {
    if n == 140509187 {
        Some(SeekerKind::Command)
    } else if n == 136314890 {
        Some(SeekerKind::ActiveRadar)
    } else if n == 174063626 {
        Some(SeekerKind::SemiActiveRadar)
    } else if n == 136314891 {
        Some(SeekerKind::AntiRadiation)
    } else if n == 150994954 {
        Some(SeekerKind::HomeOnJam)
    } else if n == 167772167 {
        Some(SeekerKind::ElectroOptical)
    } else if n == 167772169 {
        Some(SeekerKind::WakeHoming)
    } else {
        None
    }
}

proof fn lemma_seeker_kind_to_str_fingerprint(k: SeekerKind)
    ensures
        seeker_kind_from_to_str_fingerprint(seeker_kind_to_str_fingerprint(k.spec_to_str())) == Some(k),
{
    match k {
        SeekerKind::Command => {
            reveal_strlit("CMD");
        },
        SeekerKind::ActiveRadar => {
            reveal_strlit("ACT(RADAR)");
        },
        SeekerKind::SemiActiveRadar => {
            reveal_strlit("SAH(RADAR)");
        },
        SeekerKind::AntiRadiation => {
            reveal_strlit("ARAD(RADAR)");
        },
        SeekerKind::HomeOnJam => {
            reveal_strlit("HOJ(RADAR)");
        },
        SeekerKind::ElectroOptical => {
            reveal_strlit("PSV(EO)");
        },
        SeekerKind::WakeHoming => {
            reveal_strlit("PSV(WAKE)");
        },
    }
}

/// No two `SeekerKind` values share a `to_str`.
pub proof fn lemma_seeker_kind_to_str_injective()
    ensures
        forall|a: SeekerKind, b: SeekerKind| a.spec_to_str() == b.spec_to_str() ==> a == b,
{
    assert forall|a: SeekerKind, b: SeekerKind| a.spec_to_str() == b.spec_to_str() implies a == b by {
        lemma_seeker_kind_to_str_fingerprint(a);
        lemma_seeker_kind_to_str_fingerprint(b);
    }
}

/// Whether a seeker finds targets or validates them.
#[derive(Debug, Clone, Copy, PartialEq, Eq, Structural, PartialOrd, Ord, Hash)]
pub enum SeekerMode {
    Targeting,
    Validation,
}

impl SeekerMode {
    /// Every `SeekerMode`, in declaration order.
    pub open spec fn spec_values() -> Seq<SeekerMode> {
        seq![SeekerMode::Targeting, SeekerMode::Validation]
    }

    /// Every `SeekerMode`, in declaration order.
    pub fn values() -> (v: Vec<SeekerMode>)
        ensures
            v@ == Self::spec_values(),
    {
        vec![SeekerMode::Targeting, SeekerMode::Validation]
    }

    pub open spec fn spec_to_str(self) -> Seq<char> {
        match self {
            SeekerMode::Targeting => "Targeting"@,
            SeekerMode::Validation => "Validation"@,
        }
    }

    /// The text under which fleet files store this mode.
    pub fn to_str(self) -> (r: &'static str)
        ensures
            r@ == self.spec_to_str(),
    {
        match self {
            SeekerMode::Targeting => "Targeting",
            SeekerMode::Validation => "Validation",
        }
    }

    /// What [`SeekerMode::from_str`] gives for the text `s`: the value whose
    /// `to_str` is `s`, or the error when there is none.
    pub open spec fn spec_from_str(s: Seq<char>) -> Result<SeekerMode, InvalidKey> {
        if exists|k: SeekerMode| k.spec_to_str() == s {
            Ok(choose|k: SeekerMode| k.spec_to_str() == s)
        } else {
            Err(InvalidKey::Seeker)
        }
    }

    /// Parses the text that [`SeekerMode::to_str`] gives.
    pub fn from_str(s: &str) -> (r: Result<SeekerMode, InvalidKey>)
        ensures
            r == Self::spec_from_str(s@),
    {
        proof { lemma_seeker_mode_to_str_injective(); }
        let chars = chars_of(s);
        if chars_eq_str(&chars, "Targeting") {
            proof { assert(SeekerMode::Targeting.spec_to_str() == s@); }
            return Ok(SeekerMode::Targeting);
        }
        if chars_eq_str(&chars, "Validation") {
            proof { assert(SeekerMode::Validation.spec_to_str() == s@); }
            return Ok(SeekerMode::Validation);
        }
        Err(InvalidKey::Seeker)
    }
}

spec fn seeker_mode_to_str_fingerprint(s: Seq<char>) -> int {
    s.len() as int
}

spec fn seeker_mode_from_to_str_fingerprint(n: int) -> Option<SeekerMode> {
    if n == 9 {
        Some(SeekerMode::Targeting)
    } else if n == 10 {
        Some(SeekerMode::Validation)
    } else {
        None
    }
}

proof fn lemma_seeker_mode_to_str_fingerprint(k: SeekerMode)
    ensures
        seeker_mode_from_to_str_fingerprint(seeker_mode_to_str_fingerprint(k.spec_to_str())) == Some(k),
{
    match k {
        SeekerMode::Targeting => {
            reveal_strlit("Targeting");
        },
        SeekerMode::Validation => {
            reveal_strlit("Validation");
        },
    }
}

/// No two `SeekerMode` values share a `to_str`.
pub proof fn lemma_seeker_mode_to_str_injective()
    ensures
        forall|a: SeekerMode, b: SeekerMode| a.spec_to_str() == b.spec_to_str() ==> a == b,
{
    assert forall|a: SeekerMode, b: SeekerMode| a.spec_to_str() == b.spec_to_str() implies a == b by {
        lemma_seeker_mode_to_str_fingerprint(a);
        lemma_seeker_mode_to_str_fingerprint(b);
    }
}

/// Parsing the text of a `SeekerMode` gives that `SeekerMode` back.
pub proof fn lemma_seeker_mode_round_trip(k: SeekerMode)
    ensures
        SeekerMode::spec_from_str(k.spec_to_str()) == Ok::<SeekerMode, InvalidKey>(k),
{
    lemma_seeker_mode_to_str_injective();
}

/// A countermeasure that a ship can employ against missiles.
#[derive(Debug, Clone, Copy, PartialEq, Eq, Structural, PartialOrd, Ord, Hash)]
pub enum Countermeasure {
    RadarJamming,
    CommsJamming,
    LaserDazzler,
    ChaffDecoy,
    FlareDecoy,
    ActiveDecoy,
    CutEngines,
    CutRadar,
}

impl Countermeasure {
    /// Every `Countermeasure`, in declaration order.
    pub open spec fn spec_values() -> Seq<Countermeasure> {
        seq![Countermeasure::RadarJamming, Countermeasure::CommsJamming, Countermeasure::LaserDazzler, Countermeasure::ChaffDecoy, Countermeasure::FlareDecoy, Countermeasure::ActiveDecoy, Countermeasure::CutEngines, Countermeasure::CutRadar]
    }

    /// Every `Countermeasure`, in declaration order.
    pub fn values() -> (v: Vec<Countermeasure>)
        ensures
            v@ == Self::spec_values(),
    {
        vec![Countermeasure::RadarJamming, Countermeasure::CommsJamming, Countermeasure::LaserDazzler, Countermeasure::ChaffDecoy, Countermeasure::FlareDecoy, Countermeasure::ActiveDecoy, Countermeasure::CutEngines, Countermeasure::CutRadar]
    }

    pub open spec fn spec_to_str(self) -> Seq<char> {
        match self {
            Countermeasure::RadarJamming => "Radar Jamming"@,
            Countermeasure::CommsJamming => "Comms Jamming"@,
            Countermeasure::LaserDazzler => "Laser Dazzler"@,
            Countermeasure::ChaffDecoy => "Chaff Decoy"@,
            Countermeasure::FlareDecoy => "Flare Decoy"@,
            Countermeasure::ActiveDecoy => "Active Decoy"@,
            Countermeasure::CutEngines => "Disable Engines"@,
            Countermeasure::CutRadar => "Disable Radar"@,
        }
    }

    /// A readable name of this countermeasure.
    pub fn to_str(self) -> (r: &'static str)
        ensures
            r@ == self.spec_to_str(),
    {
        match self {
            Countermeasure::RadarJamming => "Radar Jamming",
            Countermeasure::CommsJamming => "Comms Jamming",
            Countermeasure::LaserDazzler => "Laser Dazzler",
            Countermeasure::ChaffDecoy => "Chaff Decoy",
            Countermeasure::FlareDecoy => "Flare Decoy",
            Countermeasure::ActiveDecoy => "Active Decoy",
            Countermeasure::CutEngines => "Disable Engines",
            Countermeasure::CutRadar => "Disable Radar",
        }
    }
}

spec fn countermeasure_to_str_fingerprint(s: Seq<char>) -> int {
    s.len() as int
        + (if 0 < s.len() { s[0] as int } else { 0 }) * 2097152
}

spec fn countermeasure_from_to_str_fingerprint(n: int) -> Option<Countermeasure> {
    if n == 171966477 {
        Some(Countermeasure::RadarJamming)
    } else if n == 140509197 {
        Some(Countermeasure::CommsJamming)
    } else if n == 159383565 {
        Some(Countermeasure::LaserDazzler)
    } else if n == 140509195 {
        Some(Countermeasure::ChaffDecoy)
    } else if n == 146800651 {
        Some(Countermeasure::FlareDecoy)
    } else if n == 136314892 {
        Some(Countermeasure::ActiveDecoy)
    } else if n == 142606351 {
        Some(Countermeasure::CutEngines)
    } else if n == 142606349 {
        Some(Countermeasure::CutRadar)
    } else {
        None
    }
}

proof fn lemma_countermeasure_to_str_fingerprint(k: Countermeasure)
    ensures
        countermeasure_from_to_str_fingerprint(countermeasure_to_str_fingerprint(k.spec_to_str())) == Some(k),
{
    match k {
        Countermeasure::RadarJamming => {
            reveal_strlit("Radar Jamming");
        },
        Countermeasure::CommsJamming => {
            reveal_strlit("Comms Jamming");
        },
        Countermeasure::LaserDazzler => {
            reveal_strlit("Laser Dazzler");
        },
        Countermeasure::ChaffDecoy => {
            reveal_strlit("Chaff Decoy");
        },
        Countermeasure::FlareDecoy => {
            reveal_strlit("Flare Decoy");
        },
        Countermeasure::ActiveDecoy => {
            reveal_strlit("Active Decoy");
        },
        Countermeasure::CutEngines => {
            reveal_strlit("Disable Engines");
        },
        Countermeasure::CutRadar => {
            reveal_strlit("Disable Radar");
        },
    }
}

/// No two `Countermeasure` values share a `to_str`.
pub proof fn lemma_countermeasure_to_str_injective()
    ensures
        forall|a: Countermeasure, b: Countermeasure| a.spec_to_str() == b.spec_to_str() ==> a == b,
{
    assert forall|a: Countermeasure, b: Countermeasure| a.spec_to_str() == b.spec_to_str() implies a == b by {
        lemma_countermeasure_to_str_fingerprint(a);
        lemma_countermeasure_to_str_fingerprint(b);
    }
}

/// The way a countermeasure defeats a seeker.
#[derive(Debug, Clone, Copy, PartialEq, Eq, Structural, PartialOrd, Ord, Hash)]
pub enum CountermeasureCategory {
    /// Creates false targets which deceive the seeker; validating seekers counter it.
    Decoy,
    /// Prevents the seeker from operating; backup seekers counter it.
    Jamming,
    /// Hides the signature the seeker detects; backup seekers counter it.
    Concealment,
}

impl CountermeasureCategory {
    /// Every `CountermeasureCategory`, in declaration order.
    pub open spec fn spec_values() -> Seq<CountermeasureCategory> {
        seq![CountermeasureCategory::Decoy, CountermeasureCategory::Jamming, CountermeasureCategory::Concealment]
    }

    /// Every `CountermeasureCategory`, in declaration order.
    pub fn values() -> (v: Vec<CountermeasureCategory>)
        ensures
            v@ == Self::spec_values(),
    {
        vec![CountermeasureCategory::Decoy, CountermeasureCategory::Jamming, CountermeasureCategory::Concealment]
    }

}

} // verus!
