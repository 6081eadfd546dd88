pub mod config;
pub mod sockets;

use vstd::prelude::*;
use crate::data::{Faction, InvalidKey};
use crate::text::{chars_of, chars_eq_str};
use crate::data::hulls::config::HullConfigTemplateFull;
use crate::data::hulls::config::bulk_freighter::HullConfigBulkFreighterFull;
use crate::data::hulls::config::container_liner::HullConfigContainerLinerFull;

verus! {

/// A hull that can be chosen in game.
#[derive(Debug, Clone, Copy, PartialEq, Eq, Structural, PartialOrd, Ord, Hash)]
pub enum HullKey {
    SprinterCorvette,
    RainesFrigate,
    KeystoneDestroyer,
    VauxhallLightCruiser,
    AxfordHeavyCruiser,
    SolomonBattleship,
    ShuttleClipper,
    TugboatClipper,
    CargoFeederMonitor,
    OcelloCommandCruiser,
    BulkFreighterLineShip,
    ContainerLinerLineShip,
}

impl HullKey {
    /// Every `HullKey`, in declaration order.
    pub open spec fn spec_values() -> Seq<HullKey> {
        seq![HullKey::SprinterCorvette, HullKey::RainesFrigate, HullKey::KeystoneDestroyer, HullKey::VauxhallLightCruiser, HullKey::AxfordHeavyCruiser, HullKey::SolomonBattleship, HullKey::ShuttleClipper, HullKey::TugboatClipper, HullKey::CargoFeederMonitor, HullKey::OcelloCommandCruiser, HullKey::BulkFreighterLineShip, HullKey::ContainerLinerLineShip]
    }

    /// Every `HullKey`, in declaration order.
    pub fn values() -> (v: Vec<HullKey>)
        ensures
            v@ == Self::spec_values(),
    {
        vec![HullKey::SprinterCorvette, HullKey::RainesFrigate, HullKey::KeystoneDestroyer, HullKey::VauxhallLightCruiser, HullKey::AxfordHeavyCruiser, HullKey::SolomonBattleship, HullKey::ShuttleClipper, HullKey::TugboatClipper, HullKey::CargoFeederMonitor, HullKey::OcelloCommandCruiser, HullKey::BulkFreighterLineShip, HullKey::ContainerLinerLineShip]
    }

    pub open spec fn spec_save_key(self) -> Seq<char> {
        match self {
            HullKey::SprinterCorvette => "Stock/Sprinter Corvette"@,
            HullKey::RainesFrigate => "Stock/Raines Frigate"@,
            HullKey::KeystoneDestroyer => "Stock/Keystone Destroyer"@,
            HullKey::VauxhallLightCruiser => "Stock/Vauxhall Light Cruiser"@,
            HullKey::AxfordHeavyCruiser => "Stock/Axford Heavy Cruiser"@,
            HullKey::SolomonBattleship => "Stock/Solomon Battleship"@,
            HullKey::ShuttleClipper => "Stock/Shuttle"@,
            HullKey::TugboatClipper => "Stock/Tugboat"@,
            HullKey::CargoFeederMonitor => "Stock/Bulk Feeder"@,
            HullKey::OcelloCommandCruiser => "Stock/Ocello Cruiser"@,
            HullKey::BulkFreighterLineShip => "Stock/Bulk Hauler"@,
            HullKey::ContainerLinerLineShip => "Stock/Container Hauler"@,
        }
    }

    /// The key under which fleet files name this hull.
    pub fn save_key(self) -> (r: &'static str)
        ensures
            r@ == self.spec_save_key(),
    {
        match self {
            HullKey::SprinterCorvette => "Stock/Sprinter Corvette",
            HullKey::RainesFrigate => "Stock/Raines Frigate",
            HullKey::KeystoneDestroyer => "Stock/Keystone Destroyer",
            HullKey::VauxhallLightCruiser => "Stock/Vauxhall Light Cruiser",
            HullKey::AxfordHeavyCruiser => "Stock/Axford Heavy Cruiser",
            HullKey::SolomonBattleship => "Stock/Solomon Battleship",
            HullKey::ShuttleClipper => "Stock/Shuttle",
            HullKey::TugboatClipper => "Stock/Tugboat",
            HullKey::CargoFeederMonitor => "Stock/Bulk Feeder",
            HullKey::OcelloCommandCruiser => "Stock/Ocello Cruiser",
            HullKey::BulkFreighterLineShip => "Stock/Bulk Hauler",
            HullKey::ContainerLinerLineShip => "Stock/Container Hauler",
        }
    }

    /// What [`HullKey::from_str`] gives for the text `s`: the value whose
    /// `save_key` is `s`, or the error when there is none.
    pub open spec fn spec_from_str(s: Seq<char>) -> Result<HullKey, InvalidKey> {
        if exists|k: HullKey| k.spec_save_key() == s {
            Ok(choose|k: HullKey| k.spec_save_key() == s)
        } else {
            Err(InvalidKey::Hull)
        }
    }

    /// Parses the text that [`HullKey::save_key`] gives.
    pub fn from_str(s: &str) -> (r: Result<HullKey, InvalidKey>)
        ensures
            r == Self::spec_from_str(s@),
    {
        proof { lemma_hull_key_save_key_injective(); }
        let chars = chars_of(s);
        if chars_eq_str(&chars, "Stock/Sprinter Corvette") {
            proof { assert(HullKey::SprinterCorvette.spec_save_key() == s@); }
            return Ok(HullKey::SprinterCorvette);
        }
        if chars_eq_str(&chars, "Stock/Raines Frigate") {
            proof { assert(HullKey::RainesFrigate.spec_save_key() == s@); }
            return Ok(HullKey::RainesFrigate);
        }
        if chars_eq_str(&chars, "Stock/Keystone Destroyer") {
            proof { assert(HullKey::KeystoneDestroyer.spec_save_key() == s@); }
            return Ok(HullKey::KeystoneDestroyer);
        }
        if chars_eq_str(&chars, "Stock/Vauxhall Light Cruiser") {
            proof { assert(HullKey::VauxhallLightCruiser.spec_save_key() == s@); }
            return Ok(HullKey::VauxhallLightCruiser);
        }
        if chars_eq_str(&chars, "Stock/Axford Heavy Cruiser") {
            proof { assert(HullKey::AxfordHeavyCruiser.spec_save_key() == s@); }
            return Ok(HullKey::AxfordHeavyCruiser);
        }
        if chars_eq_str(&chars, "Stock/Solomon Battleship") {
            proof { assert(HullKey::SolomonBattleship.spec_save_key() == s@); }
            return Ok(HullKey::SolomonBattleship);
        }
        if chars_eq_str(&chars, "Stock/Shuttle") {
            proof { assert(HullKey::ShuttleClipper.spec_save_key() == s@); }
            return Ok(HullKey::ShuttleClipper);
        }
        if chars_eq_str(&chars, "Stock/Tugboat") {
            proof { assert(HullKey::TugboatClipper.spec_save_key() == s@); }
            return Ok(HullKey::TugboatClipper);
        }
        if chars_eq_str(&chars, "Stock/Bulk Feeder") {
            proof { assert(HullKey::CargoFeederMonitor.spec_save_key() == s@); }
            return Ok(HullKey::CargoFeederMonitor);
        }
        if chars_eq_str(&chars, "Stock/Ocello Cruiser") {
            proof { assert(HullKey::OcelloCommandCruiser.spec_save_key() == s@); }
            return Ok(HullKey::OcelloCommandCruiser);
        }
        if chars_eq_str(&chars, "Stock/Bulk Hauler") {
            proof { assert(HullKey::BulkFreighterLineShip.spec_save_key() == s@); }
            return Ok(HullKey::BulkFreighterLineShip);
        }
        if chars_eq_str(&chars, "Stock/Container Hauler") {
            proof { assert(HullKey::ContainerLinerLineShip.spec_save_key() == s@); }
            return Ok(HullKey::ContainerLinerLineShip);
        }
        Err(InvalidKey::Hull)
    }
}

spec fn hull_key_save_key_fingerprint(s: Seq<char>) -> int {
    s.len() as int
        + (if 6 < s.len() { s[6] as int } else { 0 }) * 2097152
        + (if 11 < s.len() { s[11] as int } else { 0 }) * 4398046511104
}

spec fn hull_key_from_save_key_fingerprint(n: int) -> Option<HullKey> {
    if n == 510173569351703 {
        Some(HullKey::SprinterCorvette)
    } else if n == 505775520743444 {
        Some(HullKey::RainesFrigate)
    } else if n == 488183320018968 {
        Some(HullKey::KeystoneDestroyer)
    } else if n == 426610691932188 {
        Some(HullKey::VauxhallLightCruiser)
    } else if n == 439804787425306 {
        Some(HullKey::AxfordHeavyCruiser)
    } else if n == 488183336796184 {
        Some(HullKey::SolomonBattleship)
    } else if n == 474989197262861 {
        Some(HullKey::ShuttleClipper)
    } else if n == 426610687737869 {
        Some(HullKey::TugboatClipper)
    } else if n == 307863394189329 {
        Some(HullKey::CargoFeederMonitor)
    } else if n == 488183328407572 {
        Some(HullKey::OcelloCommandCruiser)
    } else if n == 316659487211537 {
        Some(HullKey::BulkFreighterLineShip)
    } else if n == 461795024175126 {
        Some(HullKey::ContainerLinerLineShip)
    } else {
        None
    }
}

proof fn lemma_hull_key_save_key_fingerprint(k: HullKey)
    ensures
        hull_key_from_save_key_fingerprint(hull_key_save_key_fingerprint(k.spec_save_key())) == Some(k),
{
    match k {
        HullKey::SprinterCorvette => {
            reveal_strlit("Stock/Sprinter Corvette");
        },
        HullKey::RainesFrigate => {
            reveal_strlit("Stock/Raines Frigate");
        },
        HullKey::KeystoneDestroyer => {
            reveal_strlit("Stock/Keystone Destroyer");
        },
        HullKey::VauxhallLightCruiser => {
            reveal_strlit("Stock/Vauxhall Light Cruiser");
        },
        HullKey::AxfordHeavyCruiser => {
            reveal_strlit("Stock/Axford Heavy Cruiser");
        },
        HullKey::SolomonBattleship => {
            reveal_strlit("Stock/Solomon Battleship");
        },
        HullKey::ShuttleClipper => {
            reveal_strlit("Stock/Shuttle");
        },
        HullKey::TugboatClipper => {
            reveal_strlit("Stock/Tugboat");
        },
        HullKey::CargoFeederMonitor => {
            reveal_strlit("Stock/Bulk Feeder");
        },
        HullKey::OcelloCommandCruiser => {
            reveal_strlit("Stock/Ocello Cruiser");
        },
        HullKey::BulkFreighterLineShip => {
            reveal_strlit("Stock/Bulk Hauler");
        },
        HullKey::ContainerLinerLineShip => {
            reveal_strlit("Stock/Container Hauler");
        },
    }
}

/// No two `HullKey` values share a `save_key`.
pub proof fn lemma_hull_key_save_key_injective()
    ensures
        forall|a: HullKey, b: HullKey| a.spec_save_key() == b.spec_save_key() ==> a == b,
{
    assert forall|a: HullKey, b: HullKey| a.spec_save_key() == b.spec_save_key() implies a == b by {
        lemma_hull_key_save_key_fingerprint(a);
        lemma_hull_key_save_key_fingerprint(b);
    }
}

/// Parsing the text of a `HullKey` gives that `HullKey` back.
pub proof fn lemma_hull_key_round_trip(k: HullKey)
    ensures
        HullKey::spec_from_str(k.spec_save_key()) == Ok::<HullKey, InvalidKey>(k),
{
    lemma_hull_key_save_key_injective();
}

} // verus!

verus! {

impl HullKey {
    /// The faction that fields this hull: the first six hulls are the
    /// Alliance's, the last six the Protectorate's.
    pub open spec fn spec_faction(self) -> Faction {
        match self {
            HullKey::SprinterCorvette | HullKey::RainesFrigate | HullKey::KeystoneDestroyer
            | HullKey::VauxhallLightCruiser | HullKey::AxfordHeavyCruiser | HullKey::SolomonBattleship => Faction::Alliance,
            _ => Faction::Protectorate,
        }
    }

    /// The faction that fields this hull.
    pub fn faction(self) -> (r: Faction)
        ensures
            r == self.spec_faction(),
    {
        match self {
            HullKey::SprinterCorvette | HullKey::RainesFrigate | HullKey::KeystoneDestroyer
            | HullKey::VauxhallLightCruiser | HullKey::AxfordHeavyCruiser | HullKey::SolomonBattleship => Faction::Alliance,
            _ => Faction::Protectorate,
        }
    }

    pub open spec fn spec_point_cost(self) -> usize {
        match self {
            HullKey::SprinterCorvette => 100,
            HullKey::RainesFrigate => 125,
            HullKey::KeystoneDestroyer => 200,
            HullKey::VauxhallLightCruiser => 350,
            HullKey::AxfordHeavyCruiser => 600,
            HullKey::SolomonBattleship => 1000,
            HullKey::ShuttleClipper => 50,
            HullKey::TugboatClipper => 75,
            HullKey::CargoFeederMonitor => 175,
            HullKey::OcelloCommandCruiser => 575,
            HullKey::BulkFreighterLineShip => 350,
            HullKey::ContainerLinerLineShip => 1000,
        }
    }

    /// The points this hull costs in a fleet.
    pub fn point_cost(self) -> (r: usize)
        ensures
            r == self.spec_point_cost(),
    {
        match self {
            HullKey::SprinterCorvette => 100,
            HullKey::RainesFrigate => 125,
            HullKey::KeystoneDestroyer => 200,
            HullKey::VauxhallLightCruiser => 350,
            HullKey::AxfordHeavyCruiser => 600,
            HullKey::SolomonBattleship => 1000,
            HullKey::ShuttleClipper => 50,
            HullKey::TugboatClipper => 75,
            HullKey::CargoFeederMonitor => 175,
            HullKey::OcelloCommandCruiser => 575,
            HullKey::BulkFreighterLineShip => 350,
            HullKey::ContainerLinerLineShip => 1000,
        }
    }

    /// The template a configuration of this hull's segments is drawn from:
    /// the bulk freighter and the container liner are built of segments, the
    /// other hulls have none.
    pub open spec fn spec_config_template(self) -> Option<HullConfigTemplateFull> {
        match self {
            HullKey::BulkFreighterLineShip => Some(HullConfigTemplateFull::BulkFreighter(HullConfigBulkFreighterFull)),
            HullKey::ContainerLinerLineShip => Some(HullConfigTemplateFull::ContainerLiner(HullConfigContainerLinerFull)),
            _ => None,
        }
    }

    /// The template a configuration of this hull's segments is drawn from,
    /// if it is built of segments.
    pub fn config_template(self) -> (r: Option<HullConfigTemplateFull>)
        ensures
            r == self.spec_config_template(),
    {
        match self {
            HullKey::BulkFreighterLineShip => Some(HullConfigTemplateFull::BulkFreighter(HullConfigBulkFreighterFull)),
            HullKey::ContainerLinerLineShip => Some(HullConfigTemplateFull::ContainerLiner(HullConfigContainerLinerFull)),
            _ => None,
        }
    }
}

} // verus!
