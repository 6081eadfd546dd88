pub mod equipment;

use vstd::prelude::*;
use crate::data::MissileSize;
use crate::data::components::SigType;
use crate::data::missiles::{AuxiliaryKey, WarheadKey};
use crate::data::missiles::bodies::MissileBodyKey;
use crate::data::missiles::seekers::SeekerKind;
use crate::data::missiles::seekers::strategy::SeekerStrategy;
use crate::data::munitions::{WeaponRole, MunitionFamily};
use crate::loadout::{AvionicsConfigured, MissileLoadoutError};
use crate::text::str_eq;

verus! {

/// Why a ship or missile could not be modelled.
#[derive(Debug, Clone, Copy, PartialEq, Eq, Structural)]
pub enum ModelError {
    MissileLoadout(MissileLoadoutError),
    MissileHasNoSeekers,
    MissileHasNoAvionics,
}

/// Whether a ship launches its missiles hot or cold.
#[derive(Debug, Clone, Copy, PartialEq, Eq, Structural, PartialOrd, Ord, Hash)]
pub enum ShipStateMissileLaunchMode {
    Hot,
    Cold,
}

/// What a missile design is made of.
#[derive(Debug, Clone, PartialEq, Eq)]
pub struct MissileEquipmentSummary {
    pub body_key: MissileBodyKey,
    pub seekers: SeekerStrategy<SeekerKind>,
    pub auxiliary_components: Vec<AuxiliaryKey>,
    pub avionics: AvionicsConfigured,
    pub warhead: Option<WarheadKey>,
}

/// The broad kind of a missile body.
#[derive(Debug, Clone, Copy, PartialEq, Eq, Structural, PartialOrd, Ord, Hash)]
pub enum MissileKind {
    Standard,
    Torpedo,
    Hybrid,
}

impl MissileKind {
    pub open spec fn spec_from_missile_body_key(k: MissileBodyKey) -> MissileKind {
        match k {
            MissileBodyKey::SGM1Balestra | MissileBodyKey::SGM2Tempest => MissileKind::Standard,
            MissileBodyKey::SGMH2Cyclone | MissileBodyKey::SGMH3Atlatl => MissileKind::Hybrid,
            MissileBodyKey::SGT3Pilum | MissileBodyKey::CM4Container | MissileBodyKey::CMS4Container => MissileKind::Torpedo,
        }
    }

    /// The kind of missile a body makes.
    pub fn from_missile_body_key(missile_body_key: MissileBodyKey) -> (r: MissileKind)
        ensures
            r == Self::spec_from_missile_body_key(missile_body_key),
    {
        match missile_body_key {
            MissileBodyKey::SGM1Balestra | MissileBodyKey::SGM2Tempest => MissileKind::Standard,
            MissileBodyKey::SGMH2Cyclone | MissileBodyKey::SGMH3Atlatl => MissileKind::Hybrid,
            MissileBodyKey::SGT3Pilum | MissileBodyKey::CM4Container | MissileBodyKey::CMS4Container => MissileKind::Torpedo,
        }
    }
}

/// What a warhead is good against.
#[derive(Debug, Clone, Copy, PartialEq, Eq, Structural, PartialOrd, Ord, Hash)]
pub enum WarheadKind {
    /// Blast fragmentation (and its extended-lethality variant).
    AntiMissile,
    /// HE impact.
    AntiShip,
    /// HE kinetic penetrator.
    AntiArmor,
}

impl WarheadKind {
    pub open spec fn spec_from_warhead_key(k: WarheadKey) -> WarheadKind {
        match k {
            WarheadKey::HEImpact => WarheadKind::AntiShip,
            WarheadKey::HEKineticPenetrator => WarheadKind::AntiArmor,
            WarheadKey::BlastFragmentation | WarheadKey::BlastFragmentationEL => WarheadKind::AntiMissile,
        }
    }

    /// What a warhead is good against.
    pub fn from_warhead_key(warhead_key: WarheadKey) -> (r: WarheadKind)
        ensures
            r == Self::spec_from_warhead_key(warhead_key),
    {
        match warhead_key {
            WarheadKey::HEImpact => WarheadKind::AntiShip,
            WarheadKey::HEKineticPenetrator => WarheadKind::AntiArmor,
            WarheadKey::BlastFragmentation | WarheadKey::BlastFragmentationEL => WarheadKind::AntiMissile,
        }
    }
}

/// How far a weapon reaches.
#[derive(Debug, Clone, Copy, PartialEq, Eq, Structural, PartialOrd, Ord, Hash)]
pub enum DistanceRealm {
    /// Below 7 km.
    Near,
    /// From 7 km to below 12 km.
    Middle,
    /// From 12 km on.
    Far,
}

/// A text that names no distance realm.
#[derive(Debug, Clone, Copy, PartialEq, Eq, Structural, Default)]
pub struct ParseDistanceRealmError;

impl DistanceRealm {
    pub open spec fn spec_from_range(range: usize) -> DistanceRealm {
        if range < 7000 {
            DistanceRealm::Near
        } else if range < 12000 {
            DistanceRealm::Middle
        } else {
            DistanceRealm::Far
        }
    }

    /// The realm of a range in metres.
    pub fn from_range(range: usize) -> (r: DistanceRealm)
        ensures
            r == Self::spec_from_range(range),
    {
        if range < 7000 {
            DistanceRealm::Near
        } else if range < 12000 {
            DistanceRealm::Middle
        } else {
            DistanceRealm::Far
        }
    }

    pub open spec fn spec_from_str(s: Seq<char>) -> Result<DistanceRealm, ParseDistanceRealmError> {
        if s == "near"@ {
            Ok(DistanceRealm::Near)
        } else if s == "middle"@ || s == "mid"@ {
            Ok(DistanceRealm::Middle)
        } else if s == "far"@ {
            Ok(DistanceRealm::Far)
        } else {
            Err(ParseDistanceRealmError)
        }
    }

    /// Reads `near`, `middle` (or `mid`) or `far`.
    pub fn from_str(s: &str) -> (r: Result<DistanceRealm, ParseDistanceRealmError>)
        ensures
            r == Self::spec_from_str(s@),
    {
        if str_eq(s, "near") {
            Ok(DistanceRealm::Near)
        } else if str_eq(s, "middle") || str_eq(s, "mid") {
            Ok(DistanceRealm::Middle)
        } else if str_eq(s, "far") {
            Ok(DistanceRealm::Far)
        } else {
            Err(ParseDistanceRealmError)
        }
    }
}

/// Realms follow ranges in order: a longer range is never in a nearer realm.
pub proof fn lemma_distance_realm_monotone(a: usize, b: usize)
    requires
        a <= b,
    ensures
        DistanceRealm::spec_from_range(a) as int <= DistanceRealm::spec_from_range(b) as int,
{
}

/// The kind of point defense a weapon is.
#[derive(Debug, Clone, Copy, PartialEq, Eq, Structural, PartialOrd, Ord, Hash)]
pub enum PointDefenseType {
    Beam,
    Defender,
    Flak,
    Railgun,
}

/// A text that names no point defense type.
#[derive(Debug, Clone, Copy, PartialEq, Eq, Structural, Default)]
pub struct ParsePointDefenseTypeError;

impl PointDefenseType {
    pub open spec fn spec_from_str(s: Seq<char>) -> Result<PointDefenseType, ParsePointDefenseTypeError> {
        if s == "beam"@ || s == "laser"@ {
            Ok(PointDefenseType::Beam)
        } else if s == "defender"@ || s == "pavise"@ || s == "ciws"@ {
            Ok(PointDefenseType::Defender)
        } else if s == "flak"@ || s == "flakgun"@ || s == "flak gun"@ {
            Ok(PointDefenseType::Flak)
        } else if s == "rail"@ || s == "railgun"@ || s == "rail gun"@ {
            Ok(PointDefenseType::Railgun)
        } else {
            Err(ParsePointDefenseTypeError)
        }
    }

    /// Reads a point defense type by one of its names.
    pub fn from_str(s: &str) -> (r: Result<PointDefenseType, ParsePointDefenseTypeError>)
        ensures
            r == Self::spec_from_str(s@),
    {
        if str_eq(s, "beam") || str_eq(s, "laser") {
            Ok(PointDefenseType::Beam)
        } else if str_eq(s, "defender") || str_eq(s, "pavise") || str_eq(s, "ciws") {
            Ok(PointDefenseType::Defender)
        } else if str_eq(s, "flak") || str_eq(s, "flakgun") || str_eq(s, "flak gun") {
            Ok(PointDefenseType::Flak)
        } else if str_eq(s, "rail") || str_eq(s, "railgun") || str_eq(s, "rail gun") {
            Ok(PointDefenseType::Railgun)
        } else {
            Err(ParsePointDefenseTypeError)
        }
    }
}

/// Whether a weapon is for attack or defense.
#[derive(Debug, Clone, Copy, PartialEq, Eq, Structural, PartialOrd, Ord, Hash)]
pub enum WeaponUsage {
    Offensive,
    Defensive,
}

impl WeaponUsage {
    pub open spec fn spec_from_weapon_role(role: WeaponRole) -> Option<WeaponUsage> {
        match role {
            WeaponRole::Offensive | WeaponRole::DualPurpose => Some(WeaponUsage::Offensive),
            WeaponRole::Defensive => Some(WeaponUsage::Defensive),
            WeaponRole::Utility | WeaponRole::Decoy => None,
        }
    }

    /// The usage of a weapon of `weapon_role`: dual-purpose weapons count as
    /// offensive; utility and decoy launchers are no weapons.
    pub fn from_weapon_role(weapon_role: WeaponRole) -> (r: Option<WeaponUsage>)
        ensures
            r == Self::spec_from_weapon_role(weapon_role),
    {
        match weapon_role {
            WeaponRole::Offensive | WeaponRole::DualPurpose => Some(WeaponUsage::Offensive),
            WeaponRole::Defensive => Some(WeaponUsage::Defensive),
            WeaponRole::Utility | WeaponRole::Decoy => None,
        }
    }
}

/// The family of a weapon, as the fleet generator sorts them.
#[derive(Debug, Clone, Copy, PartialEq, Eq, Structural, PartialOrd, Ord, Hash)]
pub enum WeaponFamily {
    EnergyBeam(DistanceRealm),
    EnergyPlasma(DistanceRealm),
    EnergyRailgun(DistanceRealm),
    Ballistic(DistanceRealm),
    PointDefense(PointDefenseType),
    StandardMissile(MissileSize),
    ContainerMissile,
    LoiteringMine,
    UnguidedRocket,
}

/// The kind of missile a launcher cell takes.
#[derive(Debug, Clone, Copy, PartialEq, Eq, Structural, PartialOrd, Ord, Hash)]
pub enum MissileType {
    StandardMissileSize1,
    StandardMissileSize2,
    StandardMissileSize3,
    ContainerMissile,
    LoiteringMine,
    UnguidedRocket,
}

/// A piece of equipment a ship can carry, as the fleet generator sees it.
#[derive(Debug, Clone, Copy, PartialEq, Eq, Structural, PartialOrd, Ord, Hash)]
pub enum ShipEquipment {
    Intelligence,
    Illuminator,
    DeceptionModule,
    MissileIdentification,
    FireControl { sig_type: SigType },
    Jamming { sig_type: SigType },
    Sensor { sig_type: SigType },
    Weapon { family: WeaponFamily },
}

/// The number of steps and branches a generation stage explores.
#[derive(Debug, Clone, Copy, PartialEq, Eq, Structural)]
pub struct ParametersStage {
    pub steps: usize,
    pub max_trunks: usize,
    pub max_branches: Option<usize>,
}

/// Whether a ship is meant for combat or for support.
#[derive(Debug, Clone, Copy, PartialEq, Eq, Structural, PartialOrd, Ord, Hash)]
pub enum PurposeMeta {
    /// Combat.
    General,
    /// Non-combat.
    Utility,
}

} // verus!

verus! {

/// The hulls `faction` fields, in declaration order.
pub open spec fn spec_faction_ships(faction: crate::data::Faction) -> Seq<crate::data::hulls::HullKey> {
    crate::data::hulls::HullKey::spec_values().filter(|k: crate::data::hulls::HullKey| k.spec_faction() == faction)
}

/// The hulls `faction` fields, in declaration order.
pub fn iter_faction_ships(faction: crate::data::Faction) -> (r: Vec<crate::data::hulls::HullKey>)
    ensures
        r@ == spec_faction_ships(faction),
{
    let all = crate::data::hulls::HullKey::values();
    let mut r: Vec<crate::data::hulls::HullKey> = Vec::new();
    let mut i: usize = 0;
    while i < all.len()
        invariant
            all@ == crate::data::hulls::HullKey::spec_values(),
            i <= all@.len(),
            r@ == all@.take(i as int).filter(|k: crate::data::hulls::HullKey| k.spec_faction() == faction),
        decreases all.len() - i,
    {
        let k = all[i];
        proof {
            reveal_with_fuel(Seq::filter, 1);
            assert(all@.take(i as int + 1).drop_last() == all@.take(i as int));
        }
        if k.faction() == faction {
            r.push(k);
        }
        i = i + 1;
    }
    proof {
        assert(all@.take(all@.len() as int) == all@);
    }
    r
}

} // verus!

verus! {

impl WeaponFamily {
    /// The family of the weapons that fire munitions of `munition_family`,
    /// launchers of standard missiles taking missiles of `missile_size`:
    /// the guns by their bore, the longest range of the family's munitions
    /// setting the realm of those sorted by reach; none for a gun family
    /// without munitions, for a standard missile without a size, and for
    /// the infinite family.
    pub open spec fn spec_from_munition_family(munition_family: MunitionFamily, missile_size: Option<MissileSize>) -> Option<WeaponFamily> {
        let realm = match munition_family.spec_max_range() {
            Some(range) => Some(DistanceRealm::spec_from_range(range)),
            None => None,
        };
        match munition_family {
            MunitionFamily::BallisticMagnetic15mm => Some(WeaponFamily::PointDefense(PointDefenseType::Railgun)),
            MunitionFamily::BallisticChemical20mm => Some(WeaponFamily::PointDefense(PointDefenseType::Defender)),
            MunitionFamily::BallisticChemical50mmFlak => Some(WeaponFamily::PointDefense(PointDefenseType::Flak)),
            MunitionFamily::BallisticChemical100mm | MunitionFamily::BallisticChemical120mm
            | MunitionFamily::BallisticChemical250mm | MunitionFamily::BallisticChemical450mm
            | MunitionFamily::BallisticChemical600mm => match realm {
                Some(r) => Some(WeaponFamily::Ballistic(r)),
                None => None,
            },
            MunitionFamily::BallisticMagnetic300mmRailgun | MunitionFamily::BallisticMagnetic500mmMassDriver => match realm {
                Some(r) => Some(WeaponFamily::EnergyRailgun(r)),
                None => None,
            },
            MunitionFamily::BallisticMagnetic400mmPlasma => match realm {
                Some(r) => Some(WeaponFamily::EnergyPlasma(r)),
                None => None,
            },
            MunitionFamily::StandardMissile => match missile_size {
                Some(size) => Some(WeaponFamily::StandardMissile(size)),
                None => None,
            },
            MunitionFamily::ContainerMissile => Some(WeaponFamily::ContainerMissile),
            MunitionFamily::LoiteringMine => Some(WeaponFamily::LoiteringMine),
            MunitionFamily::UnguidedRocket => Some(WeaponFamily::UnguidedRocket),
            MunitionFamily::Infinite => None,
        }
    }

    /// The family of the weapons that fire munitions of `munition_family`;
    /// see [`WeaponFamily::spec_from_munition_family`].
    pub fn from_munition_family(munition_family: MunitionFamily, missile_size: Option<MissileSize>) -> (r: Option<WeaponFamily>)
        ensures
            r == Self::spec_from_munition_family(munition_family, missile_size),
    {
        let realm = match munition_family.max_range() {
            Some(range) => Some(DistanceRealm::from_range(range)),
            None => None,
        };
        match munition_family {
            MunitionFamily::BallisticMagnetic15mm => Some(WeaponFamily::PointDefense(PointDefenseType::Railgun)),
            MunitionFamily::BallisticChemical20mm => Some(WeaponFamily::PointDefense(PointDefenseType::Defender)),
            MunitionFamily::BallisticChemical50mmFlak => Some(WeaponFamily::PointDefense(PointDefenseType::Flak)),
            MunitionFamily::BallisticChemical100mm | MunitionFamily::BallisticChemical120mm
            | MunitionFamily::BallisticChemical250mm | MunitionFamily::BallisticChemical450mm
            | MunitionFamily::BallisticChemical600mm => match realm {
                Some(r) => Some(WeaponFamily::Ballistic(r)),
                None => None,
            },
            MunitionFamily::BallisticMagnetic300mmRailgun | MunitionFamily::BallisticMagnetic500mmMassDriver => match realm {
                Some(r) => Some(WeaponFamily::EnergyRailgun(r)),
                None => None,
            },
            MunitionFamily::BallisticMagnetic400mmPlasma => match realm {
                Some(r) => Some(WeaponFamily::EnergyPlasma(r)),
                None => None,
            },
            MunitionFamily::StandardMissile => match missile_size {
                Some(size) => Some(WeaponFamily::StandardMissile(size)),
                None => None,
            },
            MunitionFamily::ContainerMissile => Some(WeaponFamily::ContainerMissile),
            MunitionFamily::LoiteringMine => Some(WeaponFamily::LoiteringMine),
            MunitionFamily::UnguidedRocket => Some(WeaponFamily::UnguidedRocket),
            MunitionFamily::Infinite => None,
        }
    }
}

impl MissileType {
    /// The kind of missile that munitions of `munition_family` are,
    /// standard missiles taking their size from `missile_size`; none for
    /// guns, the infinite family, or a standard missile without a size.
    pub open spec fn spec_from_munition_family(munition_family: MunitionFamily, missile_size: Option<MissileSize>) -> Option<MissileType> {
        match munition_family {
            MunitionFamily::StandardMissile => match missile_size {
                Some(MissileSize::Size1) => Some(MissileType::StandardMissileSize1),
                Some(MissileSize::Size2) => Some(MissileType::StandardMissileSize2),
                Some(MissileSize::Size3) => Some(MissileType::StandardMissileSize3),
                None => None,
            },
            MunitionFamily::ContainerMissile => Some(MissileType::ContainerMissile),
            MunitionFamily::LoiteringMine => Some(MissileType::LoiteringMine),
            MunitionFamily::UnguidedRocket => Some(MissileType::UnguidedRocket),
            _ => None,
        }
    }

    /// The kind of missile that munitions of `munition_family` are; see
    /// [`MissileType::spec_from_munition_family`].
    pub fn from_munition_family(munition_family: MunitionFamily, missile_size: Option<MissileSize>) -> (r: Option<MissileType>)
        ensures
            r == Self::spec_from_munition_family(munition_family, missile_size),
    {
        match munition_family {
            MunitionFamily::StandardMissile => match missile_size {
                Some(MissileSize::Size1) => Some(MissileType::StandardMissileSize1),
                Some(MissileSize::Size2) => Some(MissileType::StandardMissileSize2),
                Some(MissileSize::Size3) => Some(MissileType::StandardMissileSize3),
                None => None,
            },
            MunitionFamily::ContainerMissile => Some(MissileType::ContainerMissile),
            MunitionFamily::LoiteringMine => Some(MissileType::LoiteringMine),
            MunitionFamily::UnguidedRocket => Some(MissileType::UnguidedRocket),
            _ => None,
        }
    }
}

} // verus!

verus! {

/// Whether the component `k` may go in a socket of `size` on the hull
/// `hull`: the hull may carry it, and it fits.
pub open spec fn component_fits_socket(k: crate::data::components::ComponentKey, hull: crate::data::hulls::HullKey, size: crate::utils::Size) -> bool {
    k.spec_info().spec_is_usable_on(hull) && k.spec_info().spec_can_fit_in(size)
}

/// The components that may go in socket `socket` of the hull `hull`, in
/// declaration order: those the hull may carry that fit the socket.
pub fn iter_socket_components(hull: crate::data::hulls::HullKey, socket: usize) -> (r: Vec<crate::data::components::ComponentKey>)
    requires
        socket < hull.spec_sockets().len(),
    ensures
        r@ == crate::data::components::ComponentKey::spec_values().filter(
            |k: crate::data::components::ComponentKey| component_fits_socket(k, hull, hull.spec_sockets()[socket as int].2)),
{
    let sockets = hull.sockets();
    proof {
        assert(sockets@.map_values(|s: crate::data::hulls::sockets::HullSocketInfo| crate::data::hulls::sockets::hull_socket_view(s))[socket as int]
            == crate::data::hulls::sockets::hull_socket_view(sockets@[socket as int]));
    }
    let size = sockets[socket].size;
    let all = crate::data::components::ComponentKey::values();
    let mut r: Vec<crate::data::components::ComponentKey> = Vec::new();
    let mut i: usize = 0;
    while i < all.len()
        invariant
            all@ == crate::data::components::ComponentKey::spec_values(),
            size == hull.spec_sockets()[socket as int].2,
            i <= all@.len(),
            r@ == all@.take(i as int).filter(|k: crate::data::components::ComponentKey| component_fits_socket(k, hull, size)),
        decreases all.len() - i,
    {
        let k = all[i];
        proof {
            reveal_with_fuel(Seq::filter, 1);
            assert(all@.take(i as int + 1).drop_last() == all@.take(i as int));
        }
        let info = k.info();
        if info.is_usable_on(hull) && info.can_fit_in(size) {
            r.push(k);
        }
        i = i + 1;
    }
    proof {
        assert(all@.take(all@.len() as int) == all@);
    }
    r
}

} // verus!
