use nebulous_data::data::Faction;
use nebulous_data::data::hulls::HullKey;
use nebulous_data::model::iter_faction_ships;
use nebulous_data::model::{MissileKind, WarheadKind, DistanceRealm, PointDefenseType, WeaponUsage, ParseDistanceRealmError, ParsePointDefenseTypeError};
use nebulous_data::data::missiles::WarheadKey;
use nebulous_data::data::missiles::bodies::MissileBodyKey;
use nebulous_data::data::munitions::WeaponRole;
use nebulous_data::loadout::{SeekerConfigured, SeekerWithMode, MissileLoadoutComponentKey};
use nebulous_data::data::missiles::seekers::{SeekerKey, SeekerMode};
use nebulous_data::data::missiles::AuxiliaryKey;
use nebulous_data::format::MissileComponentKey;

#[test]
fn kinds() {
    assert_eq!(MissileKind::from_missile_body_key(MissileBodyKey::SGMH3Atlatl), MissileKind::Hybrid);
    assert_eq!(MissileKind::from_missile_body_key(MissileBodyKey::CM4Container), MissileKind::Torpedo);
    assert_eq!(WarheadKind::from_warhead_key(WarheadKey::BlastFragmentationEL), WarheadKind::AntiMissile);
    assert_eq!(WeaponUsage::from_weapon_role(WeaponRole::DualPurpose), Some(WeaponUsage::Offensive));
    assert_eq!(WeaponUsage::from_weapon_role(WeaponRole::Decoy), None);
}

#[test]
fn realms() {
    assert_eq!(DistanceRealm::from_range(0), DistanceRealm::Near);
    assert_eq!(DistanceRealm::from_range(6999), DistanceRealm::Near);
    assert_eq!(DistanceRealm::from_range(7000), DistanceRealm::Middle);
    assert_eq!(DistanceRealm::from_range(11999), DistanceRealm::Middle);
    assert_eq!(DistanceRealm::from_range(12000), DistanceRealm::Far);
    assert_eq!(DistanceRealm::from_str("mid"), Ok(DistanceRealm::Middle));
    assert_eq!(DistanceRealm::from_str("Far"), Err(ParseDistanceRealmError));
    assert_eq!(PointDefenseType::from_str("flak gun"), Ok(PointDefenseType::Flak));
    assert_eq!(PointDefenseType::from_str("ciws"), Ok(PointDefenseType::Defender));
    assert_eq!(PointDefenseType::from_str("gun"), Err(ParsePointDefenseTypeError));
}

#[test]
fn loadout_seekers() {
    let seeker = SeekerConfigured::ElectroOptical { detect_pd_targets: true };
    assert_eq!(seeker.into_seeker_key(), SeekerKey::ElectroOptical);
    let v = SeekerWithMode::new(seeker, SeekerMode::Validation, true);
    assert_eq!(v.into_parts(), (seeker, SeekerMode::Validation, true));
    let t = SeekerWithMode::new(seeker, SeekerMode::Targeting, true);
    assert_eq!(t.into_parts(), (seeker, SeekerMode::Targeting, false));
    assert_eq!(t.seeker(), seeker);
    assert_eq!(t.mode(), SeekerMode::Targeting);
    assert_eq!(MissileLoadoutComponentKey::from_missile_component_key(MissileComponentKey::HardenedSkin),
        MissileLoadoutComponentKey::Auxiliary(AuxiliaryKey::HardenedSkin));
}

#[test]
fn faction_ships() {
    let alliance = iter_faction_ships(Faction::Alliance);
    assert_eq!(alliance.len(), 6);
    assert_eq!(alliance[0], HullKey::SprinterCorvette);
    let protectorate = iter_faction_ships(Faction::Protectorate);
    assert_eq!(protectorate, vec![
        HullKey::ShuttleClipper, HullKey::TugboatClipper, HullKey::CargoFeederMonitor,
        HullKey::OcelloCommandCruiser, HullKey::BulkFreighterLineShip, HullKey::ContainerLinerLineShip,
    ]);
}
