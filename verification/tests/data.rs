use nebulous_data::data::{Faction, MissileSize, InvalidKey};
use nebulous_data::data::components::{ComponentKey, CellGroups, tiling_quantity, can_fit_in};
use nebulous_data::data::hulls::HullKey;
use nebulous_data::data::hulls::config::{Variant, HullConfigTemplate, HullConfigTemplateFull};
use nebulous_data::data::hulls::config::bulk_freighter::{HullConfigBulkFreighter, HullConfigBulkFreighterFull};
use nebulous_data::data::missiles::{Maneuvers, AuxiliaryKey, WarheadKey};
use nebulous_data::data::missiles::bodies::{MissileBodyKey, MissileComponentsMask};
use nebulous_data::data::munitions::{MunitionKey, MunitionFamily, WeaponRole};
use nebulous_data::utils::Size;

#[test]
fn factions() {
    assert_eq!(Faction::Alliance.save_key(), "Stock/Alliance");
    assert_eq!(Faction::from_str("Stock/Protectorate"), Ok(Faction::Protectorate));
    assert_eq!(Faction::from_str("Stock/Other"), Err(InvalidKey::Faction));
    assert_eq!(InvalidKey::Faction.message(), "invalid faction key");
}

#[test]
fn missile_sizes() {
    assert_eq!(MissileSize::from_num(2), Some(MissileSize::Size2));
    assert_eq!(MissileSize::from_num(0), None);
    assert_eq!(MissileSize::from_num(4), None);
    assert_eq!(MissileSize::from_str("size3"), Ok(MissileSize::Size3));
    assert_eq!(MissileSize::from_str("1"), Ok(MissileSize::Size1));
    assert!(MissileSize::from_str("4").is_err());
}

#[test]
fn sizes() {
    let s = Size::new(6, 4, 2);
    assert_eq!(s.into_array(), [6, 4, 2]);
    assert_eq!(Size::from_array([6, 4, 2]), s);
    assert_eq!(s.volume(), 48);
    assert_eq!(s.add(Size::new(1, 2, 3)), Size::new(7, 6, 5));
    assert_eq!(s.sub(Size::new(1, 2, 2)), Size::new(5, 2, 0));
    assert_eq!(s.mul(Size::new(1, 2, 3)), Size::new(6, 8, 6));
    assert_eq!(s.div(Size::new(1, 2, 4)), Size::new(6, 2, 0));
    assert_eq!(s.rem(Size::new(4, 3, 7)), Size::new(2, 1, 2));
}

#[test]
fn tiling() {
    assert_eq!(tiling_quantity(Size::new(4, 4, 4), Size::new(2, 2, 2)), 8);
    assert_eq!(tiling_quantity(Size::new(6, 1, 1), Size::new(2, 3, 6)), 0);
    assert_eq!(tiling_quantity(Size::new(2, 1, 1), Size::new(1, 1, 1)), 2);
    assert_eq!(tiling_quantity(Size::new(6, 4, 2), Size::new(2, 2, 1)), 12);
    assert!(can_fit_in(Size::new(3, 4, 3), Size::new(3, 4, 3)));
    assert!(!can_fit_in(Size::new(3, 3, 3), Size::new(3, 4, 3)));
    assert_eq!(CellGroups::Vls2.groups(Size::new(3, 4, 3)), Some([1, 2]));
    assert_eq!(CellGroups::Cls3.groups(Size::new(3, 4, 3)), None);
    assert_eq!(CellGroups::Cls3.groups(Size::new(8, 5, 8)), Some([2, 5]));
    assert_eq!(CellGroups::Vls3.groups(Size::new(6, 3, 6)), None);
}

#[test]
fn component_keys() {
    let all = ComponentKey::values();
    assert_eq!(all.len(), 132);
    for k in all {
        assert_eq!(ComponentKey::from_str(k.save_key()), Ok(k));
    }
    assert_eq!(ComponentKey::from_str("Stock/Nothing"), Err(InvalidKey::Component));
}

#[test]
fn hulls() {
    assert_eq!(HullKey::SolomonBattleship.faction(), Faction::Alliance);
    assert_eq!(HullKey::OcelloCommandCruiser.faction(), Faction::Protectorate);
    assert_eq!(HullKey::RainesFrigate.point_cost(), 125);
    for k in HullKey::values() {
        assert_eq!(HullKey::from_str(k.save_key()), Ok(k));
    }
}

#[test]
fn variants() {
    assert_eq!(Variant::from_num(1), Some(Variant::V1));
    assert_eq!(Variant::from_num(3), None);
    assert_eq!(Variant::V2.select('a', 'b', 'c'), 'c');
    assert_eq!(*Variant::V0.select_array(&[10, 20, 30]), 10);
    let full = HullConfigTemplateFull::BulkFreighter(HullConfigBulkFreighterFull);
    assert_eq!(full.with_variants([Variant::V0, Variant::V1, Variant::V2]), HullConfigTemplate::BulkFreighter(HullConfigBulkFreighter));
}

#[test]
fn missiles() {
    assert_eq!(Maneuvers::NoManeuvers.to_str(), "None");
    assert_eq!(Maneuvers::from_str("Weave"), Ok(Maneuvers::Weave));
    for k in MissileBodyKey::values() {
        assert_eq!(MissileBodyKey::from_str(k.save_key()), Ok(k));
    }
    assert_eq!(AuxiliaryKey::ColdGasBottle.save_key(), "Stock/Cold Gas Bottle");
    assert_eq!(WarheadKey::HEImpact.save_key(), "Stock/HE Impact");
    let mask = MissileComponentsMask::only_seekers_auxiliary();
    assert!(mask.allow_seekers && mask.allow_auxiliary && !mask.allow_avionics && !mask.allow_warheads);
    assert!(!MissileComponentsMask::all_except_avionics().allow_avionics);
}

#[test]
fn munitions() {
    assert_eq!(MunitionKey::FlakRound.family(), MunitionFamily::BallisticChemical50mmFlak);
    assert_eq!(MunitionKey::A100mmGrape.role(), WeaponRole::DualPurpose);
    assert_eq!(MunitionFamily::LoiteringMine.keys(), vec![
        MunitionKey::M30MattockMine, MunitionKey::M30NMattockCooperativeMine, MunitionKey::M50AugerSprintMine,
    ]);
    assert_eq!(MunitionFamily::Infinite.keys(), vec![]);
    for k in MunitionKey::values() {
        assert_eq!(MunitionKey::from_str(k.save_key()), Ok(k));
    }
}
