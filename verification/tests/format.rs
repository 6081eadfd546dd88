use nebulous_data::format::{MissileSizeMask, Vector2, Vector3, Costs, DefensiveDoctrine, DefensiveTargetType, SizeOrdering,
    ComponentData, MagazineSaveData, MissileComponentKey, MissileRole, AntiRadiationTargetType};
use nebulous_data::format::key::Key;
use nebulous_data::data::MissileSize;
use nebulous_data::data::missiles::{AuxiliaryKey, AvionicsKey, WarheadKey};
use nebulous_data::data::missiles::seekers::SeekerKey;

#[test]
fn missile_size_mask_bytes() {
    let m = MissileSizeMask::from_u8(0b1010);
    assert_eq!(m, MissileSizeMask { size1: true, size2: false, size3: true });
    assert_eq!(m.to_u8(), 0b1010);
    assert_eq!(MissileSizeMask::from_u8(0xff).to_u8(), 0b1110);
    assert_eq!(MissileSizeMask::default().to_u8(), 6);
    assert!(m.get(MissileSize::Size1));
    assert!(!m.get(MissileSize::Size2));
    for b in 0..=255u8 {
        assert_eq!(MissileSizeMask::from_u8(b).to_u8(), b & 14);
    }
}

#[test]
fn vectors_and_costs() {
    assert_eq!(Vector3::splat(4usize), Vector3 { x: 4, y: 4, z: 4 });
    assert_eq!(Vector2::splat(true), Vector2 { x: true, y: true });
    let a = Costs { hulls: 100, components: 20, ammunition: 3, missiles: 4 };
    assert_eq!(a.total(), 127);
    let b = a.add(Costs { hulls: 1, components: 1, ammunition: 1, missiles: 1 });
    assert_eq!(b, Costs { hulls: 101, components: 21, ammunition: 4, missiles: 5 });
    assert_eq!(b.total(), 131);
}

#[test]
fn defensive_doctrine_default() {
    let d = DefensiveDoctrine::default();
    assert_eq!(d.target_size_mask, MissileSizeMask { size1: false, size2: true, size3: true });
    assert_eq!(d.target_type, DefensiveTargetType::All);
    assert_eq!(d.target_size_ordering, SizeOrdering::Descending);
    assert_eq!(d.salvo_size, 0);
    assert!(!d.farthest_first);
}

fn magazine(q: usize) -> MagazineSaveData {
    MagazineSaveData { magazine_key: Key::from_bytes([0; 16]), munition_key: "Stock/Mk20 AP".to_string(), quantity: q }
}

#[test]
fn component_data_loads() {
    let data = ComponentData::BulkMagazineData { load: vec![magazine(3)] };
    assert_eq!(data.get_load().map(|l| l.len()), Some(1));
    let mut data = ComponentData::ResizableCellLauncherData { missile_load: vec![], configured_size: Vector2 { x: 2, y: 3 } };
    data.get_load_mut().unwrap().push(magazine(5));
    assert_eq!(data.clone().into_load(), Some(vec![magazine(5)]));
    let mut deception = ComponentData::DeceptionComponentData { identity_option: 1 };
    assert!(deception.get_load_mut().is_none());
    assert!(deception.get_load().is_none());
    assert_eq!(deception.into_load(), None);
}

#[test]
fn missile_component_keys() {
    assert_eq!(MissileComponentKey::CommandReceiver.to_seeker_key(), Some(SeekerKey::Command));
    assert_eq!(MissileComponentKey::HEImpact.to_seeker_key(), None);
    assert_eq!(MissileComponentKey::HardenedSkin.to_auxiliary_key(), Some(AuxiliaryKey::HardenedSkin));
    assert_eq!(MissileComponentKey::CruiseGuidance.to_avionics_key(), Some(AvionicsKey::CruiseGuidance));
    assert_eq!(MissileComponentKey::BlastFragmentationEL.to_warhead_key(), Some(WarheadKey::BlastFragmentationEL));
    assert_eq!(MissileComponentKey::DecoyLauncher.save_key(), AuxiliaryKey::DecoyLauncher.save_key());
    for k in MissileComponentKey::values() {
        assert_eq!(MissileComponentKey::from_str(k.save_key()), Ok(k));
    }
    assert!(MissileComponentKey::from_str("Stock/Nothing").is_err());
}

#[test]
fn format_enum_names() {
    assert_eq!(DefensiveTargetType::from_str("Hybrid"), Ok(DefensiveTargetType::Hybrid));
    assert_eq!(DefensiveTargetType::Conventional.to_str(), "Conventional");
    assert_eq!(SizeOrdering::Ascending.to_str(), "Ascending");
    assert_eq!(SizeOrdering::from_str(SizeOrdering::Equal.to_str()), Ok(SizeOrdering::Equal));
    for r in MissileRole::values() {
        assert_eq!(MissileRole::from_str(r.to_str()), Ok(r));
    }
    for t in AntiRadiationTargetType::values() {
        assert_eq!(AntiRadiationTargetType::from_str(t.to_str()), Ok(t));
    }
}
