use nebulous_data::data::components::info::{ComponentInfo, ComponentVariantInfo};
use nebulous_data::data::components::{CellGroups, ComponentKey, ComponentKind, MissileLauncherCells, SigType};
use nebulous_data::data::hulls::HullKey;
use nebulous_data::data::munitions::{MunitionFamily, MunitionKey, WeaponRole};
use nebulous_data::data::{Faction, MissileSize};
use nebulous_data::model::equipment::ShipEquipmentSummary;
use nebulous_data::model::{DistanceRealm, MissileType, PointDefenseType, WeaponFamily};
use nebulous_data::utils::Size;
use nebulous_data::data::hulls::sockets::HullSocketInfo;
use nebulous_data::data::Direction;
use nebulous_data::format::key::Key;
use nebulous_data::model::iter_socket_components;

#[test]
fn component_records() {
    let a = ComponentKey::ActivelyCooledAmplifiers.info();
    assert_eq!(a, ComponentInfo {
        name: "Actively Cooled Amplifiers",
        save_key: "Stock/Actively Cooled Amplifiers",
        kind: ComponentKind::Module,
        faction: None,
        first_instance_free: false,
        point_cost: 25,
        size: Size::new(2, 2, 2),
        power: -175,
        crew: 0,
        reinforced: false,
        variant: None,
    });
    let berthing = ComponentKey::Berthing.info();
    assert_eq!(berthing.variant, Some(ComponentVariantInfo::Berthing));
    assert_eq!((berthing.crew, berthing.point_cost, berthing.first_instance_free), (3, 1, true));
    assert_eq!(ComponentKey::C56Cannon.info().save_key, "Stock/C54 Cannon");
    assert_eq!(ComponentKey::C56Cannon.info().name, "C56 Cannon");
    assert_eq!(ComponentKey::BW1500RDrive.info().faction, Some(Faction::Protectorate));
    assert!(ComponentKey::BW1500RDrive.info().reinforced);
    assert_eq!(ComponentKey::CLS3Launcher.info().variant, Some(ComponentVariantInfo::WeaponMissileBank {
        is_fixed: true,
        integrated_fire_control: None,
        optical_backup: false,
        role: WeaponRole::Offensive,
        munition_family: MunitionFamily::StandardMissile,
        missile_size: MissileSize::Size3,
        cells: MissileLauncherCells::Function { count_per_group: 2, groups: CellGroups::Cls3 },
    }));
    assert_eq!(ComponentKey::RM50ParallaxRadar.info().variant, Some(ComponentVariantInfo::Sensor {
        sig_type: SigType::Radar, can_lock: true, can_burnthrough: true, directional: false,
    }));
    for k in ComponentKey::values() {
        assert_eq!(k.info().save_key, k.save_key());
    }
}

#[test]
fn component_fitting() {
    let berthing = ComponentKey::Berthing.info();
    let socket = Size::new(3, 2, 2);
    assert!(berthing.can_tile());
    assert_eq!(berthing.tiling_quantity(socket), 12);
    assert_eq!(berthing.crew(socket), 36);
    assert_eq!(berthing.undersize_volume_within(socket), Some(0));
    let amps = ComponentKey::ActivelyCooledAmplifiers.info();
    assert!(!amps.can_tile());
    assert_eq!(amps.tiling_quantity(Size::new(4, 4, 4)), 1);
    assert_eq!(amps.tiling_quantity(Size::new(1, 4, 4)), 0);
    assert_eq!(amps.crew(Size::new(4, 4, 4)), 0);
    assert_eq!(amps.undersize_volume_within(Size::new(3, 3, 4)), Some(2));
    assert_eq!(amps.undersize_volume_within(Size::new(1, 3, 4)), None);
    let cls3 = ComponentKey::CLS3Launcher.info();
    assert_eq!(cls3.undersize_volume_within(Size::new(3, 4, 5)), Some(0));
    assert_eq!(cls3.undersize_volume_within(Size::new(3, 4, 3)), None);
    let magazine = ComponentKey::BulkMagazine.info();
    assert_eq!(magazine.undersize_volume_within(Size::new(3, 3, 2)), Some(0));
    // faction rules
    let drive = ComponentKey::BW1500Drive.info();
    assert!(drive.is_usable_by(Faction::Protectorate));
    assert!(!drive.is_usable_by(Faction::Alliance));
    assert!(!drive.is_usable_on(HullKey::RainesFrigate));
    assert!(drive.is_usable_on(HullKey::OcelloCommandCruiser));
    assert!(amps.is_usable_on(HullKey::RainesFrigate));
}

#[test]
fn munition_ranges_and_families() {
    assert_eq!(MunitionKey::A300mmAPRailSabot.max_range(), 21000);
    assert_eq!(MunitionKey::CM4D2DecoyContainerLineShip.max_range(), 15600);
    assert_eq!(MunitionFamily::BallisticChemical100mm.max_range(), Some(7997));
    assert_eq!(MunitionFamily::StandardMissile.max_range(), Some(600));
    assert_eq!(MunitionFamily::Infinite.max_range(), None);
    assert_eq!(WeaponFamily::from_munition_family(MunitionFamily::BallisticChemical100mm, None),
        Some(WeaponFamily::Ballistic(DistanceRealm::Middle)));
    assert_eq!(WeaponFamily::from_munition_family(MunitionFamily::BallisticMagnetic300mmRailgun, None),
        Some(WeaponFamily::EnergyRailgun(DistanceRealm::Far)));
    assert_eq!(WeaponFamily::from_munition_family(MunitionFamily::BallisticChemical20mm, None),
        Some(WeaponFamily::PointDefense(PointDefenseType::Defender)));
    assert_eq!(WeaponFamily::from_munition_family(MunitionFamily::StandardMissile, Some(MissileSize::Size2)),
        Some(WeaponFamily::StandardMissile(MissileSize::Size2)));
    assert_eq!(WeaponFamily::from_munition_family(MunitionFamily::StandardMissile, None), None);
    assert_eq!(WeaponFamily::from_munition_family(MunitionFamily::Infinite, None), None);
    assert_eq!(MissileType::from_munition_family(MunitionFamily::StandardMissile, Some(MissileSize::Size1)),
        Some(MissileType::StandardMissileSize1));
    assert_eq!(MissileType::from_munition_family(MunitionFamily::ContainerMissile, None), Some(MissileType::ContainerMissile));
    assert_eq!(MissileType::from_munition_family(MunitionFamily::BallisticChemical100mm, None), None);
}

#[test]
fn equipment_from_components() {
    let mut s = ShipEquipmentSummary::default();
    s.add_component_key(ComponentKey::RM50ParallaxRadar);
    assert_eq!(s.sensors.iter().copied().collect::<Vec<_>>(), vec![SigType::Radar]);
    assert_eq!(s.fire_control.iter().copied().collect::<Vec<_>>(), vec![SigType::Radar]);
    s.add_component_key(ComponentKey::E70InterruptionJammer);
    assert_eq!(s.jamming.iter().copied().collect::<Vec<_>>(), vec![SigType::Comms]);
    s.add_component_key(ComponentKey::E15MasqueradeDeceptionModule);
    s.add_component_key(ComponentKey::ES32ScryerMissileIDSystem);
    s.add_component_key(ComponentKey::IntelligenceCenter);
    assert!(s.has_deception_module && s.has_missile_identification && s.has_intelligence);
    assert!(!s.has_illuminator);
    s.add_component_key(ComponentKey::ES22PinardElectronicSupportModule);
    assert_eq!(s.sensors.len(), 1);
    s.add_component_key(ComponentKey::P60GrazerPDT);
    s.add_component_key(ComponentKey::Mk600BeamCannon);
    s.add_component_key(ComponentKey::C30Cannon);
    s.add_component_key(ComponentKey::MLS2Launcher);
    s.add_component_key(ComponentKey::Berthing);
    assert_eq!(s.weapons.iter().copied().collect::<Vec<_>>(), vec![
        WeaponFamily::PointDefense(PointDefenseType::Beam),
        WeaponFamily::EnergyBeam(DistanceRealm::Near),
        WeaponFamily::Ballistic(DistanceRealm::Middle),
        WeaponFamily::StandardMissile(MissileSize::Size2),
    ]);
}

#[test]
fn hull_sockets() {
    let sockets = HullKey::SprinterCorvette.sockets();
    assert_eq!(sockets.len(), 12);
    assert_eq!(sockets[0], HullSocketInfo {
        save_key: Key::from_str("wDsRnL5nKkyYvKgD6VcPHg").unwrap(),
        kind: ComponentKind::Mount,
        size: Size::new(3, 4, 5),
        direction: Some(Direction::Down),
    });
    assert_eq!(sockets[4].kind, ComponentKind::Compartment);
    assert_eq!(sockets[8].kind, ComponentKind::Module);
    assert_eq!(sockets[8].size, Size::new(3, 3, 3));
    assert_eq!(HullKey::SolomonBattleship.sockets().len(), 45);
    assert_eq!(HullKey::RainesFrigate.base_crew_complement(), 50);
    assert_eq!(Key::from_u128(5).to_bytes()[15], 5);
}

#[test]
fn socket_components() {
    // the Sprinter's first mount is 3x4x5: it takes the CLS-3 and the VLS-2
    // (Alliance launchers that fit) but no Protectorate component
    let fitting = iter_socket_components(HullKey::SprinterCorvette, 0);
    assert!(fitting.contains(&ComponentKey::CLS3Launcher));
    assert!(fitting.contains(&ComponentKey::VLS2Launcher));
    assert!(!fitting.contains(&ComponentKey::C30Cannon));
    for k in &fitting {
        let info = k.info();
        assert!(info.is_usable_on(HullKey::SprinterCorvette) && info.can_fit_in(Size::new(3, 4, 5)));
    }
    // the Ocello takes components of both factions
    let ocello = HullKey::OcelloCommandCruiser.sockets();
    let any = (0..ocello.len()).any(|i| {
        iter_socket_components(HullKey::OcelloCommandCruiser, i).iter().any(|k| k.info().faction == Some(Faction::Protectorate))
    });
    assert!(any);
}

#[test]
fn adding_components_twice_or_in_another_order() {
    let mut once = ShipEquipmentSummary::default();
    once.add_component_key(ComponentKey::E15MasqueradeDeceptionModule);
    assert!(once.has_deception_module);
    assert!(!once.has_intelligence && !once.has_illuminator && !once.has_missile_identification);
    assert!(once.fire_control.is_empty() && once.jamming.is_empty() && once.sensors.is_empty() && once.weapons.is_empty());
    let mut a = ShipEquipmentSummary::default();
    a.add_component_key(ComponentKey::RM50ParallaxRadar);
    a.add_component_key(ComponentKey::C30Cannon);
    let mut twice = ShipEquipmentSummary::default();
    twice.add_component_key(ComponentKey::RM50ParallaxRadar);
    twice.add_component_key(ComponentKey::RM50ParallaxRadar);
    twice.add_component_key(ComponentKey::C30Cannon);
    twice.add_component_key(ComponentKey::C30Cannon);
    assert_eq!(a, twice);
    let mut b = ShipEquipmentSummary::default();
    b.add_component_key(ComponentKey::C30Cannon);
    b.add_component_key(ComponentKey::RM50ParallaxRadar);
    // IndexSet's == ignores the order in which items were added
    assert_eq!(a, b);
}
