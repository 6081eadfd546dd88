use nebulous_data::data::components::{ComponentKey, SigType};
use nebulous_data::data::hulls::HullKey;
use nebulous_data::data::missiles::bodies::MissileBodyKey;
use nebulous_data::data::missiles::seekers::SeekerKind;
use nebulous_data::data::missiles::seekers::strategy::SeekerStrategy;
use nebulous_data::data::missiles::{Maneuvers, WarheadKey};
use nebulous_data::loadout::AvionicsConfigured;
use nebulous_data::model::equipment::ShipEquipmentSummary;
use nebulous_data::model::{DistanceRealm, MissileEquipmentSummary};
use nebulous_data::predicate::ship::{parse_ship_predicate, MissilePredicate, PredicateParseError, ShipPredicate};
use nebulous_data::predicate::tokens::tokenize;
use nebulous_data::predicate::{MissileEquipmentPredicate, MultiPredicate, ShipEquipmentPredicate, WeaponFamilyPredicate};

#[test]
fn ship_predicates_parse() {
    assert_eq!(parse_ship_predicate("equipment/sensor/radar"),
        Ok(ShipPredicate::Equipment(ShipEquipmentPredicate::Sensor(Some(SigType::Radar)))));
    assert_eq!(parse_ship_predicate("equipment/jammer"),
        Ok(ShipPredicate::Equipment(ShipEquipmentPredicate::Jammer(None))));
    assert_eq!(parse_ship_predicate("any(hull_key/raines, not(equipment/intelligence),)"),
        Ok(ShipPredicate::Any(vec![
            ShipPredicate::HullKey(HullKey::RainesFrigate),
            ShipPredicate::Not(Box::new(ShipPredicate::Equipment(ShipEquipmentPredicate::Intelligence))),
        ])));
    assert_eq!(parse_ship_predicate("all(hull_key/moorline, equipment/weapon/energy_beam/near..middle)"),
        Ok(ShipPredicate::All(vec![
            ShipPredicate::HullKey(HullKey::ContainerLinerLineShip),
            ShipPredicate::Equipment(ShipEquipmentPredicate::Weapon(WeaponFamilyPredicate::EnergyBeam(
                Some(MultiPredicate::InRange(DistanceRealm::Near, DistanceRealm::Middle))))),
        ])));
    // the generator reads the total budget keyword as a test of the spare budget, and back
    assert_eq!(parse_ship_predicate("cost_budget_total/100..200"), Ok(ShipPredicate::CostBudgetSpare(100, 200)));
    assert_eq!(parse_ship_predicate("cost_budget_spare/0..50"), Ok(ShipPredicate::CostBudgetTotal(0, 50)));
    assert_eq!(parse_ship_predicate("hull_key/unknown"), Err(PredicateParseError::Grammar));
    assert_eq!(parse_ship_predicate("any()"), Err(PredicateParseError::Grammar));
    assert_eq!(parse_ship_predicate("tag"), Err(PredicateParseError::Grammar));
    assert!(matches!(parse_ship_predicate("hull_key/raines ?"), Err(PredicateParseError::Token(_))));
    let t = tokenize("equipment/deception_module").unwrap();
    assert_eq!(ShipPredicate::parser(&t, 0), Some((ShipPredicate::Equipment(ShipEquipmentPredicate::DeceptionModule), 3)));
    assert_eq!(ShipEquipmentPredicate::parser(&t, 2), Some((ShipEquipmentPredicate::DeceptionModule, 3)));
    assert_eq!(ShipEquipmentPredicate::parser(&t, 0), None);
}

#[test]
fn ship_predicates_test() {
    let mut summary = ShipEquipmentSummary::default();
    summary.add_component_key(ComponentKey::RM50ParallaxRadar);
    summary.add_component_key(ComponentKey::C30Cannon);
    let tags = vec!["flagship".to_string()];
    let check = |s: &str| parse_ship_predicate(s).unwrap().test(&tags, HullKey::RainesFrigate, 500, 40, &summary);
    assert!(check("equipment/sensor/radar"));
    assert!(check("equipment/fire_control"));
    // with no signature type named, any summary passes
    assert!(check("equipment/jammer"));
    assert!(!check("equipment/jammer/radar"));
    assert!(check("equipment/weapon/ballistic"));
    assert!(!check("equipment/weapon/ballistic/far"));
    assert!(check("all(hull_key/raines, cost_budget_spare/500..501)"));
    assert!(check("cost_budget_total/40..41"));
    assert!(!check("cost_budget_total/41..100"));
    assert!(check("any(hull_key/solomon, not(equipment/illuminator))"));
    assert!(!check("all(hull_key/solomon, equipment/sensor)"));
    assert!(ShipPredicate::Tag("flagship".to_string()).test(&tags, HullKey::RainesFrigate, 0, 0, &summary));
    assert!(!ShipPredicate::Tag("escort".to_string()).test(&tags, HullKey::RainesFrigate, 0, 0, &summary));
}

#[test]
fn missile_predicates_test() {
    let summary = MissileEquipmentSummary {
        body_key: MissileBodyKey::SGM2Tempest,
        seekers: SeekerStrategy::new_single(SeekerKind::ActiveRadar),
        auxiliary_components: vec![],
        avionics: AvionicsConfigured::CruiseGuidance { hot_launch: true, self_destruct_on_lost: false,
            maneuvers: Maneuvers::Weave, defensive_doctrine: None },
        warhead: Some(WarheadKey::HEImpact),
    };
    let tags = vec!["cheap".to_string()];
    let p = MissilePredicate::All(vec![
        MissilePredicate::MissileBodyKey(MissileBodyKey::SGM2Tempest),
        MissilePredicate::Cost(10, 20),
        MissilePredicate::Equipment(MissileEquipmentPredicate::Warhead(WarheadKey::HEImpact)),
        MissilePredicate::Tag("cheap".to_string()),
    ]);
    assert!(p.test(&tags, MissileBodyKey::SGM2Tempest, 15, &summary));
    assert!(!p.test(&tags, MissileBodyKey::SGM2Tempest, 20, &summary));
    let q = MissilePredicate::Any(vec![
        MissilePredicate::Not(Box::new(MissilePredicate::Cost(0, 100))),
        MissilePredicate::MissileBodyKey(MissileBodyKey::SGM1Balestra),
    ]);
    assert!(!q.test(&tags, MissileBodyKey::SGM2Tempest, 15, &summary));
    assert!(q.test(&tags, MissileBodyKey::SGM2Tempest, 150, &summary));
}
