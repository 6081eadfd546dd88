use nebulous_data::data::missiles::seekers::{SeekerKind, SeekerMode};
use nebulous_data::data::missiles::{AuxiliaryKey, AvionicsKey, Maneuvers, WarheadKey};
use nebulous_data::data::MissileSize;
use nebulous_data::format::DefensiveDoctrine;
use nebulous_data::loadout::AvionicsConfigured;
use nebulous_data::model::{DistanceRealm, PointDefenseType, WeaponFamily};
use nebulous_data::predicate::tokens::{tokenize, Ident, Symbol, Token};
use nebulous_data::predicate::{AvionicsPredicate, MultiPredicate, WeaponFamilyPredicate, MissileEquipmentPredicate};
use nebulous_data::data::missiles::bodies::MissileBodyKey;
use nebulous_data::data::missiles::seekers::strategy::SeekerStrategy;
use nebulous_data::model::MissileEquipmentSummary;
use nebulous_data::model::ShipEquipment;
use nebulous_data::model::equipment::ShipEquipmentSummary;
use nebulous_data::data::components::SigType;
use nebulous_data::predicate::ShipEquipmentPredicate;

fn ident(s: &str) -> Token {
    Token::Ident(Ident { contents: s.to_string() })
}

fn sym(s: Symbol) -> Token {
    Token::Symbol(s)
}

fn toks(s: &str) -> Vec<Token> {
    tokenize(s).unwrap()
}

#[test]
fn tokenize_words_and_symbols() {
    assert_eq!(tokenize("any(hot_launch, maneuvers/weave)"), Ok(vec![
        ident("any"), sym(Symbol::RoundBracketOpen), ident("hot_launch"), sym(Symbol::Comma),
        ident("maneuvers"), sym(Symbol::Slash), ident("weave"), sym(Symbol::RoundBracketClose),
    ]));
    assert_eq!(tokenize("near..far"), Ok(vec![ident("near"), sym(Symbol::Ellipsis), ident("far")]));
    assert_eq!(tokenize("  [ A_1 ,b2 ]\n"), Ok(vec![
        sym(Symbol::SquareBracketOpen), ident("A_1"), sym(Symbol::Comma), ident("b2"), sym(Symbol::SquareBracketClose),
    ]));
    assert_eq!(tokenize(""), Ok(vec![]));
}

#[test]
fn tokenize_errors() {
    assert_eq!(tokenize("   "), Err(3));
    assert_eq!(tokenize("a . b"), Err(2));
    assert_eq!(tokenize("a.b"), Err(1));
    assert_eq!(tokenize("weave-left"), Err(5));
    assert_eq!(tokenize("é"), Err(0));
}

#[test]
fn symbols_are_written_as_read() {
    let all = [
        Symbol::Slash, Symbol::Comma, Symbol::Ellipsis, Symbol::SquareBracketOpen,
        Symbol::SquareBracketClose, Symbol::RoundBracketOpen, Symbol::RoundBracketClose,
    ];
    let written: Vec<&str> = all.iter().map(|s| s.to_str()).collect();
    assert_eq!(written, vec!["/", ",", "..", "[", "]", "(", ")"]);
    for s in all {
        assert_eq!(tokenize(s.to_str()), Ok(vec![Token::Symbol(s)]));
    }
}

#[test]
fn keyword_parsers() {
    let t = toks("semi_active_radar val he_kinetic_penetrator cruise_guidance decoy_launcher none bogus");
    assert_eq!(SeekerKind::parser(&t, 0), Some((SeekerKind::SemiActiveRadar, 1)));
    assert_eq!(SeekerMode::parser(&t, 1), Some((SeekerMode::Validation, 2)));
    assert_eq!(WarheadKey::parser(&t, 2), Some((WarheadKey::HEKineticPenetrator, 3)));
    assert_eq!(AvionicsKey::parser(&t, 3), Some((AvionicsKey::CruiseGuidance, 4)));
    assert_eq!(AuxiliaryKey::parser(&t, 4), Some((AuxiliaryKey::DecoyLauncher, 5)));
    assert_eq!(Maneuvers::parser(&t, 5), Some((Maneuvers::NoManeuvers, 6)));
    assert_eq!(Maneuvers::parser(&t, 6), None);
    assert_eq!(SeekerKind::parser(&t, 7), None);
    assert_eq!(SeekerMode::parser(&toks("tgt"), 0), Some((SeekerMode::Targeting, 1)));
    assert_eq!(SeekerKind::parser(&toks("/"), 0), None);
}

#[test]
fn realm_tests_parse() {
    let t = toks("near..far");
    assert_eq!(MultiPredicate::<DistanceRealm>::parser(&t, 0), Some((MultiPredicate::InRange(DistanceRealm::Near, DistanceRealm::Far), 3)));
    let t = toks("[near, mid,]");
    assert_eq!(MultiPredicate::<DistanceRealm>::parser(&t, 0), Some((MultiPredicate::AnyOf(vec![DistanceRealm::Near, DistanceRealm::Middle]), 6)));
    let t = toks("far..");
    assert_eq!(MultiPredicate::<DistanceRealm>::parser(&t, 0), Some((MultiPredicate::Only(DistanceRealm::Far), 1)));
    assert_eq!(MultiPredicate::<DistanceRealm>::parser(&toks("[]"), 0), None);
    assert_eq!(MultiPredicate::<DistanceRealm>::parser(&toks("[near far]"), 0), None);
    assert_eq!(MultiPredicate::<DistanceRealm>::parser(&toks("close"), 0), None);
}

#[test]
fn realm_tests_contain() {
    let range = MultiPredicate::InRange(DistanceRealm::Middle, DistanceRealm::Far);
    assert!(!range.contains(&DistanceRealm::Near));
    assert!(range.contains(&DistanceRealm::Middle));
    assert!(range.contains(&DistanceRealm::Far));
    let list = MultiPredicate::AnyOf(vec![DistanceRealm::Near, DistanceRealm::Far]);
    assert!(list.contains(&DistanceRealm::Far));
    assert!(!list.contains(&DistanceRealm::Middle));
    assert!(MultiPredicate::Only(DistanceRealm::Near).contains(&DistanceRealm::Near));
    assert!(!MultiPredicate::Only(DistanceRealm::Near).contains(&DistanceRealm::Far));
    assert!(!MultiPredicate::InRange(DistanceRealm::Far, DistanceRealm::Near).contains(&DistanceRealm::Middle));
}

#[test]
fn weapon_family_tests_parse() {
    let t = toks("energy_beam/near..mid");
    assert_eq!(WeaponFamilyPredicate::parser(&t, 0), Some((WeaponFamilyPredicate::EnergyBeam(Some(MultiPredicate::InRange(DistanceRealm::Near, DistanceRealm::Middle))), 5)));
    let t = toks("ballistic");
    assert_eq!(WeaponFamilyPredicate::parser(&t, 0), Some((WeaponFamilyPredicate::Ballistic(None), 1)));
    let t = toks("energy_plasma/close");
    assert_eq!(WeaponFamilyPredicate::parser(&t, 0), Some((WeaponFamilyPredicate::EnergyPlasma(None), 1)));
    let t = toks("point_defense/pavise");
    assert_eq!(WeaponFamilyPredicate::parser(&t, 0), Some((WeaponFamilyPredicate::PointDefense(Some(PointDefenseType::Defender)), 3)));
    let t = toks("standard_missile/2");
    assert_eq!(WeaponFamilyPredicate::parser(&t, 0), Some((WeaponFamilyPredicate::StandardMissile(Some(MissileSize::Size2)), 3)));
    let t = toks("energy_rail_gun/[far]");
    assert_eq!(WeaponFamilyPredicate::parser(&t, 0), Some((WeaponFamilyPredicate::EnergyRailgun(Some(MultiPredicate::AnyOf(vec![DistanceRealm::Far]))), 5)));
    assert_eq!(WeaponFamilyPredicate::parser(&toks("loitering_mine"), 0), Some((WeaponFamilyPredicate::LoiteringMine, 1)));
    assert_eq!(WeaponFamilyPredicate::parser(&toks("container_missile"), 0), Some((WeaponFamilyPredicate::ContainerMissile, 1)));
    assert_eq!(WeaponFamilyPredicate::parser(&toks("unguided_rocket"), 0), Some((WeaponFamilyPredicate::UnguidedRocket, 1)));
    assert_eq!(WeaponFamilyPredicate::parser(&toks("laser"), 0), None);
}

#[test]
fn weapon_family_tests_test() {
    let p = WeaponFamilyPredicate::EnergyBeam(Some(MultiPredicate::Only(DistanceRealm::Far)));
    assert!(p.test(&WeaponFamily::EnergyBeam(DistanceRealm::Far)));
    assert!(!p.test(&WeaponFamily::EnergyBeam(DistanceRealm::Near)));
    assert!(!p.test(&WeaponFamily::EnergyPlasma(DistanceRealm::Far)));
    assert!(WeaponFamilyPredicate::Ballistic(None).test(&WeaponFamily::Ballistic(DistanceRealm::Near)));
    assert!(WeaponFamilyPredicate::PointDefense(None).test(&WeaponFamily::PointDefense(PointDefenseType::Flak)));
    assert!(!WeaponFamilyPredicate::PointDefense(Some(PointDefenseType::Beam)).test(&WeaponFamily::PointDefense(PointDefenseType::Flak)));
    assert!(WeaponFamilyPredicate::StandardMissile(Some(MissileSize::Size3)).test(&WeaponFamily::StandardMissile(MissileSize::Size3)));
    assert!(WeaponFamilyPredicate::UnguidedRocket.test(&WeaponFamily::UnguidedRocket));
    assert!(!WeaponFamilyPredicate::UnguidedRocket.test(&WeaponFamily::LoiteringMine));
}

#[test]
fn avionics_tests_parse() {
    let t = toks("any(hot_launch, not(self_destruct_on_lost), maneuvers/corkscrew,)");
    let expected = AvionicsPredicate::Any(vec![
        AvionicsPredicate::HotLaunch,
        AvionicsPredicate::Not(Box::new(AvionicsPredicate::SelfDestructOnLost)),
        AvionicsPredicate::Maneuvers(Maneuvers::Corkscrew),
    ]);
    assert_eq!(AvionicsPredicate::parser(&t, 0), Some((expected, t.len())));
    let t = toks("all(defensive_doctrine) trailing");
    assert_eq!(AvionicsPredicate::parser(&t, 0), Some((AvionicsPredicate::All(vec![AvionicsPredicate::DefensiveDoctrine]), 4)));
    assert_eq!(AvionicsPredicate::parser(&toks("any()"), 0), None);
    assert_eq!(AvionicsPredicate::parser(&toks("not(hot_launch"), 0), None);
    assert_eq!(AvionicsPredicate::parser(&toks("any(hot_launch,,hot_launch)"), 0), None);
    assert_eq!(AvionicsPredicate::parser(&toks("maneuvers/spin"), 0), None);
    assert_eq!(AvionicsPredicate::parser(&toks("hot_launch"), 1), None);
}

fn direct(hot_launch: bool, self_destruct_on_lost: bool, maneuvers: Maneuvers, doctrine: bool) -> AvionicsConfigured {
    AvionicsConfigured::DirectGuidance {
        hot_launch,
        self_destruct_on_lost,
        maneuvers,
        defensive_doctrine: if doctrine { Some(DefensiveDoctrine::default()) } else { None },
        approach_angle_control: false,
    }
}

#[test]
fn avionics_tests_test() {
    let a = direct(true, false, Maneuvers::Weave, false);
    assert!(AvionicsPredicate::HotLaunch.test(a));
    assert!(!AvionicsPredicate::SelfDestructOnLost.test(a));
    assert!(AvionicsPredicate::Maneuvers(Maneuvers::Weave).test(a));
    assert!(!AvionicsPredicate::DefensiveDoctrine.test(a));
    assert!(AvionicsPredicate::DefensiveDoctrine.test(direct(false, false, Maneuvers::Weave, true)));
    let any = AvionicsPredicate::Any(vec![AvionicsPredicate::SelfDestructOnLost, AvionicsPredicate::HotLaunch]);
    let all = AvionicsPredicate::All(vec![AvionicsPredicate::SelfDestructOnLost, AvionicsPredicate::HotLaunch]);
    assert!(any.test(a));
    assert!(!all.test(a));
    assert!(AvionicsPredicate::Not(Box::new(all)).test(a));
    assert!(!AvionicsPredicate::Any(vec![]).test(a));
    assert!(AvionicsPredicate::All(vec![]).test(a));
    let cruise = AvionicsConfigured::CruiseGuidance {
        hot_launch: false,
        self_destruct_on_lost: true,
        maneuvers: Maneuvers::Corkscrew,
        defensive_doctrine: None,
    };
    assert!(AvionicsPredicate::SelfDestructOnLost.test(cruise));
    assert_eq!(cruise.maneuvers(), Maneuvers::Corkscrew);
}

#[test]
fn missile_equipment_tests_test() {
    let summary = MissileEquipmentSummary {
        body_key: MissileBodyKey::SGM2Tempest,
        seekers: SeekerStrategy::new(SeekerKind::ActiveRadar, vec![(SeekerKind::ElectroOptical, SeekerMode::Validation)]),
        auxiliary_components: vec![AuxiliaryKey::HardenedSkin],
        avionics: direct(true, false, Maneuvers::Weave, false),
        warhead: Some(WarheadKey::HEImpact),
    };
    assert!(MissileEquipmentPredicate::Seeker(SeekerKind::ActiveRadar, SeekerMode::Targeting).test(&summary));
    assert!(MissileEquipmentPredicate::Seeker(SeekerKind::ElectroOptical, SeekerMode::Validation).test(&summary));
    assert!(!MissileEquipmentPredicate::Seeker(SeekerKind::ElectroOptical, SeekerMode::Targeting).test(&summary));
    assert!(MissileEquipmentPredicate::Auxiliary(AuxiliaryKey::HardenedSkin).test(&summary));
    assert!(!MissileEquipmentPredicate::Auxiliary(AuxiliaryKey::DecoyLauncher).test(&summary));
    assert!(MissileEquipmentPredicate::Avionics(AvionicsKey::DirectGuidance, None).test(&summary));
    assert!(MissileEquipmentPredicate::Avionics(AvionicsKey::DirectGuidance, Some(AvionicsPredicate::HotLaunch)).test(&summary));
    assert!(!MissileEquipmentPredicate::Avionics(AvionicsKey::DirectGuidance, Some(AvionicsPredicate::SelfDestructOnLost)).test(&summary));
    assert!(!MissileEquipmentPredicate::Avionics(AvionicsKey::CruiseGuidance, None).test(&summary));
    assert!(MissileEquipmentPredicate::Warhead(WarheadKey::HEImpact).test(&summary));
    assert!(!MissileEquipmentPredicate::Warhead(WarheadKey::BlastFragmentation).test(&summary));
    assert_eq!(summary.avionics.into_avionics_key(), AvionicsKey::DirectGuidance);
}

#[test]
fn ship_equipment_summary_adds() {
    let mut summary = ShipEquipmentSummary::default();
    assert!(!summary.has_intelligence);
    summary.add_ship_equipment(ShipEquipment::Intelligence);
    summary.add_ship_equipment(ShipEquipment::Sensor { sig_type: SigType::Radar });
    summary.add_ship_equipment(ShipEquipment::Sensor { sig_type: SigType::ElectroOptical });
    summary.add_ship_equipment(ShipEquipment::Sensor { sig_type: SigType::Radar });
    summary.add_ship_equipment(ShipEquipment::Weapon { family: WeaponFamily::Ballistic(DistanceRealm::Middle) });
    summary.add_ship_equipment(ShipEquipment::FireControl { sig_type: SigType::Radar });
    assert!(summary.has_intelligence);
    assert!(!summary.has_illuminator);
    let sensors: Vec<SigType> = summary.sensors.iter().copied().collect();
    assert_eq!(sensors, vec![SigType::Radar, SigType::ElectroOptical]);
    assert_eq!(summary.weapons.len(), 1);
    assert!(summary.jamming.is_empty());
    assert!(summary.missile_cells.is_empty());

    assert!(ShipEquipmentPredicate::Intelligence.test(&summary));
    assert!(!ShipEquipmentPredicate::Illuminator.test(&summary));
    assert!(ShipEquipmentPredicate::Sensor(Some(SigType::ElectroOptical)).test(&summary));
    assert!(ShipEquipmentPredicate::FireControl(None).test(&summary));
    assert!(!ShipEquipmentPredicate::FireControl(Some(SigType::Comms)).test(&summary));
    assert!(ShipEquipmentPredicate::Jammer(None).test(&summary));
    assert!(!ShipEquipmentPredicate::Jammer(Some(SigType::Radar)).test(&summary));
    assert!(ShipEquipmentPredicate::Weapon(WeaponFamilyPredicate::Ballistic(None)).test(&summary));
    assert!(ShipEquipmentPredicate::Weapon(WeaponFamilyPredicate::Ballistic(Some(MultiPredicate::Only(DistanceRealm::Middle)))).test(&summary));
    assert!(!ShipEquipmentPredicate::Weapon(WeaponFamilyPredicate::Ballistic(Some(MultiPredicate::Only(DistanceRealm::Far)))).test(&summary));
    assert!(!ShipEquipmentPredicate::Weapon(WeaponFamilyPredicate::LoiteringMine).test(&summary));
}
