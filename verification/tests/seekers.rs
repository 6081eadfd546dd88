use nebulous_data::data::Faction;
use nebulous_data::data::missiles::seekers::{SeekerKey, SeekerKind, SeekerMode, Countermeasure, CountermeasureCategory};
use nebulous_data::data::missiles::seekers::matrix::{CountermeasureMatrix, CountermeasuresMask};
use nebulous_data::data::missiles::seekers::strategy::{SeekerStrategy, SeekerStrategyEntry};

fn mask(num: u32) -> CountermeasuresMask {
    CountermeasuresMask::from_num(num)
}

fn nums(masks: &[CountermeasuresMask]) -> Vec<u32> {
    masks.iter().map(|m| m.to_num()).collect()
}

#[test]
fn mask_numbers_round_trip() {
    for n in 0..256u32 {
        assert_eq!(mask(n).to_num(), n);
    }
    let m = mask(5);
    assert!(m.radar_jamming && m.laser_dazzler);
    assert!(!m.comms_jamming && !m.chaff_decoy && !m.cut_radar);
    assert_eq!(m.count_trues(), 2);
    assert_eq!(m.count_falses(), 6);
    assert_eq!(m.iter_filtered(), vec![Countermeasure::RadarJamming, Countermeasure::LaserDazzler]);
}

#[test]
fn mask_predicates() {
    assert!(CountermeasuresMask::mask_all().all());
    assert!(CountermeasuresMask::mask_none().none());
    assert!(!CountermeasuresMask::mask_none().any());
    assert!(mask(64).any());
    assert!(!mask(64).all());
    assert_eq!(CountermeasuresMask::mask_all().to_num(), 255);
}

#[test]
fn mask_operations() {
    let a = mask(0b0000_1111);
    let b = mask(0b0011_1100);
    assert_eq!(a.and(b).to_num(), 0b0000_1100);
    // `or` and `xor` compute the intersection, as `and` does.
    assert_eq!(a.or(b).to_num(), 0b0000_1100);
    assert_eq!(a.xor(b).to_num(), 0b0000_1100);
    assert_eq!(a.not().to_num(), 0b1111_0000);
}

#[test]
fn mask_categories_and_factions() {
    assert_eq!(CountermeasureCategory::Jamming.mask().to_num(), 0b0000_0111);
    assert_eq!(CountermeasureCategory::Decoy.mask().to_num(), 0b0011_1000);
    assert_eq!(CountermeasureCategory::Concealment.mask().to_num(), 0b1100_0000);
    assert_eq!(CountermeasuresMask::from_faction(Faction::Alliance).to_num(), 255 - 4);
    assert_eq!(CountermeasuresMask::from_faction(Faction::Protectorate).to_num(), 255 - 32);
    let all = CountermeasuresMask::mask_all();
    assert_eq!(all.mask_faction(Faction::Alliance).to_num(), 251);
    assert_eq!(all.mask_faction_inv(Faction::Alliance).to_num(), 4);
    assert_eq!(all.mask_category(CountermeasureCategory::Decoy).to_num(), 0b0011_1000);
    assert_eq!(all.mask_category_inv(CountermeasureCategory::Decoy).to_num(), 0b1100_0111);
    assert_eq!(Countermeasure::CutRadar.category(), CountermeasureCategory::Concealment);
}

#[test]
fn mask_values() {
    let values = CountermeasuresMask::values();
    assert_eq!(values.len(), 256);
    assert_eq!(values[37].to_num(), 37);
    let ordered = CountermeasuresMask::values_ordered();
    assert_eq!(ordered.len(), 255);
    assert_eq!(nums(&ordered[..8]), vec![1, 2, 4, 8, 16, 32, 64, 128]);
    assert_eq!(ordered[8].to_num(), 3);
    assert_eq!(ordered[254].to_num(), 255);
    for w in ordered.windows(2) {
        assert!(w[0].count_trues() <= w[1].count_trues());
    }
}

#[test]
fn matrix_map_and_zip() {
    let m = mask(0b1010_1010);
    let counts: CountermeasureMatrix<u8> = m.map(|b: bool| if b { 1u8 } else { 0u8 });
    assert_eq!(*counts.get(Countermeasure::CommsJamming), 1);
    assert_eq!(*counts.get(Countermeasure::RadarJamming), 0);
    let tagged = m.map_with_tag(|cm: Countermeasure, b: bool| b && cm == Countermeasure::CutRadar);
    assert_eq!(tagged.to_num(), 0b1000_0000);
    let zipped = m.zip(mask(0b1111_0000), |a: bool, b: bool| a && b);
    assert_eq!(zipped.to_num(), 0b1010_0000);
}

#[test]
fn seeker_kinds() {
    assert_eq!(SeekerKey::SteerableActiveRadar.seeker_kind(), SeekerKind::ActiveRadar);
    assert_eq!(SeekerKind::ActiveRadar.seeker_keys(), vec![
        SeekerKey::FixedActiveRadar, SeekerKey::SteerableActiveRadar, SeekerKey::SteerableExtendedActiveRadar,
    ]);
    assert_eq!(SeekerKind::HomeOnJam.iter_seeker_keys(), vec![SeekerKey::FixedHomeOnJam]);
    assert!(SeekerKind::Command.can_measure_distance());
    assert!(!SeekerKind::SemiActiveRadar.can_measure_distance());
    assert!(SeekerKind::SemiActiveRadar.can_measure_velocity());
    assert!(!SeekerKind::WakeHoming.can_measure_velocity());
    assert_eq!(SeekerKind::ActiveRadar.defeating_countermeasures_mask().to_num(), 0b0010_1001);
    assert!(SeekerKind::WakeHoming.is_defeated_by_one(Countermeasure::FlareDecoy));
    assert!(!SeekerKind::WakeHoming.is_defeated_by_one(Countermeasure::ChaffDecoy));
}

#[test]
fn single_seeker_defeat() {
    assert_eq!(SeekerKind::ActiveRadar.get_defeating_countermeasures(mask(0b0000_1010)).map(|m| m.to_num()), Some(0b1000));
    assert!(SeekerKind::ActiveRadar.get_defeating_countermeasures(mask(0b0000_0010)).is_none());
    // anti-radiation seekers find the target whenever radar jamming is present
    assert!(!SeekerKind::AntiRadiation.is_defeated_by(mask(0b1010_0001)));
    assert!(SeekerKind::AntiRadiation.is_defeated_by(mask(0b1000_0000)));
}

fn single(kind: SeekerKind) -> SeekerStrategy<SeekerKind> {
    SeekerStrategy::new_single(kind)
}

#[test]
fn strategy_defeat() {
    let ar = single(SeekerKind::ActiveRadar);
    assert!(ar.is_defeated_by(mask(0b0000_1000)));
    assert!(!ar.is_defeated_by(mask(0)));
    let validated = SeekerStrategy::new(SeekerKind::ActiveRadar, vec![(SeekerKind::ElectroOptical, SeekerMode::Validation)]);
    assert!(!validated.is_defeated_by(mask(0b0000_1000)));
    assert!(validated.is_defeated_by(mask(0b0000_1100)));
    let hoj = single(SeekerKind::HomeOnJam);
    assert!(hoj.is_defeated_by(mask(0)));
    assert!(!hoj.is_defeated_by(mask(1)));
    let backup = SeekerStrategy::new(SeekerKind::ActiveRadar, vec![(SeekerKind::HomeOnJam, SeekerMode::Targeting)]);
    assert!(!backup.is_defeated_by(mask(1)));
    assert!(backup.is_defeated_by(mask(0b0000_1000)));
}

#[test]
fn strategy_reasonable() {
    assert!(single(SeekerKind::ActiveRadar).is_reasonable());
    assert!(!single(SeekerKind::HomeOnJam).is_reasonable());
    let s = |p: SeekerKind, v: Vec<(SeekerKind, SeekerMode)>| SeekerStrategy::new(p, v);
    assert!(s(SeekerKind::Command, vec![(SeekerKind::ActiveRadar, SeekerMode::Targeting)]).is_reasonable());
    assert!(!s(SeekerKind::ActiveRadar, vec![(SeekerKind::Command, SeekerMode::Targeting)]).is_reasonable());
    assert!(!s(SeekerKind::ActiveRadar, vec![(SeekerKind::SemiActiveRadar, SeekerMode::Targeting)]).is_reasonable());
    assert!(s(SeekerKind::ActiveRadar, vec![(SeekerKind::HomeOnJam, SeekerMode::Targeting)]).is_reasonable());
    assert!(s(SeekerKind::ElectroOptical, vec![(SeekerKind::Command, SeekerMode::Validation)]).is_reasonable());
    assert!(!s(SeekerKind::ElectroOptical, vec![(SeekerKind::WakeHoming, SeekerMode::Validation)]).is_reasonable());
    assert!(!s(SeekerKind::WakeHoming, vec![(SeekerKind::ActiveRadar, SeekerMode::Targeting)]).is_reasonable());
    assert!(!s(SeekerKind::ActiveRadar, vec![(SeekerKind::ActiveRadar, SeekerMode::Validation)]).is_reasonable());
}

#[test]
fn countermeasure_methods() {
    assert_eq!(nums(&single(SeekerKind::ActiveRadar).get_countermeasure_methods()), vec![1, 8, 32]);
    assert_eq!(nums(&single(SeekerKind::HomeOnJam).get_countermeasure_methods()), vec![2, 4, 8, 16, 32, 64, 128]);
    let entry = SeekerStrategyEntry::new(single(SeekerKind::ActiveRadar));
    assert_eq!(nums(&entry.countermeasure_methods), vec![1, 8, 32]);
}

#[test]
fn strategy_shape() {
    let s = SeekerStrategy::new(SeekerKind::ActiveRadar, vec![(SeekerKind::ElectroOptical, SeekerMode::Validation)]);
    assert_eq!(s.len(), 2);
    assert_eq!(s.iter(), vec![(SeekerKind::ActiveRadar, SeekerMode::Targeting), (SeekerKind::ElectroOptical, SeekerMode::Validation)]);
    assert_eq!(single(SeekerKind::Command).len(), 1);
}

#[test]
fn strategy_possibilities() {
    assert_eq!(SeekerStrategy::<SeekerKind>::possibilities1().len(), 7);
    let two = SeekerStrategy::<SeekerKind>::possibilities2();
    assert_eq!(two.len(), 98);
    assert_eq!(two[0].primary, SeekerKind::Command);
    assert_eq!(two[0].secondaries, vec![(SeekerKind::Command, SeekerMode::Targeting)]);
    assert_eq!(two[1].secondaries, vec![(SeekerKind::Command, SeekerMode::Validation)]);
    assert_eq!(two[2].secondaries, vec![(SeekerKind::ActiveRadar, SeekerMode::Targeting)]);
    assert_eq!(two[14].primary, SeekerKind::ActiveRadar);
    assert_eq!(SeekerStrategy::<SeekerKind>::possibilities3().len(), 1372);
    assert_eq!(SeekerStrategy::<SeekerKind>::possibilities().len(), 1477);
}

#[test]
fn strategy_entries() {
    let entries = SeekerStrategyEntry::get_entries();
    assert!(!entries.is_empty());
    for entry in entries.iter().take(40) {
        assert!(entry.seeker_strategy.is_reasonable());
        assert_eq!(nums(&entry.countermeasure_methods), nums(&entry.seeker_strategy.get_countermeasure_methods()));
    }
    let reasonable = SeekerStrategy::<SeekerKind>::possibilities().iter().filter(|s| s.is_reasonable()).count();
    assert_eq!(entries.len(), reasonable);
}

#[test]
fn strategy_to_full() {
    let s = SeekerStrategy::new(SeekerKind::ActiveRadar, vec![(SeekerKind::SemiActiveRadar, SeekerMode::Validation)]);
    let full = s.to_full();
    assert_eq!(full.len(), 3);
    assert_eq!(full[0].primary, SeekerKey::FixedActiveRadar);
    assert_eq!(full[2].primary, SeekerKey::SteerableExtendedActiveRadar);
    assert_eq!(full[1].secondaries, vec![(SeekerKey::FixedSemiActiveRadar, SeekerMode::Validation)]);
    let t = SeekerStrategy::new(SeekerKind::Command, vec![
        (SeekerKind::ActiveRadar, SeekerMode::Targeting),
        (SeekerKind::ElectroOptical, SeekerMode::Validation),
    ]);
    let full = t.to_full();
    assert_eq!(full.len(), 3);
    assert_eq!(full[1].secondaries, vec![
        (SeekerKey::SteerableActiveRadar, SeekerMode::Targeting),
        (SeekerKey::ElectroOptical, SeekerMode::Validation),
    ]);
    // with no secondary seeker the product of secondaries is empty
    assert_eq!(single(SeekerKind::ActiveRadar).to_full().len(), 0);
}

#[test]
fn nothing_defeats_only_home_on_jam() {
    let nothing = CountermeasuresMask::mask_none();
    assert!(single(SeekerKind::HomeOnJam).is_defeated_by(nothing));
    for kind in [SeekerKind::Command, SeekerKind::ActiveRadar, SeekerKind::SemiActiveRadar, SeekerKind::AntiRadiation,
        SeekerKind::ElectroOptical, SeekerKind::WakeHoming] {
        assert!(!single(kind).is_defeated_by(nothing));
    }
    let layered = SeekerStrategy::new(SeekerKind::HomeOnJam, vec![(SeekerKind::ActiveRadar, SeekerMode::Targeting)]);
    assert!(!layered.is_defeated_by(nothing));
}

#[test]
fn seeker_keys_split_by_kind() {
    let mut seen = Vec::new();
    for kind in SeekerKind::values() {
        let keys = kind.seeker_keys();
        assert_eq!(keys.len(), if kind == SeekerKind::ActiveRadar { 3 } else { 1 });
        for k in keys {
            assert_eq!(k.seeker_kind(), kind);
            assert!(!seen.contains(&k));
            seen.push(k);
        }
    }
    assert_eq!(seen.len(), SeekerKey::values().len());
}
