use vstd::prelude::*;
use indexmap::{IndexMap, IndexSet};
use crate::data::components::SigType;
use crate::model::{MissileType, ShipEquipment, WeaponFamily, DistanceRealm, PointDefenseType, WeaponUsage};
use crate::data::components::ComponentKey;
use crate::data::components::info::ComponentVariantInfo;

verus! {

/// `indexmap::IndexSet`, held as an opaque value.
#[verifier::external_type_specification]
#[verifier::external_body]
#[verifier::reject_recursive_types(T)]
#[verifier::reject_recursive_types(S)]
pub struct ExIndexSet<T, S>(IndexSet<T, S>);

/// `indexmap::IndexMap`, held as an opaque value.
#[verifier::external_type_specification]
#[verifier::external_body]
#[verifier::reject_recursive_types(K)]
#[verifier::reject_recursive_types(V)]
#[verifier::reject_recursive_types(S)]
pub struct ExIndexMap<K, V, S>(IndexMap<K, V, S>);

/// The signature types a set holds, in insertion order.
pub uninterp spec fn sig_type_items(s: IndexSet<SigType>) -> Seq<SigType>;

/// The weapon families a set holds, in insertion order.
pub uninterp spec fn weapon_family_items(s: IndexSet<WeaponFamily>) -> Seq<WeaponFamily>;

/// The (missile type, cell count) entries a map holds, in insertion order.
pub uninterp spec fn missile_cell_entries(m: IndexMap<MissileType, usize>) -> Seq<(MissileType, usize)>;

/// `items` with `v` added last, unless it is there already.
pub open spec fn set_insert<T>(items: Seq<T>, v: T) -> Seq<T> {
    if items.contains(v) {
        items
    } else {
        items.push(v)
    }
}

/// `IndexSet::new`: a set that holds nothing.
#[verifier::external_body]
fn new_sig_type_set() -> (r: IndexSet<SigType>)
    ensures
        sig_type_items(r) == Seq::<SigType>::empty(),
{
    IndexSet::new()
}

/// `IndexSet::insert`: when the set holds no equal item, `v` is added last
/// in order and the call gives `true`; else the set is left as it was and
/// the call gives `false`. (`SigType`'s `Hash` and `Eq` are derived, so
/// equal items are the same variant.)
#[verifier::external_body]
fn sig_type_set_insert(s: &mut IndexSet<SigType>, v: SigType) -> (r: bool)
    ensures
        r == !sig_type_items(*old(s)).contains(v),
        sig_type_items(*final(s)) == set_insert(sig_type_items(*old(s)), v),
{
    s.insert(v)
}

/// `IndexSet::contains`: whether the set holds an item equal to `v`.
#[verifier::external_body]
pub(crate) fn sig_type_set_contains(s: &IndexSet<SigType>, v: SigType) -> (r: bool)
    ensures
        r == sig_type_items(*s).contains(v),
{
    s.contains(&v)
}

/// `IndexSet::new`: a set that holds nothing.
#[verifier::external_body]
fn new_weapon_family_set() -> (r: IndexSet<WeaponFamily>)
    ensures
        weapon_family_items(r) == Seq::<WeaponFamily>::empty(),
{
    IndexSet::new()
}

/// `IndexSet::insert`: when the set holds no equal item, `v` is added last
/// in order and the call gives `true`; else the set is left as it was and
/// the call gives `false`. (`WeaponFamily`'s `Hash` and `Eq` are derived.)
#[verifier::external_body]
fn weapon_family_set_insert(s: &mut IndexSet<WeaponFamily>, v: WeaponFamily) -> (r: bool)
    ensures
        r == !weapon_family_items(*old(s)).contains(v),
        weapon_family_items(*final(s)) == set_insert(weapon_family_items(*old(s)), v),
{
    s.insert(v)
}

/// `IndexSet::iter`: the items of the set in their order, copied out.
#[verifier::external_body]
pub(crate) fn weapon_family_set_items(s: &IndexSet<WeaponFamily>) -> (r: Vec<WeaponFamily>)
    ensures
        r@ == weapon_family_items(*s),
{
    s.iter().copied().collect()
}

/// `IndexMap::new`: a map that holds nothing.
#[verifier::external_body]
fn new_missile_cell_map() -> (r: IndexMap<MissileType, usize>)
    ensures
        missile_cell_entries(r) == Seq::<(MissileType, usize)>::empty(),
{
    IndexMap::new()
}

/// What a ship carries, summed up for the fleet generator's tests.
#[derive(Debug, PartialEq, Eq)]
pub struct ShipEquipmentSummary {
    pub has_intelligence: bool,
    pub has_illuminator: bool,
    pub has_deception_module: bool,
    pub has_missile_identification: bool,
    pub fire_control: IndexSet<SigType>,
    pub jamming: IndexSet<SigType>,
    pub sensors: IndexSet<SigType>,
    pub weapons: IndexSet<WeaponFamily>,
    pub missile_cells: IndexMap<MissileType, usize>,
}

impl Default for ShipEquipmentSummary {
    /// Nothing carried.
    fn default() -> (r: ShipEquipmentSummary)
        ensures
            !r.has_intelligence,
            !r.has_illuminator,
            !r.has_deception_module,
            !r.has_missile_identification,
            sig_type_items(r.fire_control) == Seq::<SigType>::empty(),
            sig_type_items(r.jamming) == Seq::<SigType>::empty(),
            sig_type_items(r.sensors) == Seq::<SigType>::empty(),
            weapon_family_items(r.weapons) == Seq::<WeaponFamily>::empty(),
            missile_cell_entries(r.missile_cells) == Seq::<(MissileType, usize)>::empty(),
    {
        ShipEquipmentSummary {
            has_intelligence: false,
            has_illuminator: false,
            has_deception_module: false,
            has_missile_identification: false,
            fire_control: new_sig_type_set(),
            jamming: new_sig_type_set(),
            sensors: new_sig_type_set(),
            weapons: new_weapon_family_set(),
            missile_cells: new_missile_cell_map(),
        }
    }
}

impl ShipEquipmentSummary {
    /// Adds `equipment` to the summary: a flag is set, or a signature type or
    /// weapon family is added to its set (last, unless it is there already).
    /// Nothing else changes.
    pub fn add_ship_equipment(&mut self, equipment: ShipEquipment)
        ensures
            final(self).has_intelligence == (old(self).has_intelligence || equipment is Intelligence),
            final(self).has_illuminator == (old(self).has_illuminator || equipment is Illuminator),
            final(self).has_deception_module == (old(self).has_deception_module || equipment is DeceptionModule),
            final(self).has_missile_identification == (old(self).has_missile_identification
                || equipment is MissileIdentification),
            sig_type_items(final(self).fire_control) == match equipment {
                ShipEquipment::FireControl { sig_type } => set_insert(sig_type_items(old(self).fire_control), sig_type),
                _ => sig_type_items(old(self).fire_control),
            },
            sig_type_items(final(self).jamming) == match equipment {
                ShipEquipment::Jamming { sig_type } => set_insert(sig_type_items(old(self).jamming), sig_type),
                _ => sig_type_items(old(self).jamming),
            },
            sig_type_items(final(self).sensors) == match equipment {
                ShipEquipment::Sensor { sig_type } => set_insert(sig_type_items(old(self).sensors), sig_type),
                _ => sig_type_items(old(self).sensors),
            },
            weapon_family_items(final(self).weapons) == match equipment {
                ShipEquipment::Weapon { family } => set_insert(weapon_family_items(old(self).weapons), family),
                _ => weapon_family_items(old(self).weapons),
            },
            final(self).missile_cells == old(self).missile_cells,
    {
        match equipment {
            ShipEquipment::Intelligence => self.has_intelligence = true,
            ShipEquipment::Illuminator => self.has_illuminator = true,
            ShipEquipment::DeceptionModule => self.has_deception_module = true,
            ShipEquipment::MissileIdentification => self.has_missile_identification = true,
            ShipEquipment::FireControl { sig_type } => {
                sig_type_set_insert(&mut self.fire_control, sig_type);
            },
            ShipEquipment::Jamming { sig_type } => {
                sig_type_set_insert(&mut self.jamming, sig_type);
            },
            ShipEquipment::Sensor { sig_type } => {
                sig_type_set_insert(&mut self.sensors, sig_type);
            },
            ShipEquipment::Weapon { family } => {
                weapon_family_set_insert(&mut self.weapons, family);
            },
        }
    }
}

} // verus!

verus! {

/// A ship's equipment summary as plain values: its four flags, then its
/// fire-control, jamming and sensor signature types and its weapon
/// families, each in the order first added.
pub struct SummaryView {
    pub has_intelligence: bool,
    pub has_illuminator: bool,
    pub has_deception_module: bool,
    pub has_missile_identification: bool,
    pub fire_control: Seq<SigType>,
    pub jamming: Seq<SigType>,
    pub sensors: Seq<SigType>,
    pub weapons: Seq<WeaponFamily>,
}

/// The summary `s` as plain values.
pub open spec fn summary_view(s: ShipEquipmentSummary) -> SummaryView {
    SummaryView {
        has_intelligence: s.has_intelligence,
        has_illuminator: s.has_illuminator,
        has_deception_module: s.has_deception_module,
        has_missile_identification: s.has_missile_identification,
        fire_control: sig_type_items(s.fire_control),
        jamming: sig_type_items(s.jamming),
        sensors: sig_type_items(s.sensors),
        weapons: weapon_family_items(s.weapons),
    }
}

/// The summary `v` with the equipment `e` added: its flag set, or its
/// signature type or weapon family added to its list.
pub open spec fn spec_add_equipment(v: SummaryView, e: ShipEquipment) -> SummaryView {
    match e {
        ShipEquipment::Intelligence => SummaryView { has_intelligence: true, ..v },
        ShipEquipment::Illuminator => SummaryView { has_illuminator: true, ..v },
        ShipEquipment::DeceptionModule => SummaryView { has_deception_module: true, ..v },
        ShipEquipment::MissileIdentification => SummaryView { has_missile_identification: true, ..v },
        ShipEquipment::FireControl { sig_type } => SummaryView { fire_control: set_insert(v.fire_control, sig_type), ..v },
        ShipEquipment::Jamming { sig_type } => SummaryView { jamming: set_insert(v.jamming, sig_type), ..v },
        ShipEquipment::Sensor { sig_type } => SummaryView { sensors: set_insert(v.sensors, sig_type), ..v },
        ShipEquipment::Weapon { family } => SummaryView { weapons: set_insert(v.weapons, family), ..v },
    }
}

/// The reach of the beam weapon `k`, in metres, for sorting it by realm:
/// the Aurora 3 km, the beam cannon 6 km, the beam turret 5 km, the Grazer
/// 1.5 km; any other beam counts as near.
pub open spec fn spec_beam_realm(k: ComponentKey) -> DistanceRealm {
    match k {
        ComponentKey::Mk90AuroraPDT => DistanceRealm::spec_from_range(3000),
        ComponentKey::Mk600BeamCannon => DistanceRealm::spec_from_range(6000),
        ComponentKey::Mk610BeamTurret => DistanceRealm::spec_from_range(5000),
        ComponentKey::P60GrazerPDT => DistanceRealm::spec_from_range(1500),
        _ => DistanceRealm::Near,
    }
}

/// The equipment that the component `k` gives a ship, in the order it is
/// added: the deception module, the missile identification system and the
/// Grazer (a beam point defense) by name; else by the component's variant:
/// a fire control, an illuminator, an intelligence compartment that works
/// on remote tracks, a jammer, a sensor (and its fire control when it can
/// lock), the passive sensor (as a radar sensor), a beam weapon (by its
/// usage and reach), or a weapon that fires munitions (by their family).
pub open spec fn spec_component_equipment(k: ComponentKey) -> Seq<ShipEquipment> {
    if k == ComponentKey::E15MasqueradeDeceptionModule {
        seq![ShipEquipment::DeceptionModule]
    } else if k == ComponentKey::ES32ScryerMissileIDSystem {
        seq![ShipEquipment::MissileIdentification]
    } else if k == ComponentKey::P60GrazerPDT {
        seq![ShipEquipment::Weapon { family: WeaponFamily::PointDefense(PointDefenseType::Beam) }]
    } else {
        match k.spec_info().variant {
            Some(ComponentVariantInfo::FireControl { sig_type }) => seq![ShipEquipment::FireControl { sig_type }],
            Some(ComponentVariantInfo::Illuminator { .. }) => seq![ShipEquipment::Illuminator],
            Some(ComponentVariantInfo::Intelligence { work_on_remote_tracks }) =>
                if work_on_remote_tracks { seq![ShipEquipment::Intelligence] } else { seq![] },
            Some(ComponentVariantInfo::Jammer { sig_type, .. }) => seq![ShipEquipment::Jamming { sig_type }],
            Some(ComponentVariantInfo::Sensor { sig_type, can_lock, .. }) =>
                if can_lock {
                    seq![ShipEquipment::Sensor { sig_type }, ShipEquipment::FireControl { sig_type }]
                } else {
                    seq![ShipEquipment::Sensor { sig_type }]
                },
            Some(ComponentVariantInfo::SensorPassive) => seq![ShipEquipment::Sensor { sig_type: SigType::Radar }],
            Some(ComponentVariantInfo::WeaponBeam { role, .. }) => match WeaponUsage::spec_from_weapon_role(role) {
                Some(WeaponUsage::Offensive) => seq![ShipEquipment::Weapon { family: WeaponFamily::EnergyBeam(spec_beam_realm(k)) }],
                Some(WeaponUsage::Defensive) => seq![ShipEquipment::Weapon { family: WeaponFamily::PointDefense(PointDefenseType::Beam) }],
                None => seq![],
            },
            Some(ComponentVariantInfo::WeaponProjectile { munition_family, .. }) =>
                match WeaponFamily::spec_from_munition_family(munition_family, None) {
                    Some(family) => seq![ShipEquipment::Weapon { family }],
                    None => seq![],
                },
            Some(ComponentVariantInfo::WeaponMissileLauncher { munition_family, missile_size, .. })
            | Some(ComponentVariantInfo::WeaponMissileBank { munition_family, missile_size, .. }) =>
                match WeaponFamily::spec_from_munition_family(munition_family, Some(missile_size)) {
                    Some(family) => seq![ShipEquipment::Weapon { family }],
                    None => seq![],
                },
            _ => seq![],
        }
    }
}

/// The summary `v` with each of `equipment` added in order.
pub open spec fn spec_add_all(v: SummaryView, equipment: Seq<ShipEquipment>) -> SummaryView
    decreases equipment.len(),
{
    if equipment.len() == 0 {
        v
    } else {
        spec_add_equipment(spec_add_all(v, equipment.drop_last()), equipment.last())
    }
}

/// The summary `v` with the equipment of the component `k` added.
pub open spec fn spec_add_component_key(v: SummaryView, k: ComponentKey) -> SummaryView {
    spec_add_all(v, spec_component_equipment(k))
}

impl ShipEquipmentSummary {
    /// Adds `equipment`, as [`ShipEquipmentSummary::add_ship_equipment`]
    /// does, stated over the plain values.
    fn add_one(&mut self, equipment: ShipEquipment)
        ensures
            summary_view(*final(self)) == spec_add_equipment(summary_view(*old(self)), equipment),
            final(self).missile_cells == old(self).missile_cells,
    {
        self.add_ship_equipment(equipment);
    }

    /// Adds the equipment that the component `component_key` gives a ship;
    /// see [`spec_component_equipment`].
    pub fn add_component_key(&mut self, component_key: ComponentKey)
        ensures
            summary_view(*final(self)) == spec_add_component_key(summary_view(*old(self)), component_key),
            final(self).missile_cells == old(self).missile_cells,
    {
        let ghost v0 = summary_view(*self);
        let ghost eq = spec_component_equipment(component_key);
        if component_key == ComponentKey::E15MasqueradeDeceptionModule {
            self.add_one(ShipEquipment::DeceptionModule);
        } else if component_key == ComponentKey::ES32ScryerMissileIDSystem {
            self.add_one(ShipEquipment::MissileIdentification);
        } else if component_key == ComponentKey::P60GrazerPDT {
            self.add_one(ShipEquipment::Weapon { family: WeaponFamily::PointDefense(PointDefenseType::Beam) });
        } else {
            match component_key.info().variant {
                Some(ComponentVariantInfo::FireControl { sig_type }) => self.add_one(ShipEquipment::FireControl { sig_type }),
                Some(ComponentVariantInfo::Illuminator { .. }) => self.add_one(ShipEquipment::Illuminator),
                Some(ComponentVariantInfo::Intelligence { work_on_remote_tracks }) => {
                    if work_on_remote_tracks {
                        self.add_one(ShipEquipment::Intelligence);
                    }
                },
                Some(ComponentVariantInfo::Jammer { sig_type, .. }) => self.add_one(ShipEquipment::Jamming { sig_type }),
                Some(ComponentVariantInfo::Sensor { sig_type, can_lock, .. }) => {
                    self.add_one(ShipEquipment::Sensor { sig_type });
                    if can_lock {
                        self.add_one(ShipEquipment::FireControl { sig_type });
                    }
                },
                Some(ComponentVariantInfo::SensorPassive) => self.add_one(ShipEquipment::Sensor { sig_type: SigType::Radar }),
                Some(ComponentVariantInfo::WeaponBeam { role, .. }) => {
                    if let Some(usage) = WeaponUsage::from_weapon_role(role) {
                        let realm = match component_key {
                            ComponentKey::Mk90AuroraPDT => DistanceRealm::from_range(3000),
                            ComponentKey::Mk600BeamCannon => DistanceRealm::from_range(6000),
                            ComponentKey::Mk610BeamTurret => DistanceRealm::from_range(5000),
                            ComponentKey::P60GrazerPDT => DistanceRealm::from_range(1500),
                            _ => DistanceRealm::Near,
                        };
                        let family = match usage {
                            WeaponUsage::Offensive => WeaponFamily::EnergyBeam(realm),
                            WeaponUsage::Defensive => WeaponFamily::PointDefense(PointDefenseType::Beam),
                        };
                        self.add_one(ShipEquipment::Weapon { family });
                    }
                },
                Some(ComponentVariantInfo::WeaponProjectile { munition_family, .. }) => {
                    if let Some(family) = WeaponFamily::from_munition_family(munition_family, None) {
                        self.add_one(ShipEquipment::Weapon { family });
                    }
                },
                Some(ComponentVariantInfo::WeaponMissileLauncher { munition_family, missile_size, .. })
                | Some(ComponentVariantInfo::WeaponMissileBank { munition_family, missile_size, .. }) => {
                    if let Some(family) = WeaponFamily::from_munition_family(munition_family, Some(missile_size)) {
                        self.add_one(ShipEquipment::Weapon { family });
                    }
                },
                _ => {},
            }
        }
        proof {
            reveal_with_fuel(spec_add_all, 3);
            if eq.len() == 2 {
                assert(eq.drop_last().drop_last() =~= Seq::<ShipEquipment>::empty());
            }
            if eq.len() == 1 {
                assert(eq.drop_last() =~= Seq::<ShipEquipment>::empty());
            }
        }
    }
}

} // verus!

verus! {

/// Whether the summary `v` already holds the equipment `e`: its flag is
/// set, or its signature type or weapon family is listed.
pub open spec fn equipment_present(v: SummaryView, e: ShipEquipment) -> bool {
    match e {
        ShipEquipment::Intelligence => v.has_intelligence,
        ShipEquipment::Illuminator => v.has_illuminator,
        ShipEquipment::DeceptionModule => v.has_deception_module,
        ShipEquipment::MissileIdentification => v.has_missile_identification,
        ShipEquipment::FireControl { sig_type } => v.fire_control.contains(sig_type),
        ShipEquipment::Jamming { sig_type } => v.jamming.contains(sig_type),
        ShipEquipment::Sensor { sig_type } => v.sensors.contains(sig_type),
        ShipEquipment::Weapon { family } => v.weapons.contains(family),
    }
}

/// Adding equipment that is there changes nothing; after adding, it is
/// there; and what was there stays.
proof fn lemma_add_equipment_present(v: SummaryView, e: ShipEquipment, f: ShipEquipment)
    ensures
        equipment_present(v, e) ==> spec_add_equipment(v, e) == v,
        equipment_present(spec_add_equipment(v, e), e),
        equipment_present(v, f) ==> equipment_present(spec_add_equipment(v, e), f),
{
    let w = spec_add_equipment(v, e);
    match e {
        ShipEquipment::FireControl { sig_type } => {
            if !v.fire_control.contains(sig_type) {
                assert(w.fire_control.last() == sig_type);
                assert(w.fire_control.contains(sig_type));
                assert forall|x: SigType| v.fire_control.contains(x) implies w.fire_control.contains(x) by {
                    let k = choose|k: int| 0 <= k < v.fire_control.len() && v.fire_control[k] == x;
                    assert(w.fire_control[k] == x);
                }
            }
        },
        ShipEquipment::Jamming { sig_type } => {
            if !v.jamming.contains(sig_type) {
                assert(w.jamming.last() == sig_type);
                assert(w.jamming.contains(sig_type));
                assert forall|x: SigType| v.jamming.contains(x) implies w.jamming.contains(x) by {
                    let k = choose|k: int| 0 <= k < v.jamming.len() && v.jamming[k] == x;
                    assert(w.jamming[k] == x);
                }
            }
        },
        ShipEquipment::Sensor { sig_type } => {
            if !v.sensors.contains(sig_type) {
                assert(w.sensors.last() == sig_type);
                assert(w.sensors.contains(sig_type));
                assert forall|x: SigType| v.sensors.contains(x) implies w.sensors.contains(x) by {
                    let k = choose|k: int| 0 <= k < v.sensors.len() && v.sensors[k] == x;
                    assert(w.sensors[k] == x);
                }
            }
        },
        ShipEquipment::Weapon { family } => {
            if !v.weapons.contains(family) {
                assert(w.weapons.last() == family);
                assert(w.weapons.contains(family));
                assert forall|x: WeaponFamily| v.weapons.contains(x) implies w.weapons.contains(x) by {
                    let k = choose|k: int| 0 <= k < v.weapons.len() && v.weapons[k] == x;
                    assert(w.weapons[k] == x);
                }
            }
        },
        _ => {},
    }
}

/// After the equipment `l` is added, each of it is there.
proof fn lemma_add_all_present(v: SummaryView, l: Seq<ShipEquipment>)
    ensures
        forall|i: int| 0 <= i < l.len() ==> equipment_present(spec_add_all(v, l), #[trigger] l[i]),
    decreases l.len(),
{
    if l.len() > 0 {
        lemma_add_all_present(v, l.drop_last());
        let w = spec_add_all(v, l.drop_last());
        assert forall|i: int| 0 <= i < l.len() implies equipment_present(spec_add_all(v, l), #[trigger] l[i]) by {
            lemma_add_equipment_present(w, l.last(), l[i]);
            if i < l.len() - 1 {
                assert(l.drop_last()[i] == l[i]);
            }
        }
    }
}

/// Adding equipment that is all there changes nothing.
proof fn lemma_add_all_present_unchanged(w: SummaryView, l: Seq<ShipEquipment>)
    requires
        forall|i: int| 0 <= i < l.len() ==> equipment_present(w, #[trigger] l[i]),
    ensures
        spec_add_all(w, l) == w,
    decreases l.len(),
{
    if l.len() > 0 {
        assert forall|i: int| 0 <= i < l.drop_last().len() implies equipment_present(w, #[trigger] l.drop_last()[i]) by {
            assert(l.drop_last()[i] == l[i]);
        }
        lemma_add_all_present_unchanged(w, l.drop_last());
        lemma_add_equipment_present(w, l.last(), l.last());
    }
}

/// Adding a component a second time changes nothing.
pub proof fn lemma_add_component_key_twice(v: SummaryView, k: ComponentKey)
    ensures
        spec_add_component_key(spec_add_component_key(v, k), k) == spec_add_component_key(v, k),
{
    let l = spec_component_equipment(k);
    lemma_add_all_present(v, l);
    lemma_add_all_present_unchanged(spec_add_all(v, l), l);
}

/// A summary's lists taken as sets: what it holds, in no order.
pub struct SummarySets {
    pub has_intelligence: bool,
    pub has_illuminator: bool,
    pub has_deception_module: bool,
    pub has_missile_identification: bool,
    pub fire_control: Set<SigType>,
    pub jamming: Set<SigType>,
    pub sensors: Set<SigType>,
    pub weapons: Set<WeaponFamily>,
}

/// What the summary `v` holds, in no order.
pub open spec fn summary_sets(v: SummaryView) -> SummarySets {
    SummarySets {
        has_intelligence: v.has_intelligence,
        has_illuminator: v.has_illuminator,
        has_deception_module: v.has_deception_module,
        has_missile_identification: v.has_missile_identification,
        fire_control: v.fire_control.to_set(),
        jamming: v.jamming.to_set(),
        sensors: v.sensors.to_set(),
        weapons: v.weapons.to_set(),
    }
}

/// What the single piece of equipment `e` adds, in no order.
pub open spec fn one_equipment_sets(e: ShipEquipment) -> SummarySets {
    SummarySets {
        has_intelligence: e is Intelligence,
        has_illuminator: e is Illuminator,
        has_deception_module: e is DeceptionModule,
        has_missile_identification: e is MissileIdentification,
        fire_control: match e {
            ShipEquipment::FireControl { sig_type } => set![sig_type],
            _ => Set::empty(),
        },
        jamming: match e {
            ShipEquipment::Jamming { sig_type } => set![sig_type],
            _ => Set::empty(),
        },
        sensors: match e {
            ShipEquipment::Sensor { sig_type } => set![sig_type],
            _ => Set::empty(),
        },
        weapons: match e {
            ShipEquipment::Weapon { family } => set![family],
            _ => Set::empty(),
        },
    }
}

/// What the equipment `l` adds, in no order.
pub open spec fn equipment_sets(l: Seq<ShipEquipment>) -> SummarySets
    decreases l.len(),
{
    if l.len() == 0 {
        SummarySets {
            has_intelligence: false,
            has_illuminator: false,
            has_deception_module: false,
            has_missile_identification: false,
            fire_control: Set::empty(),
            jamming: Set::empty(),
            sensors: Set::empty(),
            weapons: Set::empty(),
        }
    } else {
        sets_union(equipment_sets(l.drop_last()), one_equipment_sets(l.last()))
    }
}

/// What `a` and `b` hold together.
pub open spec fn sets_union(a: SummarySets, b: SummarySets) -> SummarySets {
    SummarySets {
        has_intelligence: a.has_intelligence || b.has_intelligence,
        has_illuminator: a.has_illuminator || b.has_illuminator,
        has_deception_module: a.has_deception_module || b.has_deception_module,
        has_missile_identification: a.has_missile_identification || b.has_missile_identification,
        fire_control: a.fire_control + b.fire_control,
        jamming: a.jamming + b.jamming,
        sensors: a.sensors + b.sensors,
        weapons: a.weapons + b.weapons,
    }
}

/// Adding to a list as to a set.
proof fn lemma_set_insert_to_set<T>(items: Seq<T>, x: T)
    ensures
        set_insert(items, x).to_set() == items.to_set().insert(x),
{
    if items.contains(x) {
        assert(items.to_set().insert(x) =~= items.to_set());
    } else {
        assert forall|y: T| set_insert(items, x).to_set().contains(y) == items.to_set().insert(x).contains(y) by {
            if items.contains(y) {
                let k = choose|k: int| 0 <= k < items.len() && items[k] == y;
                assert(items.push(x)[k] == y);
            }
            if items.push(x).contains(y) && y != x {
                let k = choose|k: int| 0 <= k < items.push(x).len() && items.push(x)[k] == y;
                assert(items[k] == y);
            }
            assert(items.push(x)[items.len() as int] == x);
        }
        assert(set_insert(items, x).to_set() =~= items.to_set().insert(x));
    }
}

/// Adding equipment adds what it holds, as sets.
proof fn lemma_add_equipment_sets(v: SummaryView, e: ShipEquipment)
    ensures
        summary_sets(spec_add_equipment(v, e)) == sets_union(summary_sets(v), one_equipment_sets(e)),
{
    match e {
        ShipEquipment::FireControl { sig_type } => lemma_set_insert_to_set(v.fire_control, sig_type),
        ShipEquipment::Jamming { sig_type } => lemma_set_insert_to_set(v.jamming, sig_type),
        ShipEquipment::Sensor { sig_type } => lemma_set_insert_to_set(v.sensors, sig_type),
        ShipEquipment::Weapon { family } => lemma_set_insert_to_set(v.weapons, family),
        _ => {},
    }
    let a = summary_sets(spec_add_equipment(v, e));
    let b = sets_union(summary_sets(v), one_equipment_sets(e));
    assert(a.fire_control =~= b.fire_control);
    assert(a.jamming =~= b.jamming);
    assert(a.sensors =~= b.sensors);
    assert(a.weapons =~= b.weapons);
}

/// Adding equipment adds what it holds, as sets.
proof fn lemma_add_all_sets(v: SummaryView, l: Seq<ShipEquipment>)
    ensures
        summary_sets(spec_add_all(v, l)) == sets_union(summary_sets(v), equipment_sets(l)),
    decreases l.len(),
{
    if l.len() == 0 {
        let a = summary_sets(v);
        let b = sets_union(summary_sets(v), equipment_sets(l));
        assert(equipment_sets(l).fire_control == Set::<SigType>::empty());
        assert(b.fire_control == v.fire_control.to_set() + Set::<SigType>::empty());
        assert(a.fire_control =~= b.fire_control);
        assert(a.jamming =~= b.jamming);
        assert(a.sensors =~= b.sensors);
        assert(a.weapons =~= b.weapons);
    } else {
        lemma_add_all_sets(v, l.drop_last());
        lemma_add_equipment_sets(spec_add_all(v, l.drop_last()), l.last());
        let a = summary_sets(spec_add_all(v, l));
        let b = sets_union(summary_sets(v), equipment_sets(l));
        assert(a.fire_control =~= b.fire_control);
        assert(a.jamming =~= b.jamming);
        assert(a.sensors =~= b.sensors);
        assert(a.weapons =~= b.weapons);
    }
}

/// The order in which components are added does not matter to what the
/// summary holds: adding `a` then `b` holds the same flags, signature types
/// and weapon families as adding `b` then `a`.
pub proof fn lemma_add_component_keys_commute(v: SummaryView, a: ComponentKey, b: ComponentKey)
    ensures
        summary_sets(spec_add_component_key(spec_add_component_key(v, a), b))
            == summary_sets(spec_add_component_key(spec_add_component_key(v, b), a)),
{
    let la = spec_component_equipment(a);
    let lb = spec_component_equipment(b);
    lemma_add_all_sets(v, la);
    lemma_add_all_sets(spec_add_all(v, la), lb);
    lemma_add_all_sets(v, lb);
    lemma_add_all_sets(spec_add_all(v, lb), la);
    let x = summary_sets(spec_add_all(spec_add_all(v, la), lb));
    let y = summary_sets(spec_add_all(spec_add_all(v, lb), la));
    assert(x.fire_control =~= y.fire_control);
    assert(x.jamming =~= y.jamming);
    assert(x.sensors =~= y.sensors);
    assert(x.weapons =~= y.weapons);
}

} // verus!

verus! {

/// Whether `k` is one of the components whose equipment is fixed by name:
/// the deception module, the missile identification system and the Grazer.
pub open spec fn named_equipment_component(k: ComponentKey) -> bool {
    k == ComponentKey::E15MasqueradeDeceptionModule || k == ComponentKey::ES32ScryerMissileIDSystem
        || k == ComponentKey::P60GrazerPDT
}

/// What was in a summary stays after a component is added.
proof fn lemma_add_all_keeps(v: SummaryView, l: Seq<ShipEquipment>, f: ShipEquipment)
    requires
        equipment_present(v, f),
    ensures
        equipment_present(spec_add_all(v, l), f),
    decreases l.len(),
{
    if l.len() > 0 {
        lemma_add_all_keeps(v, l.drop_last(), f);
        lemma_add_equipment_present(spec_add_all(v, l.drop_last()), l.last(), f);
    }
}

/// A list and the set of its items hold the same things.
proof fn lemma_to_set_contains<T>(s: Seq<T>, x: T)
    ensures
        s.to_set().contains(x) == s.contains(x),
{
}

/// What adding a component gives a ship's summary: each kind of component
/// sets its flag or lists its signature type, and nothing it does not give
/// appears, while what was there stays. An illuminator sets the
/// illuminator flag, an intelligence center that works on remote tracks
/// the intelligence flag, a jammer lists its signature type among the
/// jammers, a sensor among the sensors (and, when it can lock, among the
/// fire controls), the passive sensor lists radar among the sensors; the
/// deception module and the missile identification system set their
/// flags, and the Grazer lists beam point defense among the weapons.
pub proof fn lemma_component_equipment_added(v: SummaryView, k: ComponentKey, f: ShipEquipment, t: SigType)
    ensures
        equipment_present(v, f) ==> equipment_present(spec_add_component_key(v, k), f),
        k == ComponentKey::E15MasqueradeDeceptionModule ==> spec_add_component_key(v, k).has_deception_module,
        k == ComponentKey::ES32ScryerMissileIDSystem ==> spec_add_component_key(v, k).has_missile_identification,
        k == ComponentKey::P60GrazerPDT ==> spec_add_component_key(v, k).weapons.contains(
            WeaponFamily::PointDefense(PointDefenseType::Beam)),
        !named_equipment_component(k) ==> {
            let w = spec_add_component_key(v, k);
            let variant = k.spec_info().variant;
            &&& (variant matches Some(ComponentVariantInfo::Illuminator { .. }) ==> w.has_illuminator)
            &&& (variant matches Some(ComponentVariantInfo::Intelligence { work_on_remote_tracks: true }) ==> w.has_intelligence)
            &&& (variant matches Some(ComponentVariantInfo::Jammer { sig_type, .. }) ==> w.jamming.contains(sig_type))
            &&& (variant matches Some(ComponentVariantInfo::Sensor { sig_type, .. }) ==> w.sensors.contains(sig_type))
            &&& (variant matches Some(ComponentVariantInfo::Sensor { sig_type, can_lock: true, .. }) ==> w.fire_control.contains(sig_type))
            &&& (variant matches Some(ComponentVariantInfo::FireControl { sig_type }) ==> w.fire_control.contains(sig_type))
            &&& (variant matches Some(ComponentVariantInfo::SensorPassive) ==> w.sensors.contains(SigType::Radar))
            &&& (w.has_illuminator ==> v.has_illuminator || variant matches Some(ComponentVariantInfo::Illuminator { .. }))
            &&& (w.has_intelligence ==> v.has_intelligence
                || variant matches Some(ComponentVariantInfo::Intelligence { work_on_remote_tracks: true }))
            &&& (w.has_deception_module == v.has_deception_module)
            &&& (w.has_missile_identification == v.has_missile_identification)
            &&& (w.jamming.contains(t) ==> v.jamming.contains(t)
                || variant == Some(ComponentVariantInfo::Jammer { sig_type: t, battleshort_available: true, directional: true })
                || variant == Some(ComponentVariantInfo::Jammer { sig_type: t, battleshort_available: true, directional: false })
                || variant == Some(ComponentVariantInfo::Jammer { sig_type: t, battleshort_available: false, directional: true })
                || variant == Some(ComponentVariantInfo::Jammer { sig_type: t, battleshort_available: false, directional: false }))
            &&& (w.sensors.contains(t) ==> v.sensors.contains(t)
                || (variant matches Some(ComponentVariantInfo::Sensor { sig_type, .. }) && sig_type == t)
                || (variant matches Some(ComponentVariantInfo::SensorPassive) && t == SigType::Radar))
            &&& (w.fire_control.contains(t) ==> v.fire_control.contains(t)
                || (variant matches Some(ComponentVariantInfo::Sensor { sig_type, can_lock: true, .. }) && sig_type == t)
                || variant == Some(ComponentVariantInfo::FireControl { sig_type: t }))
        },
{
    let l = spec_component_equipment(k);
    let w = spec_add_all(v, l);
    lemma_add_all_present(v, l);
    if equipment_present(v, f) {
        lemma_add_all_keeps(v, l, f);
    }
    lemma_add_all_sets(v, l);
    lemma_to_set_contains(w.jamming, t);
    lemma_to_set_contains(w.sensors, t);
    lemma_to_set_contains(w.fire_control, t);
    lemma_to_set_contains(v.jamming, t);
    lemma_to_set_contains(v.sensors, t);
    lemma_to_set_contains(v.fire_control, t);
    reveal_with_fuel(equipment_sets, 3);
    if l.len() == 1 {
        assert(l.drop_last() =~= Seq::<ShipEquipment>::empty());
        assert(equipment_present(w, l[0]));
    } else if l.len() == 2 {
        assert(l.drop_last().drop_last() =~= Seq::<ShipEquipment>::empty());
        assert(equipment_present(w, l[0]));
        assert(equipment_present(w, l[1]));
    }
}

} // verus!
