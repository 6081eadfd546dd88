use vstd::prelude::*;
use crate::data::{Faction, MissileSize};
use crate::data::components::{ComponentKey, ComponentKind, SigType, MissileLauncherCells, CellGroups};
use crate::data::munitions::{MunitionFamily, WeaponRole};
use crate::utils::Size;

verus! {

/// What kind of part a component is, with the settings of its kind that
/// are whole numbers, flags and kinds (the game's ranges, rates and
/// timings are floating-point numbers and are not held).
#[derive(Debug, Clone, Copy, PartialEq, Eq, Structural)]
pub enum ComponentVariantInfo {
    /// An antenna.
    Antenna,
    /// A berthing.
    Berthing,
    /// A command compartment, such as a CIC.
    Command { work_on_remote_tracks: bool },
    /// A damage-control compartment: its teams and how many restores they have.
    DamageControl { teams: usize, restores: usize },
    /// A fire-control radar.
    FireControl { sig_type: SigType },
    /// An illuminator for guiding semi-active missiles.
    Illuminator { battleshort_available: bool },
    /// An intelligence compartment, which cannot control the ship.
    Intelligence { work_on_remote_tracks: bool },
    /// An electronic warfare jammer; `directional` when it has a cone of fire.
    Jammer { sig_type: SigType, battleshort_available: bool, directional: bool },
    /// A magazine.
    Magazine { available_volume: usize },
    /// A sensor, such as a search radar; `directional` when it has a cone of view.
    Sensor { sig_type: SigType, can_lock: bool, can_burnthrough: bool, directional: bool },
    /// A passive sensor.
    SensorPassive,
    /// A weapon that fires without ammunition; its integrated fire control
    /// is given by the signature it works with.
    WeaponBeam {
        is_fixed: bool,
        is_energy: bool,
        integrated_fire_control: Option<SigType>,
        optical_backup: bool,
        role: WeaponRole,
        battleshort_available: bool,
    },
    /// A missile launcher reloaded from the ship's magazines.
    WeaponMissileLauncher {
        integrated_fire_control: Option<SigType>,
        optical_backup: bool,
        role: WeaponRole,
        munition_family: MunitionFamily,
        missile_size: MissileSize,
    },
    /// A missile launcher with an integrated bank of cells.
    WeaponMissileBank {
        is_fixed: bool,
        integrated_fire_control: Option<SigType>,
        optical_backup: bool,
        role: WeaponRole,
        munition_family: MunitionFamily,
        missile_size: MissileSize,
        cells: MissileLauncherCells,
    },
    /// A weapon that fires projectiles from its ammunition; the capacity of
    /// its autoloader, if it has one.
    WeaponProjectile {
        is_fixed: bool,
        is_energy: bool,
        integrated_fire_control: Option<SigType>,
        optical_backup: bool,
        role: WeaponRole,
        munition_family: MunitionFamily,
        autoloader_capacity: Option<usize>,
    },
}

/// The record of a component, as far as it is whole numbers, flags, kinds
/// and text: its names, kind, faction, cost, size, power (negative when it
/// draws power), crew (negative when it needs crew), whether it is
/// reinforced, and its variant. Mass, health, the compounding multiplier
/// and buffs are floating-point numbers and are not held.
#[derive(Debug, Clone, Copy, PartialEq, Eq)]
pub struct ComponentInfo {
    pub name: &'static str,
    pub save_key: &'static str,
    pub kind: ComponentKind,
    pub faction: Option<Faction>,
    pub first_instance_free: bool,
    pub point_cost: usize,
    pub size: Size,
    pub power: isize,
    pub crew: isize,
    pub reinforced: bool,
    pub variant: Option<ComponentVariantInfo>,
}

impl ComponentKey {
    /// The record of this component.
    pub open spec fn spec_info(self) -> ComponentInfo {
        match self {
            ComponentKey::ActivelyCooledAmplifiers => ComponentInfo {
                name: "Actively Cooled Amplifiers",
                save_key: "Stock/Actively Cooled Amplifiers",
                kind: ComponentKind::Module,
                faction: None,
                first_instance_free: false,
                point_cost: 25,
                size: Size { x: 2, y: 2, z: 2 },
                power: (-175) as isize,
                crew: 0,
                reinforced: false,
                variant: None,
            },
            ComponentKey::AdaptiveRadarReceiver => ComponentInfo {
                name: "Adaptive Radar Receiver",
                save_key: "Stock/Adaptive Radar Receiver",
                kind: ComponentKind::Module,
                faction: None,
                first_instance_free: false,
                point_cost: 30,
                size: Size { x: 2, y: 2, z: 2 },
                power: (-200) as isize,
                crew: 0,
                reinforced: false,
                variant: None,
            },
            ComponentKey::AmmunitionElevators => ComponentInfo {
                name: "Ammunition Elevators",
                save_key: "Stock/Ammunition Elevators",
                kind: ComponentKind::Module,
                faction: None,
                first_instance_free: false,
                point_cost: 20,
                size: Size { x: 2, y: 2, z: 2 },
                power: (-150) as isize,
                crew: 0,
                reinforced: false,
                variant: None,
            },
            ComponentKey::AnalysisAnnex => ComponentInfo {
                name: "Analysis Annex",
                save_key: "Stock/Analysis Annex",
                kind: ComponentKind::Compartment,
                faction: None,
                first_instance_free: false,
                point_cost: 20,
                size: Size { x: 3, y: 1, z: 3 },
                power: 0,
                crew: (-20) as isize,
                reinforced: false,
                variant: None,
            },
            ComponentKey::AuxiliarySteering => ComponentInfo {
                name: "Auxiliary Steering",
                save_key: "Stock/Auxiliary Steering",
                kind: ComponentKind::Compartment,
                faction: None,
                first_instance_free: false,
                point_cost: 10,
                size: Size { x: 3, y: 1, z: 3 },
                power: 0,
                crew: (-5) as isize,
                reinforced: true,
                variant: Some(ComponentVariantInfo::Command { work_on_remote_tracks: false }),
            },
            ComponentKey::BW1500Drive => ComponentInfo {
                name: "BW1500 Drive",
                save_key: "Stock/BW1500 Drive",
                kind: ComponentKind::Module,
                faction: Some(Faction::Protectorate),
                first_instance_free: false,
                point_cost: 10,
                size: Size { x: 12, y: 12, z: 12 },
                power: 300,
                crew: (-10) as isize,
                reinforced: false,
                variant: None,
            },
            ComponentKey::BW1500RDrive => ComponentInfo {
                name: "BW1500-R Drive",
                save_key: "Stock/BW1500-R Drive",
                kind: ComponentKind::Module,
                faction: Some(Faction::Protectorate),
                first_instance_free: false,
                point_cost: 20,
                size: Size { x: 12, y: 12, z: 12 },
                power: 300,
                crew: (-10) as isize,
                reinforced: true,
                variant: None,
            },
            ComponentKey::BW2000Drive => ComponentInfo {
                name: "BW2000 Drive",
                save_key: "Stock/BW2000 Drive",
                kind: ComponentKind::Module,
                faction: Some(Faction::Protectorate),
                first_instance_free: false,
                point_cost: 15,
                size: Size { x: 12, y: 12, z: 12 },
                power: 2000,
                crew: (-10) as isize,
                reinforced: false,
                variant: None,
            },
            ComponentKey::BW800Drive => ComponentInfo {
                name: "BW800 Drive",
                save_key: "Stock/BW800 Drive",
                kind: ComponentKind::Module,
                faction: Some(Faction::Protectorate),
                first_instance_free: false,
                point_cost: 10,
                size: Size { x: 5, y: 3, z: 5 },
                power: 300,
                crew: (-10) as isize,
                reinforced: false,
                variant: None,
            },
            ComponentKey::BW800RDrive => ComponentInfo {
                name: "BW800-R Drive",
                save_key: "Stock/BW800-R Drive",
                kind: ComponentKind::Module,
                faction: Some(Faction::Protectorate),
                first_instance_free: false,
                point_cost: 20,
                size: Size { x: 5, y: 3, z: 5 },
                power: 300,
                crew: (-10) as isize,
                reinforced: true,
                variant: None,
            },
            ComponentKey::BasicCIC => ComponentInfo {
                name: "Basic CIC",
                save_key: "Stock/Basic CIC",
                kind: ComponentKind::Compartment,
                faction: None,
                first_instance_free: false,
                point_cost: 10,
                size: Size { x: 4, y: 1, z: 6 },
                power: 0,
                crew: (-20) as isize,
                reinforced: false,
                variant: Some(ComponentVariantInfo::Command { work_on_remote_tracks: false }),
            },
            ComponentKey::BattleDressingStation => ComponentInfo {
                name: "Battle Dressing Station",
                save_key: "Stock/Battle Dressing Station",
                kind: ComponentKind::Compartment,
                faction: None,
                first_instance_free: false,
                point_cost: 20,
                size: Size { x: 3, y: 1, z: 3 },
                power: 0,
                crew: (-8) as isize,
                reinforced: false,
                variant: None,
            },
            ComponentKey::Berthing => ComponentInfo {
                name: "Berthing",
                save_key: "Stock/Berthing",
                kind: ComponentKind::Compartment,
                faction: None,
                first_instance_free: true,
                point_cost: 1,
                size: Size { x: 1, y: 1, z: 1 },
                power: 0,
                crew: 3,
                reinforced: false,
                variant: Some(ComponentVariantInfo::Berthing),
            },
            ComponentKey::BoostedReactor => ComponentInfo {
                name: "Boosted Reactor",
                save_key: "Stock/Boosted Reactor",
                kind: ComponentKind::Module,
                faction: Some(Faction::Protectorate),
                first_instance_free: false,
                point_cost: 10,
                size: Size { x: 5, y: 5, z: 5 },
                power: 5000,
                crew: (-10) as isize,
                reinforced: false,
                variant: None,
            },
            ComponentKey::BulkMagazine => ComponentInfo {
                name: "Bulk Magazine",
                save_key: "Stock/Bulk Magazine",
                kind: ComponentKind::Compartment,
                faction: None,
                first_instance_free: true,
                point_cost: 1,
                size: Size { x: 1, y: 1, z: 1 },
                power: 0,
                crew: 0,
                reinforced: false,
                variant: Some(ComponentVariantInfo::Magazine { available_volume: 15 }),
            },
            ComponentKey::BulwarkHuntress => ComponentInfo {
                name: "Bulwark Huntress",
                save_key: "Stock/Bulwark Huntress",
                kind: ComponentKind::Module,
                faction: Some(Faction::Protectorate),
                first_instance_free: false,
                point_cost: 20,
                size: Size { x: 2, y: 2, z: 2 },
                power: (-2000) as isize,
                crew: 0,
                reinforced: false,
                variant: Some(ComponentVariantInfo::Sensor { sig_type: SigType::Radar, can_lock: false, can_burnthrough: true, directional: false }),
            },
            ComponentKey::C30Cannon => ComponentInfo {
                name: "C30 Cannon",
                save_key: "Stock/C30 Cannon",
                kind: ComponentKind::Mount,
                faction: Some(Faction::Protectorate),
                first_instance_free: false,
                point_cost: 15,
                size: Size { x: 2, y: 5, z: 2 },
                power: (-100) as isize,
                crew: (-10) as isize,
                reinforced: false,
                variant: Some(ComponentVariantInfo::WeaponProjectile { is_fixed: true, is_energy: false, integrated_fire_control: None, optical_backup: true, role: WeaponRole::Offensive, munition_family: MunitionFamily::BallisticChemical100mm, autoloader_capacity: Some(24usize) }),
            },
            ComponentKey::C53Cannon => ComponentInfo {
                name: "C53 Cannon",
                save_key: "Stock/C53 Cannon",
                kind: ComponentKind::Mount,
                faction: Some(Faction::Protectorate),
                first_instance_free: false,
                point_cost: 10,
                size: Size { x: 2, y: 4, z: 2 },
                power: (-100) as isize,
                crew: (-15) as isize,
                reinforced: false,
                variant: Some(ComponentVariantInfo::WeaponProjectile { is_fixed: true, is_energy: false, integrated_fire_control: None, optical_backup: true, role: WeaponRole::Offensive, munition_family: MunitionFamily::BallisticChemical250mm, autoloader_capacity: Some(8usize) }),
            },
            ComponentKey::C56Cannon => ComponentInfo {
                name: "C56 Cannon",
                save_key: "Stock/C54 Cannon",
                kind: ComponentKind::Mount,
                faction: Some(Faction::Protectorate),
                first_instance_free: false,
                point_cost: 20,
                size: Size { x: 4, y: 6, z: 4 },
                power: (-100) as isize,
                crew: (-15) as isize,
                reinforced: false,
                variant: Some(ComponentVariantInfo::WeaponProjectile { is_fixed: true, is_energy: false, integrated_fire_control: None, optical_backup: true, role: WeaponRole::Offensive, munition_family: MunitionFamily::BallisticChemical250mm, autoloader_capacity: Some(15usize) }),
            },
            ComponentKey::C65Cannon => ComponentInfo {
                name: "C65 Cannon",
                save_key: "Stock/C65 Cannon",
                kind: ComponentKind::Mount,
                faction: Some(Faction::Protectorate),
                first_instance_free: false,
                point_cost: 40,
                size: Size { x: 6, y: 10, z: 6 },
                power: (-300) as isize,
                crew: (-25) as isize,
                reinforced: false,
                variant: Some(ComponentVariantInfo::WeaponProjectile { is_fixed: true, is_energy: false, integrated_fire_control: None, optical_backup: true, role: WeaponRole::Offensive, munition_family: MunitionFamily::BallisticChemical450mm, autoloader_capacity: Some(8usize) }),
            },
            ComponentKey::C81PlasmaCannon => ComponentInfo {
                name: "C81 Plasma Cannon",
                save_key: "Stock/C81 Plasma Cannon",
                kind: ComponentKind::Mount,
                faction: Some(Faction::Protectorate),
                first_instance_free: false,
                point_cost: 30,
                size: Size { x: 4, y: 6, z: 4 },
                power: (-1200) as isize,
                crew: (-25) as isize,
                reinforced: false,
                variant: Some(ComponentVariantInfo::WeaponProjectile { is_fixed: true, is_energy: true, integrated_fire_control: None, optical_backup: true, role: WeaponRole::Offensive, munition_family: MunitionFamily::BallisticMagnetic400mmPlasma, autoloader_capacity: None }),
            },
            ComponentKey::C90Cannon => ComponentInfo {
                name: "C90 Cannon",
                save_key: "Stock/C90 Cannon",
                kind: ComponentKind::Mount,
                faction: Some(Faction::Protectorate),
                first_instance_free: false,
                point_cost: 40,
                size: Size { x: 6, y: 12, z: 6 },
                power: (-200) as isize,
                crew: (-25) as isize,
                reinforced: false,
                variant: Some(ComponentVariantInfo::WeaponProjectile { is_fixed: true, is_energy: false, integrated_fire_control: None, optical_backup: true, role: WeaponRole::Offensive, munition_family: MunitionFamily::BallisticChemical600mm, autoloader_capacity: None }),
            },
            ComponentKey::CHI7700Drive => ComponentInfo {
                name: "CHI-7700 Drive",
                save_key: "Stock/CHI-7700 Drive",
                kind: ComponentKind::Module,
                faction: Some(Faction::Protectorate),
                first_instance_free: false,
                point_cost: 20,
                size: Size { x: 12, y: 12, z: 12 },
                power: 300,
                crew: (-10) as isize,
                reinforced: false,
                variant: None,
            },
            ComponentKey::CHI777YardDrive => ComponentInfo {
                name: "CHI-777 Yard Drive",
                save_key: "Stock/CHI-777 Yard Drive",
                kind: ComponentKind::Module,
                faction: Some(Faction::Protectorate),
                first_instance_free: false,
                point_cost: 20,
                size: Size { x: 5, y: 3, z: 5 },
                power: 300,
                crew: (-10) as isize,
                reinforced: false,
                variant: None,
            },
            ComponentKey::CHI9100LongHaulDrive => ComponentInfo {
                name: "CHI-9100 Long Haul Drive",
                save_key: "Stock/CHI-9100 Long Haul Drive",
                kind: ComponentKind::Module,
                faction: Some(Faction::Protectorate),
                first_instance_free: false,
                point_cost: 20,
                size: Size { x: 12, y: 12, z: 12 },
                power: 300,
                crew: (-10) as isize,
                reinforced: false,
                variant: None,
            },
            ComponentKey::CLS3Launcher => ComponentInfo {
                name: "CLS-3 Launcher",
                save_key: "Stock/CLS-3 Launcher",
                kind: ComponentKind::Mount,
                faction: Some(Faction::Alliance),
                first_instance_free: false,
                point_cost: 20,
                size: Size { x: 3, y: 4, z: 3 },
                power: (-200) as isize,
                crew: 0,
                reinforced: false,
                variant: Some(ComponentVariantInfo::WeaponMissileBank { is_fixed: true, integrated_fire_control: None, optical_backup: false, role: WeaponRole::Offensive, munition_family: MunitionFamily::StandardMissile, missile_size: MissileSize::Size3, cells: MissileLauncherCells::Function { count_per_group: 2, groups: CellGroups::Cls3 } }),
            },
            ComponentKey::CR10Antenna => ComponentInfo {
                name: "CR10 Antenna",
                save_key: "Stock/CR10 Antenna",
                kind: ComponentKind::Mount,
                faction: None,
                first_instance_free: false,
                point_cost: 5,
                size: Size { x: 2, y: 1, z: 2 },
                power: (-250) as isize,
                crew: 0,
                reinforced: false,
                variant: Some(ComponentVariantInfo::Antenna),
            },
            ComponentKey::CR70Antenna => ComponentInfo {
                name: "CR70 Antenna",
                save_key: "Stock/CR70 Antenna",
                kind: ComponentKind::Mount,
                faction: Some(Faction::Alliance),
                first_instance_free: false,
                point_cost: 15,
                size: Size { x: 2, y: 1, z: 2 },
                power: (-600) as isize,
                crew: 0,
                reinforced: false,
                variant: Some(ComponentVariantInfo::Antenna),
            },
            ComponentKey::CitadelCIC => ComponentInfo {
                name: "Citadel CIC",
                save_key: "Stock/Citadel CIC",
                kind: ComponentKind::Compartment,
                faction: None,
                first_instance_free: false,
                point_cost: 75,
                size: Size { x: 6, y: 1, z: 8 },
                power: 0,
                crew: (-40) as isize,
                reinforced: true,
                variant: Some(ComponentVariantInfo::Command { work_on_remote_tracks: false }),
            },
            ComponentKey::CitadelMagazine => ComponentInfo {
                name: "Citadel Magazine",
                save_key: "Stock/Citadel Magazine",
                kind: ComponentKind::Compartment,
                faction: Some(Faction::Protectorate),
                first_instance_free: true,
                point_cost: 8,
                size: Size { x: 1, y: 3, z: 1 },
                power: (-10) as isize,
                crew: 0,
                reinforced: true,
                variant: Some(ComponentVariantInfo::Magazine { available_volume: 10 }),
            },
            ComponentKey::CivilianReactor => ComponentInfo {
                name: "Civilian Reactor",
                save_key: "Stock/Civilian Reactor",
                kind: ComponentKind::Module,
                faction: Some(Faction::Protectorate),
                first_instance_free: false,
                point_cost: 10,
                size: Size { x: 5, y: 5, z: 5 },
                power: 3650,
                crew: (-10) as isize,
                reinforced: false,
                variant: None,
            },
            ComponentKey::ContainerBankLauncher => ComponentInfo {
                name: "Container Bank Launcher",
                save_key: "Stock/Container Bank Launcher",
                kind: ComponentKind::Mount,
                faction: Some(Faction::Protectorate),
                first_instance_free: false,
                point_cost: 5,
                size: Size { x: 20, y: 5, z: 10 },
                power: (-200) as isize,
                crew: 0,
                reinforced: false,
                variant: Some(ComponentVariantInfo::WeaponMissileBank { is_fixed: true, integrated_fire_control: None, optical_backup: false, role: WeaponRole::Offensive, munition_family: MunitionFamily::ContainerMissile, missile_size: MissileSize::Size3, cells: MissileLauncherCells::Tiling { count_per_group: 24, separated_groups: true } }),
            },
            ComponentKey::ContainerStackLauncher => ComponentInfo {
                name: "Container Stack Launcher",
                save_key: "Stock/Container Stack Launcher",
                kind: ComponentKind::Mount,
                faction: Some(Faction::Protectorate),
                first_instance_free: false,
                point_cost: 5,
                size: Size { x: 6, y: 1, z: 6 },
                power: (-50) as isize,
                crew: 0,
                reinforced: false,
                variant: Some(ComponentVariantInfo::WeaponMissileBank { is_fixed: true, integrated_fire_control: None, optical_backup: false, role: WeaponRole::Offensive, munition_family: MunitionFamily::ContainerMissile, missile_size: MissileSize::Size3, cells: MissileLauncherCells::Constant { count: 2 } }),
            },
            ComponentKey::DamageControlCentral => ComponentInfo {
                name: "Damage Control Central",
                save_key: "Stock/Damage Control Central",
                kind: ComponentKind::Compartment,
                faction: None,
                first_instance_free: false,
                point_cost: 20,
                size: Size { x: 3, y: 1, z: 3 },
                power: (-50) as isize,
                crew: (-10) as isize,
                reinforced: false,
                variant: None,
            },
            ComponentKey::DamageControlComplex => ComponentInfo {
                name: "Damage Control Complex",
                save_key: "Stock/Damage Control Complex",
                kind: ComponentKind::Compartment,
                faction: Some(Faction::Protectorate),
                first_instance_free: false,
                point_cost: 80,
                size: Size { x: 6, y: 3, z: 6 },
                power: 0,
                crew: (-50) as isize,
                reinforced: true,
                variant: Some(ComponentVariantInfo::DamageControl { teams: 3, restores: 2 }),
            },
            ComponentKey::E15MasqueradeDeceptionModule => ComponentInfo {
                name: "E15 'Masquerade' Deception Module",
                save_key: "Stock/E15 'Masquerade' Signature Booster",
                kind: ComponentKind::Mount,
                faction: Some(Faction::Alliance),
                first_instance_free: false,
                point_cost: 20,
                size: Size { x: 3, y: 1, z: 3 },
                power: (-600) as isize,
                crew: 0,
                reinforced: false,
                variant: None,
            },
            ComponentKey::E20LighthouseIlluminator => ComponentInfo {
                name: "E20 'Lighthouse' Illuminator",
                save_key: "Stock/E20 'Lighthouse' Illuminator",
                kind: ComponentKind::Mount,
                faction: Some(Faction::Protectorate),
                first_instance_free: false,
                point_cost: 15,
                size: Size { x: 2, y: 1, z: 2 },
                power: (-600) as isize,
                crew: 0,
                reinforced: false,
                variant: Some(ComponentVariantInfo::Illuminator { battleshort_available: true }),
            },
            ComponentKey::E55SpotlightIlluminator => ComponentInfo {
                name: "E55 'Spotlight' Illuminator",
                save_key: "Stock/E55 'Spotlight' Illuminator",
                kind: ComponentKind::Mount,
                faction: Some(Faction::Alliance),
                first_instance_free: false,
                point_cost: 15,
                size: Size { x: 2, y: 1, z: 2 },
                power: (-750) as isize,
                crew: 0,
                reinforced: false,
                variant: Some(ComponentVariantInfo::Illuminator { battleshort_available: true }),
            },
            ComponentKey::E57FloodlightIlluminator => ComponentInfo {
                name: "E57 'Floodlight' Illuminator",
                save_key: "Stock/E57 'Floodlight' Illuminator",
                kind: ComponentKind::Mount,
                faction: Some(Faction::Alliance),
                first_instance_free: false,
                point_cost: 15,
                size: Size { x: 2, y: 1, z: 2 },
                power: (-1500) as isize,
                crew: 0,
                reinforced: false,
                variant: Some(ComponentVariantInfo::Illuminator { battleshort_available: true }),
            },
            ComponentKey::E70InterruptionJammer => ComponentInfo {
                name: "E70 'Interruption' Jammer",
                save_key: "Stock/E70 'Interruption' Jammer",
                kind: ComponentKind::Mount,
                faction: Some(Faction::Alliance),
                first_instance_free: false,
                point_cost: 55,
                size: Size { x: 3, y: 1, z: 3 },
                power: (-600) as isize,
                crew: 0,
                reinforced: false,
                variant: Some(ComponentVariantInfo::Jammer { sig_type: SigType::Comms, battleshort_available: true, directional: false }),
            },
            ComponentKey::E71HangupJammer => ComponentInfo {
                name: "E71 'Hangup' Jammer",
                save_key: "Stock/E71 'Hangup' Jammer",
                kind: ComponentKind::Mount,
                faction: Some(Faction::Alliance),
                first_instance_free: false,
                point_cost: 45,
                size: Size { x: 2, y: 1, z: 2 },
                power: (-500) as isize,
                crew: 0,
                reinforced: false,
                variant: Some(ComponentVariantInfo::Jammer { sig_type: SigType::Comms, battleshort_available: true, directional: true }),
            },
            ComponentKey::E90BlanketJammer => ComponentInfo {
                name: "E90 'Blanket' Jammer",
                save_key: "Stock/E90 'Blanket' Jammer",
                kind: ComponentKind::Mount,
                faction: Some(Faction::Alliance),
                first_instance_free: false,
                point_cost: 50,
                size: Size { x: 2, y: 1, z: 2 },
                power: (-1000) as isize,
                crew: 0,
                reinforced: false,
                variant: Some(ComponentVariantInfo::Jammer { sig_type: SigType::Radar, battleshort_available: true, directional: true }),
            },
            ComponentKey::ES22PinardElectronicSupportModule => ComponentInfo {
                name: "ES22 'Pinard' Electronic Support Module",
                save_key: "Stock/ES22 'Pinard' Electronic Support Module",
                kind: ComponentKind::Mount,
                faction: Some(Faction::Alliance),
                first_instance_free: false,
                point_cost: 30,
                size: Size { x: 3, y: 1, z: 3 },
                power: (-200) as isize,
                crew: 0,
                reinforced: false,
                variant: Some(ComponentVariantInfo::SensorPassive),
            },
            ComponentKey::ES32ScryerMissileIDSystem => ComponentInfo {
                name: "ES32 'Scryer' Missile ID System",
                save_key: "Stock/ES32 'Scryer' Missile ID System",
                kind: ComponentKind::Module,
                faction: None,
                first_instance_free: false,
                point_cost: 10,
                size: Size { x: 2, y: 2, z: 2 },
                power: (-300) as isize,
                crew: 0,
                reinforced: false,
                variant: Some(ComponentVariantInfo::Intelligence { work_on_remote_tracks: false }),
            },
            ComponentKey::EnergyRegulator => ComponentInfo {
                name: "Energy Regulator",
                save_key: "Stock/Energy Regulator",
                kind: ComponentKind::Module,
                faction: None,
                first_instance_free: false,
                point_cost: 30,
                size: Size { x: 3, y: 3, z: 3 },
                power: (-650) as isize,
                crew: 0,
                reinforced: false,
                variant: None,
            },
            ComponentKey::FM200Drive => ComponentInfo {
                name: "FM200 Drive",
                save_key: "Stock/FM200 Drive",
                kind: ComponentKind::Module,
                faction: Some(Faction::Alliance),
                first_instance_free: false,
                point_cost: 10,
                size: Size { x: 5, y: 3, z: 5 },
                power: 500,
                crew: (-10) as isize,
                reinforced: false,
                variant: None,
            },
            ComponentKey::FM200RDrive => ComponentInfo {
                name: "FM200R Drive",
                save_key: "Stock/FM200R Drive",
                kind: ComponentKind::Module,
                faction: Some(Faction::Alliance),
                first_instance_free: false,
                point_cost: 20,
                size: Size { x: 5, y: 3, z: 5 },
                power: 500,
                crew: (-10) as isize,
                reinforced: true,
                variant: None,
            },
            ComponentKey::FM230WhiplashDrive => ComponentInfo {
                name: "FM230 'Whiplash' Drive",
                save_key: "Stock/FM230 'Whiplash' Drive",
                kind: ComponentKind::Module,
                faction: Some(Faction::Alliance),
                first_instance_free: false,
                point_cost: 20,
                size: Size { x: 5, y: 3, z: 5 },
                power: 650,
                crew: (-10) as isize,
                reinforced: false,
                variant: None,
            },
            ComponentKey::FM240DragonflyDrive => ComponentInfo {
                name: "FM240 'Dragonfly' Drive",
                save_key: "Stock/FM240 'Dragonfly' Drive",
                kind: ComponentKind::Module,
                faction: Some(Faction::Alliance),
                first_instance_free: false,
                point_cost: 20,
                size: Size { x: 5, y: 3, z: 5 },
                power: 500,
                crew: (-10) as isize,
                reinforced: false,
                variant: None,
            },
            ComponentKey::FM280RaiderDrive => ComponentInfo {
                name: "FM280 'Raider' Drive",
                save_key: "Stock/FM280 'Raider' Drive",
                kind: ComponentKind::Module,
                faction: Some(Faction::Alliance),
                first_instance_free: false,
                point_cost: 20,
                size: Size { x: 5, y: 3, z: 5 },
                power: 0,
                crew: (-10) as isize,
                reinforced: false,
                variant: None,
            },
            ComponentKey::FM30XProwlerDrive => ComponentInfo {
                name: "FM30X 'Prowler' Drive",
                save_key: "Stock/FM30X 'Prowler' Drive",
                kind: ComponentKind::Module,
                faction: Some(Faction::Alliance),
                first_instance_free: false,
                point_cost: 25,
                size: Size { x: 5, y: 3, z: 5 },
                power: 350,
                crew: (-10) as isize,
                reinforced: false,
                variant: None,
            },
            ComponentKey::FM500Drive => ComponentInfo {
                name: "FM500 Drive",
                save_key: "Stock/FM500 Drive",
                kind: ComponentKind::Module,
                faction: Some(Faction::Alliance),
                first_instance_free: false,
                point_cost: 15,
                size: Size { x: 10, y: 8, z: 10 },
                power: 1000,
                crew: (-10) as isize,
                reinforced: false,
                variant: None,
            },
            ComponentKey::FM500RDrive => ComponentInfo {
                name: "FM500R Drive",
                save_key: "Stock/FM500R Drive",
                kind: ComponentKind::Module,
                faction: Some(Faction::Alliance),
                first_instance_free: false,
                point_cost: 30,
                size: Size { x: 10, y: 8, z: 10 },
                power: 1000,
                crew: (-10) as isize,
                reinforced: true,
                variant: None,
            },
            ComponentKey::FM530WhiplashDrive => ComponentInfo {
                name: "FM530 'Whiplash' Drive",
                save_key: "Stock/FM530 'Whiplash' Drive",
                kind: ComponentKind::Module,
                faction: Some(Faction::Alliance),
                first_instance_free: false,
                point_cost: 30,
                size: Size { x: 10, y: 8, z: 10 },
                power: 1500,
                crew: (-10) as isize,
                reinforced: false,
                variant: None,
            },
            ComponentKey::FM540DragonflyDrive => ComponentInfo {
                name: "FM540 'Dragonfly' Drive",
                save_key: "Stock/FM540 'Dragonfly' Drive",
                kind: ComponentKind::Module,
                faction: Some(Faction::Alliance),
                first_instance_free: false,
                point_cost: 30,
                size: Size { x: 10, y: 8, z: 10 },
                power: 1000,
                crew: (-10) as isize,
                reinforced: false,
                variant: None,
            },
            ComponentKey::FM580RaiderDrive => ComponentInfo {
                name: "FM580 'Raider' Drive",
                save_key: "Stock/FM580 'Raider' Drive",
                kind: ComponentKind::Module,
                faction: Some(Faction::Alliance),
                first_instance_free: false,
                point_cost: 30,
                size: Size { x: 10, y: 8, z: 10 },
                power: 500,
                crew: (-10) as isize,
                reinforced: false,
                variant: None,
            },
            ComponentKey::FR3300MicroReactor => ComponentInfo {
                name: "FR3300 Micro Reactor",
                save_key: "Stock/FR3300 Micro Reactor",
                kind: ComponentKind::Module,
                faction: Some(Faction::Alliance),
                first_instance_free: false,
                point_cost: 10,
                size: Size { x: 3, y: 3, z: 3 },
                power: 2250,
                crew: (-5) as isize,
                reinforced: false,
                variant: None,
            },
            ComponentKey::FR4800Reactor => ComponentInfo {
                name: "FR4800 Reactor",
                save_key: "Stock/FR4800 Reactor",
                kind: ComponentKind::Module,
                faction: Some(Faction::Alliance),
                first_instance_free: false,
                point_cost: 10,
                size: Size { x: 5, y: 5, z: 5 },
                power: 4200,
                crew: (-10) as isize,
                reinforced: false,
                variant: None,
            },
            ComponentKey::FocusedParticleAccelerator => ComponentInfo {
                name: "Focused Particle Accelerator",
                save_key: "Stock/Focused Particle Accelerator",
                kind: ComponentKind::Module,
                faction: None,
                first_instance_free: false,
                point_cost: 25,
                size: Size { x: 3, y: 3, z: 3 },
                power: (-800) as isize,
                crew: 0,
                reinforced: false,
                variant: None,
            },
            ComponentKey::GunPlottingCenter => ComponentInfo {
                name: "Gun Plotting Center",
                save_key: "Stock/Gun Plotting Center",
                kind: ComponentKind::Compartment,
                faction: None,
                first_instance_free: false,
                point_cost: 30,
                size: Size { x: 3, y: 1, z: 3 },
                power: (-50) as isize,
                crew: (-30) as isize,
                reinforced: false,
                variant: None,
            },
            ComponentKey::IntelligenceCenter => ComponentInfo {
                name: "Intelligence Center",
                save_key: "Stock/Intelligence Center",
                kind: ComponentKind::Compartment,
                faction: None,
                first_instance_free: false,
                point_cost: 90,
                size: Size { x: 6, y: 1, z: 8 },
                power: 0,
                crew: (-45) as isize,
                reinforced: false,
                variant: Some(ComponentVariantInfo::Intelligence { work_on_remote_tracks: true }),
            },
            ComponentKey::IthacaBridgemaster => ComponentInfo {
                name: "Ithaca Bridgemaster",
                save_key: "Stock/Ithaca Bridgemaster",
                kind: ComponentKind::Module,
                faction: Some(Faction::Protectorate),
                first_instance_free: false,
                point_cost: 10,
                size: Size { x: 2, y: 2, z: 2 },
                power: (-1200) as isize,
                crew: 0,
                reinforced: false,
                variant: Some(ComponentVariantInfo::Sensor { sig_type: SigType::Radar, can_lock: false, can_burnthrough: false, directional: false }),
            },
            ComponentKey::J15BellbirdJammer => ComponentInfo {
                name: "J15 'Bellbird' Jammer",
                save_key: "Stock/J15 Jammer",
                kind: ComponentKind::Mount,
                faction: Some(Faction::Protectorate),
                first_instance_free: false,
                point_cost: 50,
                size: Size { x: 3, y: 1, z: 3 },
                power: (-850) as isize,
                crew: 0,
                reinforced: false,
                variant: Some(ComponentVariantInfo::Jammer { sig_type: SigType::Radar, battleshort_available: true, directional: true }),
            },
            ComponentKey::J360LyrebirdJammer => ComponentInfo {
                name: "J360 'Lyrebird' Jammer",
                save_key: "Stock/J360 Jammer",
                kind: ComponentKind::Mount,
                faction: Some(Faction::Protectorate),
                first_instance_free: false,
                point_cost: 75,
                size: Size { x: 3, y: 1, z: 3 },
                power: (-500) as isize,
                crew: 0,
                reinforced: false,
                variant: Some(ComponentVariantInfo::Jammer { sig_type: SigType::Radar, battleshort_available: true, directional: false }),
            },
            ComponentKey::JuryRiggedReactor => ComponentInfo {
                name: "Jury-Rigged Reactor",
                save_key: "Stock/Jury-Rigged Reactor",
                kind: ComponentKind::Compartment,
                faction: Some(Faction::Protectorate),
                first_instance_free: false,
                point_cost: 20,
                size: Size { x: 6, y: 3, z: 6 },
                power: 500,
                crew: (-30) as isize,
                reinforced: false,
                variant: None,
            },
            ComponentKey::L50BlackjackLaserDazzler => ComponentInfo {
                name: "L50 'Blackjack' Laser Dazzler",
                save_key: "Stock/L50 Laser Dazzler",
                kind: ComponentKind::Mount,
                faction: Some(Faction::Protectorate),
                first_instance_free: false,
                point_cost: 40,
                size: Size { x: 2, y: 1, z: 2 },
                power: (-750) as isize,
                crew: 0,
                reinforced: false,
                variant: Some(ComponentVariantInfo::Jammer { sig_type: SigType::Radar, battleshort_available: true, directional: true }),
            },
            ComponentKey::LargeDCLocker => ComponentInfo {
                name: "Large DC Locker",
                save_key: "Stock/Large DC Locker",
                kind: ComponentKind::Compartment,
                faction: None,
                first_instance_free: false,
                point_cost: 45,
                size: Size { x: 3, y: 1, z: 6 },
                power: 0,
                crew: (-15) as isize,
                reinforced: false,
                variant: Some(ComponentVariantInfo::DamageControl { teams: 3, restores: 2 }),
            },
            ComponentKey::LargeDCStorage => ComponentInfo {
                name: "Large DC Storage",
                save_key: "Stock/Large DC Storage",
                kind: ComponentKind::Compartment,
                faction: Some(Faction::Protectorate),
                first_instance_free: false,
                point_cost: 45,
                size: Size { x: 6, y: 3, z: 6 },
                power: 0,
                crew: (-5) as isize,
                reinforced: false,
                variant: Some(ComponentVariantInfo::DamageControl { teams: 1, restores: 4 }),
            },
            ComponentKey::LauncherDelugeSystem => ComponentInfo {
                name: "Launcher Deluge System",
                save_key: "Stock/Launcher Deluge System",
                kind: ComponentKind::Module,
                faction: None,
                first_instance_free: false,
                point_cost: 15,
                size: Size { x: 2, y: 2, z: 2 },
                power: (-100) as isize,
                crew: 0,
                reinforced: false,
                variant: None,
            },
            ComponentKey::LightCivilianReactor => ComponentInfo {
                name: "Light Civilian Reactor",
                save_key: "Stock/Light Civilian Reactor",
                kind: ComponentKind::Module,
                faction: Some(Faction::Protectorate),
                first_instance_free: false,
                point_cost: 10,
                size: Size { x: 3, y: 3, z: 3 },
                power: 1850,
                crew: (-5) as isize,
                reinforced: false,
                variant: None,
            },
            ComponentKey::ML9MineLauncher => ComponentInfo {
                name: "ML-9 Mine Launcher",
                save_key: "Stock/ML-9 Mine Launcher",
                kind: ComponentKind::Mount,
                faction: Some(Faction::Protectorate),
                first_instance_free: false,
                point_cost: 10,
                size: Size { x: 3, y: 2, z: 3 },
                power: (-100) as isize,
                crew: (-10) as isize,
                reinforced: false,
                variant: None,
            },
            ComponentKey::MLS2Launcher => ComponentInfo {
                name: "MLS-2 Launcher",
                save_key: "Stock/MLS-2 Launcher",
                kind: ComponentKind::Mount,
                faction: Some(Faction::Protectorate),
                first_instance_free: false,
                point_cost: 20,
                size: Size { x: 2, y: 2, z: 5 },
                power: (-50) as isize,
                crew: (-10) as isize,
                reinforced: false,
                variant: Some(ComponentVariantInfo::WeaponMissileLauncher { integrated_fire_control: None, optical_backup: false, role: WeaponRole::Offensive, munition_family: MunitionFamily::StandardMissile, missile_size: MissileSize::Size2 }),
            },
            ComponentKey::MLS3Launcher => ComponentInfo {
                name: "MLS-3 Launcher",
                save_key: "Stock/MLS-3 Launcher",
                kind: ComponentKind::Mount,
                faction: Some(Faction::Protectorate),
                first_instance_free: false,
                point_cost: 20,
                size: Size { x: 2, y: 2, z: 5 },
                power: (-50) as isize,
                crew: (-12) as isize,
                reinforced: false,
                variant: Some(ComponentVariantInfo::WeaponMissileLauncher { integrated_fire_control: None, optical_backup: false, role: WeaponRole::Offensive, munition_family: MunitionFamily::StandardMissile, missile_size: MissileSize::Size3 }),
            },
            ComponentKey::MagazineSprinklers => ComponentInfo {
                name: "Magazine Sprinklers",
                save_key: "Stock/Magazine Sprinklers",
                kind: ComponentKind::Module,
                faction: None,
                first_instance_free: false,
                point_cost: 15,
                size: Size { x: 2, y: 2, z: 2 },
                power: (-100) as isize,
                crew: 0,
                reinforced: false,
                variant: None,
            },
            ComponentKey::MissileParallelInterface => ComponentInfo {
                name: "Missile Parallel Interface",
                save_key: "Stock/Missile Parallel Interface",
                kind: ComponentKind::Module,
                faction: None,
                first_instance_free: false,
                point_cost: 40,
                size: Size { x: 2, y: 2, z: 2 },
                power: (-150) as isize,
                crew: 0,
                reinforced: false,
                variant: None,
            },
            ComponentKey::MissileProgrammingBus => ComponentInfo {
                name: "Missile Programming Bus",
                save_key: "Stock/Missile Programming Bus",
                kind: ComponentKind::Module,
                faction: None,
                first_instance_free: false,
                point_cost: 30,
                size: Size { x: 2, y: 2, z: 2 },
                power: (-200) as isize,
                crew: 0,
                reinforced: false,
                variant: None,
            },
            ComponentKey::MissileProgrammingBusArray => ComponentInfo {
                name: "Missile Programming Bus Array",
                save_key: "Stock/Missile Programming Bus Array",
                kind: ComponentKind::Module,
                faction: None,
                first_instance_free: false,
                point_cost: 50,
                size: Size { x: 3, y: 3, z: 3 },
                power: (-350) as isize,
                crew: 0,
                reinforced: false,
                variant: None,
            },
            ComponentKey::Mk20DefenderPDT => ComponentInfo {
                name: "Mk20 'Defender' PDT",
                save_key: "Stock/Mk20 'Defender' PDT",
                kind: ComponentKind::Mount,
                faction: Some(Faction::Alliance),
                first_instance_free: false,
                point_cost: 20,
                size: Size { x: 2, y: 1, z: 2 },
                power: (-175) as isize,
                crew: (-3) as isize,
                reinforced: false,
                variant: Some(ComponentVariantInfo::WeaponProjectile { is_fixed: false, is_energy: false, integrated_fire_control: Some(SigType::Radar), optical_backup: false, role: WeaponRole::Defensive, munition_family: MunitionFamily::BallisticChemical20mm, autoloader_capacity: None }),
            },
            ComponentKey::Mk25ReboundPDT => ComponentInfo {
                name: "Mk25 'Rebound' PDT",
                save_key: "Stock/Mk25 'Rebound' PDT",
                kind: ComponentKind::Mount,
                faction: Some(Faction::Alliance),
                first_instance_free: false,
                point_cost: 15,
                size: Size { x: 2, y: 1, z: 2 },
                power: (-20) as isize,
                crew: (-3) as isize,
                reinforced: false,
                variant: Some(ComponentVariantInfo::WeaponProjectile { is_fixed: false, is_energy: false, integrated_fire_control: None, optical_backup: true, role: WeaponRole::Defensive, munition_family: MunitionFamily::BallisticChemical50mmFlak, autoloader_capacity: Some(15usize) }),
            },
            ComponentKey::Mk29StonewallPDT => ComponentInfo {
                name: "Mk29 'Stonewall' PDT",
                save_key: "Stock/Mk29 'Stonewall' PDT",
                kind: ComponentKind::Mount,
                faction: Some(Faction::Alliance),
                first_instance_free: false,
                point_cost: 40,
                size: Size { x: 3, y: 1, z: 3 },
                power: (-40) as isize,
                crew: (-5) as isize,
                reinforced: false,
                variant: Some(ComponentVariantInfo::WeaponProjectile { is_fixed: false, is_energy: false, integrated_fire_control: None, optical_backup: true, role: WeaponRole::Defensive, munition_family: MunitionFamily::BallisticChemical50mmFlak, autoloader_capacity: Some(16usize) }),
            },
            ComponentKey::Mk550Railgun => ComponentInfo {
                name: "Mk550 Railgun",
                save_key: "Stock/Mk550 Mass Driver",
                kind: ComponentKind::Mount,
                faction: Some(Faction::Alliance),
                first_instance_free: false,
                point_cost: 75,
                size: Size { x: 4, y: 12, z: 4 },
                power: (-2000) as isize,
                crew: (-15) as isize,
                reinforced: false,
                variant: Some(ComponentVariantInfo::WeaponProjectile { is_fixed: true, is_energy: true, integrated_fire_control: None, optical_backup: true, role: WeaponRole::Offensive, munition_family: MunitionFamily::BallisticMagnetic300mmRailgun, autoloader_capacity: None }),
            },
            ComponentKey::Mk600BeamCannon => ComponentInfo {
                name: "Mk600 Beam Cannon",
                save_key: "Stock/Mk600 Beam Cannon",
                kind: ComponentKind::Mount,
                faction: Some(Faction::Alliance),
                first_instance_free: false,
                point_cost: 75,
                size: Size { x: 4, y: 12, z: 4 },
                power: (-3000) as isize,
                crew: (-15) as isize,
                reinforced: false,
                variant: Some(ComponentVariantInfo::WeaponBeam { is_fixed: true, is_energy: true, integrated_fire_control: None, optical_backup: true, role: WeaponRole::Offensive, battleshort_available: true }),
            },
            ComponentKey::Mk610BeamTurret => ComponentInfo {
                name: "Mk610 Beam Turret",
                save_key: "Stock/Mk610 Beam Turret",
                kind: ComponentKind::Mount,
                faction: Some(Faction::Alliance),
                first_instance_free: false,
                point_cost: 80,
                size: Size { x: 8, y: 5, z: 8 },
                power: (-3000) as isize,
                crew: (-20) as isize,
                reinforced: false,
                variant: Some(ComponentVariantInfo::WeaponBeam { is_fixed: false, is_energy: true, integrated_fire_control: None, optical_backup: true, role: WeaponRole::Offensive, battleshort_available: true }),
            },
            ComponentKey::Mk61Cannon => ComponentInfo {
                name: "Mk61 Cannon",
                save_key: "Stock/Mk61 Cannon",
                kind: ComponentKind::Mount,
                faction: Some(Faction::Alliance),
                first_instance_free: false,
                point_cost: 10,
                size: Size { x: 3, y: 1, z: 3 },
                power: (-50) as isize,
                crew: (-4) as isize,
                reinforced: false,
                variant: Some(ComponentVariantInfo::WeaponProjectile { is_fixed: false, is_energy: false, integrated_fire_control: None, optical_backup: true, role: WeaponRole::DualPurpose, munition_family: MunitionFamily::BallisticChemical120mm, autoloader_capacity: None }),
            },
            ComponentKey::Mk62Cannon => ComponentInfo {
                name: "Mk62 Cannon",
                save_key: "Stock/Mk62 Cannon",
                kind: ComponentKind::Mount,
                faction: Some(Faction::Alliance),
                first_instance_free: false,
                point_cost: 20,
                size: Size { x: 3, y: 1, z: 3 },
                power: (-50) as isize,
                crew: (-8) as isize,
                reinforced: false,
                variant: Some(ComponentVariantInfo::WeaponProjectile { is_fixed: false, is_energy: false, integrated_fire_control: None, optical_backup: true, role: WeaponRole::DualPurpose, munition_family: MunitionFamily::BallisticChemical120mm, autoloader_capacity: None }),
            },
            ComponentKey::Mk64Cannon => ComponentInfo {
                name: "Mk64 Cannon",
                save_key: "Stock/Mk64 Cannon",
                kind: ComponentKind::Mount,
                faction: Some(Faction::Alliance),
                first_instance_free: false,
                point_cost: 30,
                size: Size { x: 3, y: 1, z: 5 },
                power: (-125) as isize,
                crew: (-15) as isize,
                reinforced: false,
                variant: Some(ComponentVariantInfo::WeaponProjectile { is_fixed: false, is_energy: false, integrated_fire_control: None, optical_backup: true, role: WeaponRole::DualPurpose, munition_family: MunitionFamily::BallisticChemical250mm, autoloader_capacity: None }),
            },
            ComponentKey::Mk65Cannon => ComponentInfo {
                name: "Mk65 Cannon",
                save_key: "Stock/Mk65 Cannon",
                kind: ComponentKind::Mount,
                faction: Some(Faction::Alliance),
                first_instance_free: false,
                point_cost: 40,
                size: Size { x: 6, y: 3, z: 6 },
                power: (-180) as isize,
                crew: (-25) as isize,
                reinforced: false,
                variant: Some(ComponentVariantInfo::WeaponProjectile { is_fixed: false, is_energy: false, integrated_fire_control: None, optical_backup: true, role: WeaponRole::Offensive, munition_family: MunitionFamily::BallisticChemical250mm, autoloader_capacity: Some(3usize) }),
            },
            ComponentKey::Mk66Cannon => ComponentInfo {
                name: "Mk66 Cannon",
                save_key: "Stock/Mk66 Cannon",
                kind: ComponentKind::Mount,
                faction: Some(Faction::Alliance),
                first_instance_free: false,
                point_cost: 45,
                size: Size { x: 6, y: 3, z: 6 },
                power: (-200) as isize,
                crew: (-25) as isize,
                reinforced: false,
                variant: Some(ComponentVariantInfo::WeaponProjectile { is_fixed: false, is_energy: false, integrated_fire_control: None, optical_backup: true, role: WeaponRole::Offensive, munition_family: MunitionFamily::BallisticChemical450mm, autoloader_capacity: Some(2usize) }),
            },
            ComponentKey::Mk68Cannon => ComponentInfo {
                name: "Mk68 Cannon",
                save_key: "Stock/Mk68 Cannon",
                kind: ComponentKind::Mount,
                faction: Some(Faction::Alliance),
                first_instance_free: false,
                point_cost: 75,
                size: Size { x: 8, y: 5, z: 8 },
                power: (-225) as isize,
                crew: (-40) as isize,
                reinforced: false,
                variant: Some(ComponentVariantInfo::WeaponProjectile { is_fixed: false, is_energy: false, integrated_fire_control: None, optical_backup: true, role: WeaponRole::Offensive, munition_family: MunitionFamily::BallisticChemical450mm, autoloader_capacity: Some(3usize) }),
            },
            ComponentKey::Mk81Railgun => ComponentInfo {
                name: "Mk81 Railgun",
                save_key: "Stock/Mk81 Railgun",
                kind: ComponentKind::Mount,
                faction: Some(Faction::Alliance),
                first_instance_free: false,
                point_cost: 50,
                size: Size { x: 6, y: 3, z: 6 },
                power: (-1500) as isize,
                crew: (-15) as isize,
                reinforced: false,
                variant: Some(ComponentVariantInfo::WeaponProjectile { is_fixed: false, is_energy: true, integrated_fire_control: None, optical_backup: true, role: WeaponRole::Offensive, munition_family: MunitionFamily::BallisticMagnetic300mmRailgun, autoloader_capacity: None }),
            },
            ComponentKey::Mk90AuroraPDT => ComponentInfo {
                name: "Mk90 'Aurora' PDT",
                save_key: "Stock/Mk90 'Aurora' PDT",
                kind: ComponentKind::Mount,
                faction: Some(Faction::Alliance),
                first_instance_free: false,
                point_cost: 55,
                size: Size { x: 2, y: 1, z: 2 },
                power: (-1250) as isize,
                crew: 0,
                reinforced: false,
                variant: Some(ComponentVariantInfo::WeaponBeam { is_fixed: false, is_energy: true, integrated_fire_control: Some(SigType::Radar), optical_backup: false, role: WeaponRole::Defensive, battleshort_available: true }),
            },
            ComponentKey::Mk95SarissaPDT => ComponentInfo {
                name: "Mk95 'Sarissa' PDT",
                save_key: "Stock/Mk95 'Sarissa' PDT",
                kind: ComponentKind::Mount,
                faction: Some(Faction::Alliance),
                first_instance_free: false,
                point_cost: 65,
                size: Size { x: 3, y: 1, z: 3 },
                power: (-1250) as isize,
                crew: (-4) as isize,
                reinforced: false,
                variant: Some(ComponentVariantInfo::WeaponProjectile { is_fixed: false, is_energy: true, integrated_fire_control: Some(SigType::Radar), optical_backup: true, role: WeaponRole::Defensive, munition_family: MunitionFamily::BallisticMagnetic15mm, autoloader_capacity: Some(3usize) }),
            },
            ComponentKey::MountGyros => ComponentInfo {
                name: "Mount Gyros",
                save_key: "Stock/Mount Gyros",
                kind: ComponentKind::Module,
                faction: None,
                first_instance_free: false,
                point_cost: 20,
                size: Size { x: 2, y: 2, z: 2 },
                power: (-150) as isize,
                crew: 0,
                reinforced: false,
                variant: None,
            },
            ComponentKey::P11PavisePDT => ComponentInfo {
                name: "P11 'Pavise' PDT",
                save_key: "Stock/P11 PDT",
                kind: ComponentKind::Mount,
                faction: Some(Faction::Protectorate),
                first_instance_free: false,
                point_cost: 15,
                size: Size { x: 2, y: 1, z: 2 },
                power: (-150) as isize,
                crew: (-3) as isize,
                reinforced: false,
                variant: Some(ComponentVariantInfo::WeaponProjectile { is_fixed: false, is_energy: false, integrated_fire_control: Some(SigType::Radar), optical_backup: false, role: WeaponRole::Defensive, munition_family: MunitionFamily::BallisticChemical20mm, autoloader_capacity: None }),
            },
            ComponentKey::P20BastionPDT => ComponentInfo {
                name: "P20 'Bastion' PDT",
                save_key: "Stock/P20 Flak PDT",
                kind: ComponentKind::Mount,
                faction: Some(Faction::Protectorate),
                first_instance_free: false,
                point_cost: 15,
                size: Size { x: 2, y: 1, z: 2 },
                power: (-40) as isize,
                crew: (-5) as isize,
                reinforced: false,
                variant: Some(ComponentVariantInfo::WeaponProjectile { is_fixed: false, is_energy: false, integrated_fire_control: None, optical_backup: true, role: WeaponRole::Defensive, munition_family: MunitionFamily::BallisticChemical50mmFlak, autoloader_capacity: Some(100usize) }),
            },
            ComponentKey::P60GrazerPDT => ComponentInfo {
                name: "P60 'Grazer' PDT",
                save_key: "Stock/P60 Laser PDT",
                kind: ComponentKind::Mount,
                faction: Some(Faction::Protectorate),
                first_instance_free: false,
                point_cost: 35,
                size: Size { x: 2, y: 1, z: 2 },
                power: (-1500) as isize,
                crew: 0,
                reinforced: false,
                variant: Some(ComponentVariantInfo::WeaponProjectile { is_fixed: false, is_energy: true, integrated_fire_control: Some(SigType::ElectroOptical), optical_backup: false, role: WeaponRole::Defensive, munition_family: MunitionFamily::Infinite, autoloader_capacity: None }),
            },
            ComponentKey::PlantControlCenter => ComponentInfo {
                name: "Plant Control Center",
                save_key: "Stock/Plant Control Center",
                kind: ComponentKind::Compartment,
                faction: None,
                first_instance_free: false,
                point_cost: 25,
                size: Size { x: 3, y: 1, z: 3 },
                power: 0,
                crew: (-15) as isize,
                reinforced: false,
                variant: None,
            },
            ComponentKey::R400BloodhoundLRTRadar => ComponentInfo {
                name: "R400 'Bloodhound' LRT Radar",
                save_key: "Stock/R400 Radar",
                kind: ComponentKind::Mount,
                faction: Some(Faction::Protectorate),
                first_instance_free: false,
                point_cost: 40,
                size: Size { x: 2, y: 5, z: 2 },
                power: (-3000) as isize,
                crew: 0,
                reinforced: false,
                variant: Some(ComponentVariantInfo::Sensor { sig_type: SigType::Radar, can_lock: false, can_burnthrough: false, directional: true }),
            },
            ComponentKey::R550EarlyWarningRadar => ComponentInfo {
                name: "R550 Early Warning Radar",
                save_key: "Stock/R550 Early Warning Radar",
                kind: ComponentKind::Mount,
                faction: Some(Faction::Protectorate),
                first_instance_free: false,
                point_cost: 65,
                size: Size { x: 3, y: 1, z: 3 },
                power: (-4500) as isize,
                crew: 0,
                reinforced: false,
                variant: Some(ComponentVariantInfo::Sensor { sig_type: SigType::Radar, can_lock: false, can_burnthrough: false, directional: true }),
            },
            ComponentKey::RF101BullseyeRadar => ComponentInfo {
                name: "RF101 'Bullseye' Radar",
                save_key: "Stock/RF101 'Bullseye' Radar",
                kind: ComponentKind::Mount,
                faction: Some(Faction::Alliance),
                first_instance_free: false,
                point_cost: 40,
                size: Size { x: 2, y: 1, z: 2 },
                power: (-300) as isize,
                crew: 0,
                reinforced: false,
                variant: None,
            },
            ComponentKey::RF44PinpointRadar => ComponentInfo {
                name: "RF44 'Pinpoint' Radar",
                save_key: "Stock/RF44 'Pinpoint' Radar",
                kind: ComponentKind::Mount,
                faction: Some(Faction::Protectorate),
                first_instance_free: false,
                point_cost: 10,
                size: Size { x: 2, y: 1, z: 2 },
                power: (-250) as isize,
                crew: 0,
                reinforced: false,
                variant: None,
            },
            ComponentKey::RL18Launcher => ComponentInfo {
                name: "RL18 Launcher",
                save_key: "Stock/RL18 Launcher",
                kind: ComponentKind::Mount,
                faction: Some(Faction::Protectorate),
                first_instance_free: false,
                point_cost: 15,
                size: Size { x: 3, y: 1, z: 3 },
                power: (-50) as isize,
                crew: 0,
                reinforced: false,
                variant: Some(ComponentVariantInfo::WeaponMissileBank { is_fixed: false, integrated_fire_control: None, optical_backup: false, role: WeaponRole::Offensive, munition_family: MunitionFamily::UnguidedRocket, missile_size: MissileSize::Size1, cells: MissileLauncherCells::Constant { count: 18 } }),
            },
            ComponentKey::RL36Launcher => ComponentInfo {
                name: "RL36 Launcher",
                save_key: "Stock/RL36 Launcher",
                kind: ComponentKind::Mount,
                faction: Some(Faction::Protectorate),
                first_instance_free: false,
                point_cost: 15,
                size: Size { x: 6, y: 3, z: 6 },
                power: (-75) as isize,
                crew: 0,
                reinforced: false,
                variant: Some(ComponentVariantInfo::WeaponMissileBank { is_fixed: false, integrated_fire_control: None, optical_backup: false, role: WeaponRole::Offensive, munition_family: MunitionFamily::UnguidedRocket, missile_size: MissileSize::Size1, cells: MissileLauncherCells::Constant { count: 36 } }),
            },
            ComponentKey::RM50ParallaxRadar => ComponentInfo {
                name: "RM50 'Parallax' Radar",
                save_key: "Stock/RM50 'Parallax' Radar",
                kind: ComponentKind::Module,
                faction: Some(Faction::Alliance),
                first_instance_free: false,
                point_cost: 45,
                size: Size { x: 2, y: 2, z: 2 },
                power: (-3600) as isize,
                crew: 0,
                reinforced: false,
                variant: Some(ComponentVariantInfo::Sensor { sig_type: SigType::Radar, can_lock: true, can_burnthrough: true, directional: false }),
            },
            ComponentKey::RS35FrontlineRadar => ComponentInfo {
                name: "RS35 'Frontline' Radar",
                save_key: "Stock/RS35 'Frontline' Radar",
                kind: ComponentKind::Module,
                faction: Some(Faction::Alliance),
                first_instance_free: false,
                point_cost: 10,
                size: Size { x: 2, y: 2, z: 2 },
                power: (-2000) as isize,
                crew: 0,
                reinforced: false,
                variant: Some(ComponentVariantInfo::Sensor { sig_type: SigType::Radar, can_lock: false, can_burnthrough: true, directional: false }),
            },
            ComponentKey::RS41SpyglassRadar => ComponentInfo {
                name: "RS41 'Spyglass' Radar",
                save_key: "Stock/RS41 'Spyglass' Radar",
                kind: ComponentKind::Module,
                faction: Some(Faction::Alliance),
                first_instance_free: false,
                point_cost: 25,
                size: Size { x: 2, y: 2, z: 2 },
                power: (-4000) as isize,
                crew: 0,
                reinforced: false,
                variant: Some(ComponentVariantInfo::Sensor { sig_type: SigType::Radar, can_lock: false, can_burnthrough: false, directional: false }),
            },
            ComponentKey::RapidCycleCradle => ComponentInfo {
                name: "Rapid-Cycle Cradle",
                save_key: "Stock/Rapid-Cycle Cradle",
                kind: ComponentKind::Module,
                faction: None,
                first_instance_free: false,
                point_cost: 20,
                size: Size { x: 3, y: 3, z: 3 },
                power: (-150) as isize,
                crew: 0,
                reinforced: false,
                variant: None,
            },
            ComponentKey::RapidDCLocker => ComponentInfo {
                name: "Rapid DC Locker",
                save_key: "Stock/Rapid DC Locker",
                kind: ComponentKind::Compartment,
                faction: None,
                first_instance_free: false,
                point_cost: 10,
                size: Size { x: 3, y: 1, z: 3 },
                power: 0,
                crew: (-5) as isize,
                reinforced: false,
                variant: Some(ComponentVariantInfo::DamageControl { teams: 1, restores: 0 }),
            },
            ComponentKey::RedundantReactorFailsafes => ComponentInfo {
                name: "Redundant Reactor Failsafes",
                save_key: "Stock/Redundant Reactor Failsafes",
                kind: ComponentKind::Module,
                faction: None,
                first_instance_free: false,
                point_cost: 25,
                size: Size { x: 2, y: 2, z: 2 },
                power: (-100) as isize,
                crew: 0,
                reinforced: false,
                variant: None,
            },
            ComponentKey::ReinforcedCIC => ComponentInfo {
                name: "Reinforced CIC",
                save_key: "Stock/Reinforced CIC",
                kind: ComponentKind::Compartment,
                faction: None,
                first_instance_free: false,
                point_cost: 25,
                size: Size { x: 4, y: 1, z: 6 },
                power: 0,
                crew: (-20) as isize,
                reinforced: true,
                variant: Some(ComponentVariantInfo::Command { work_on_remote_tracks: false }),
            },
            ComponentKey::ReinforcedDCLocker => ComponentInfo {
                name: "Reinforced DC Locker",
                save_key: "Stock/Reinforced DC Locker",
                kind: ComponentKind::Compartment,
                faction: None,
                first_instance_free: false,
                point_cost: 45,
                size: Size { x: 3, y: 1, z: 6 },
                power: 0,
                crew: (-10) as isize,
                reinforced: true,
                variant: Some(ComponentVariantInfo::DamageControl { teams: 2, restores: 1 }),
            },
            ComponentKey::ReinforcedMagazine => ComponentInfo {
                name: "Reinforced Magazine",
                save_key: "Stock/Reinforced Magazine",
                kind: ComponentKind::Compartment,
                faction: None,
                first_instance_free: true,
                point_cost: 2,
                size: Size { x: 1, y: 1, z: 1 },
                power: (-10) as isize,
                crew: 0,
                reinforced: true,
                variant: Some(ComponentVariantInfo::Magazine { available_volume: 10 }),
            },
            ComponentKey::ReinforcedThrusterNozzles => ComponentInfo {
                name: "Reinforced Thruster Nozzles",
                save_key: "Stock/Reinforced Thruster Nozzles",
                kind: ComponentKind::Module,
                faction: None,
                first_instance_free: false,
                point_cost: 10,
                size: Size { x: 2, y: 2, z: 2 },
                power: 0,
                crew: 0,
                reinforced: false,
                variant: None,
            },
            ComponentKey::SignatureScrambler => ComponentInfo {
                name: "Signature Scrambler",
                save_key: "Stock/Signature Scrambler",
                kind: ComponentKind::Module,
                faction: None,
                first_instance_free: false,
                point_cost: 35,
                size: Size { x: 2, y: 2, z: 2 },
                power: (-450) as isize,
                crew: 0,
                reinforced: false,
                variant: None,
            },
            ComponentKey::SmallDCLocker => ComponentInfo {
                name: "Small DC Locker",
                save_key: "Stock/Small DC Locker",
                kind: ComponentKind::Compartment,
                faction: None,
                first_instance_free: false,
                point_cost: 30,
                size: Size { x: 3, y: 1, z: 3 },
                power: 0,
                crew: (-10) as isize,
                reinforced: false,
                variant: Some(ComponentVariantInfo::DamageControl { teams: 2, restores: 1 }),
            },
            ComponentKey::SmallEnergyRegulator => ComponentInfo {
                name: "Small Energy Regulator",
                save_key: "Stock/Small Energy Regulator",
                kind: ComponentKind::Module,
                faction: None,
                first_instance_free: false,
                point_cost: 20,
                size: Size { x: 2, y: 2, z: 2 },
                power: (-400) as isize,
                crew: 0,
                reinforced: false,
                variant: None,
            },
            ComponentKey::SmallReactorBooster => ComponentInfo {
                name: "Small Reactor Booster",
                save_key: "Stock/Small Reactor Booster",
                kind: ComponentKind::Module,
                faction: None,
                first_instance_free: false,
                point_cost: 10,
                size: Size { x: 2, y: 2, z: 2 },
                power: 0,
                crew: 0,
                reinforced: false,
                variant: None,
            },
            ComponentKey::SmallWorkshop => ComponentInfo {
                name: "Small Workshop",
                save_key: "Stock/Small Workshop",
                kind: ComponentKind::Compartment,
                faction: None,
                first_instance_free: false,
                point_cost: 20,
                size: Size { x: 3, y: 1, z: 3 },
                power: (-50) as isize,
                crew: (-10) as isize,
                reinforced: false,
                variant: None,
            },
            ComponentKey::StrikePlanningCenter => ComponentInfo {
                name: "Strike Planning Center",
                save_key: "Stock/Strike Planning Center",
                kind: ComponentKind::Compartment,
                faction: None,
                first_instance_free: false,
                point_cost: 70,
                size: Size { x: 6, y: 1, z: 8 },
                power: 0,
                crew: (-20) as isize,
                reinforced: false,
                variant: None,
            },
            ComponentKey::StrobeCorrelator => ComponentInfo {
                name: "Strobe Correlator",
                save_key: "Stock/Strobe Correlator",
                kind: ComponentKind::Module,
                faction: None,
                first_instance_free: false,
                point_cost: 25,
                size: Size { x: 2, y: 2, z: 2 },
                power: (-150) as isize,
                crew: 0,
                reinforced: false,
                variant: None,
            },
            ComponentKey::SundriveRacingPro => ComponentInfo {
                name: "Sundrive Racing Pro",
                save_key: "Stock/Sundrive Racing Pro",
                kind: ComponentKind::Module,
                faction: Some(Faction::Protectorate),
                first_instance_free: false,
                point_cost: 30,
                size: Size { x: 5, y: 3, z: 5 },
                power: 200,
                crew: (-10) as isize,
                reinforced: false,
                variant: None,
            },
            ComponentKey::SupplementaryRadioAmplifiers => ComponentInfo {
                name: "Supplementary Radio Amplifiers",
                save_key: "Stock/Supplementary Radio Amplifiers",
                kind: ComponentKind::Module,
                faction: None,
                first_instance_free: false,
                point_cost: 20,
                size: Size { x: 2, y: 2, z: 2 },
                power: (-100) as isize,
                crew: 0,
                reinforced: false,
                variant: None,
            },
            ComponentKey::T20Cannon => ComponentInfo {
                name: "T20 Cannon",
                save_key: "Stock/T20 Cannon",
                kind: ComponentKind::Mount,
                faction: Some(Faction::Protectorate),
                first_instance_free: false,
                point_cost: 15,
                size: Size { x: 3, y: 1, z: 3 },
                power: (-30) as isize,
                crew: (-4) as isize,
                reinforced: false,
                variant: Some(ComponentVariantInfo::WeaponProjectile { is_fixed: false, is_energy: false, integrated_fire_control: None, optical_backup: true, role: WeaponRole::DualPurpose, munition_family: MunitionFamily::BallisticChemical100mm, autoloader_capacity: Some(4usize) }),
            },
            ComponentKey::T30Cannon => ComponentInfo {
                name: "T30 Cannon",
                save_key: "Stock/T30 Cannon",
                kind: ComponentKind::Mount,
                faction: Some(Faction::Protectorate),
                first_instance_free: false,
                point_cost: 20,
                size: Size { x: 6, y: 3, z: 6 },
                power: (-120) as isize,
                crew: (-10) as isize,
                reinforced: false,
                variant: Some(ComponentVariantInfo::WeaponProjectile { is_fixed: false, is_energy: false, integrated_fire_control: None, optical_backup: true, role: WeaponRole::DualPurpose, munition_family: MunitionFamily::BallisticChemical100mm, autoloader_capacity: Some(16usize) }),
            },
            ComponentKey::T81PlasmaCannon => ComponentInfo {
                name: "T81 Plasma Cannon",
                save_key: "Stock/T81 Plasma Cannon",
                kind: ComponentKind::Mount,
                faction: Some(Faction::Protectorate),
                first_instance_free: false,
                point_cost: 45,
                size: Size { x: 6, y: 3, z: 6 },
                power: (-1500) as isize,
                crew: (-15) as isize,
                reinforced: false,
                variant: Some(ComponentVariantInfo::WeaponProjectile { is_fixed: false, is_energy: true, integrated_fire_control: None, optical_backup: true, role: WeaponRole::Offensive, munition_family: MunitionFamily::BallisticMagnetic400mmPlasma, autoloader_capacity: Some(8usize) }),
            },
            ComponentKey::TE45MassDriver => ComponentInfo {
                name: "TE45 Mass Driver",
                save_key: "Stock/TE45 Mass Driver",
                kind: ComponentKind::Mount,
                faction: Some(Faction::Protectorate),
                first_instance_free: false,
                point_cost: 100,
                size: Size { x: 4, y: 10, z: 4 },
                power: (-4250) as isize,
                crew: (-15) as isize,
                reinforced: false,
                variant: Some(ComponentVariantInfo::WeaponProjectile { is_fixed: true, is_energy: true, integrated_fire_control: None, optical_backup: true, role: WeaponRole::Offensive, munition_family: MunitionFamily::BallisticMagnetic500mmMassDriver, autoloader_capacity: None }),
            },
            ComponentKey::TLS3Launcher => ComponentInfo {
                name: "TLS-3 Launcher",
                save_key: "Stock/Torpedo Turret",
                kind: ComponentKind::Mount,
                faction: Some(Faction::Alliance),
                first_instance_free: false,
                point_cost: 20,
                size: Size { x: 3, y: 1, z: 5 },
                power: (-250) as isize,
                crew: 0,
                reinforced: false,
                variant: Some(ComponentVariantInfo::WeaponMissileBank { is_fixed: false, integrated_fire_control: None, optical_backup: false, role: WeaponRole::Offensive, munition_family: MunitionFamily::StandardMissile, missile_size: MissileSize::Size3, cells: MissileLauncherCells::Constant { count: 6 } }),
            },
            ComponentKey::TrackCorrelator => ComponentInfo {
                name: "Track Correlator",
                save_key: "Stock/Track Correlator",
                kind: ComponentKind::Module,
                faction: None,
                first_instance_free: false,
                point_cost: 25,
                size: Size { x: 2, y: 2, z: 2 },
                power: (-150) as isize,
                crew: 0,
                reinforced: false,
                variant: None,
            },
            ComponentKey::VLS123Launcher => ComponentInfo {
                name: "VLS-1-23 Launcher",
                save_key: "Stock/VLS-1-23 Launcher",
                kind: ComponentKind::Mount,
                faction: None,
                first_instance_free: false,
                point_cost: 5,
                size: Size { x: 2, y: 2, z: 2 },
                power: (-50) as isize,
                crew: 0,
                reinforced: false,
                variant: Some(ComponentVariantInfo::WeaponMissileBank { is_fixed: true, integrated_fire_control: None, optical_backup: false, role: WeaponRole::DualPurpose, munition_family: MunitionFamily::StandardMissile, missile_size: MissileSize::Size1, cells: MissileLauncherCells::Constant { count: 23 } }),
            },
            ComponentKey::VLS146Launcher => ComponentInfo {
                name: "VLS-1-46 Launcher",
                save_key: "Stock/VLS-1-46 Launcher",
                kind: ComponentKind::Mount,
                faction: None,
                first_instance_free: false,
                point_cost: 5,
                size: Size { x: 3, y: 2, z: 3 },
                power: (-50) as isize,
                crew: 0,
                reinforced: false,
                variant: Some(ComponentVariantInfo::WeaponMissileBank { is_fixed: true, integrated_fire_control: None, optical_backup: false, role: WeaponRole::DualPurpose, munition_family: MunitionFamily::StandardMissile, missile_size: MissileSize::Size1, cells: MissileLauncherCells::Constant { count: 46 } }),
            },
            ComponentKey::VLS2Launcher => ComponentInfo {
                name: "VLS-2 Launcher",
                save_key: "Stock/VLS-2 Launcher",
                kind: ComponentKind::Mount,
                faction: Some(Faction::Alliance),
                first_instance_free: false,
                point_cost: 10,
                size: Size { x: 3, y: 4, z: 3 },
                power: (-200) as isize,
                crew: 0,
                reinforced: false,
                variant: Some(ComponentVariantInfo::WeaponMissileBank { is_fixed: true, integrated_fire_control: None, optical_backup: false, role: WeaponRole::Offensive, munition_family: MunitionFamily::StandardMissile, missile_size: MissileSize::Size2, cells: MissileLauncherCells::Function { count_per_group: 8, groups: CellGroups::Vls2 } }),
            },
            ComponentKey::VLS3Launcher => ComponentInfo {
                name: "VLS-3 Launcher",
                save_key: "Stock/VLS-3 Launcher",
                kind: ComponentKind::Mount,
                faction: Some(Faction::Alliance),
                first_instance_free: false,
                point_cost: 20,
                size: Size { x: 3, y: 4, z: 3 },
                power: (-200) as isize,
                crew: 0,
                reinforced: false,
                variant: Some(ComponentVariantInfo::WeaponMissileBank { is_fixed: true, integrated_fire_control: None, optical_backup: false, role: WeaponRole::Offensive, munition_family: MunitionFamily::StandardMissile, missile_size: MissileSize::Size3, cells: MissileLauncherCells::Function { count_per_group: 2, groups: CellGroups::Vls3 } }),
            },
        }
    }

    /// The record of this component.
    pub fn info(self) -> (r: ComponentInfo)
        ensures
            r == self.spec_info(),
    {
        match self {
            ComponentKey::ActivelyCooledAmplifiers | ComponentKey::AdaptiveRadarReceiver | ComponentKey::AmmunitionElevators | ComponentKey::AnalysisAnnex | ComponentKey::AuxiliarySteering | ComponentKey::BW1500Drive | ComponentKey::BW1500RDrive | ComponentKey::BW2000Drive | ComponentKey::BW800Drive | ComponentKey::BW800RDrive | ComponentKey::BasicCIC | ComponentKey::BattleDressingStation | ComponentKey::Berthing | ComponentKey::BoostedReactor | ComponentKey::BulkMagazine | ComponentKey::BulwarkHuntress | ComponentKey::C30Cannon | ComponentKey::C53Cannon | ComponentKey::C56Cannon | ComponentKey::C65Cannon | ComponentKey::C81PlasmaCannon | ComponentKey::C90Cannon => info_part0(self),
            ComponentKey::CHI7700Drive | ComponentKey::CHI777YardDrive | ComponentKey::CHI9100LongHaulDrive | ComponentKey::CLS3Launcher | ComponentKey::CR10Antenna | ComponentKey::CR70Antenna | ComponentKey::CitadelCIC | ComponentKey::CitadelMagazine | ComponentKey::CivilianReactor | ComponentKey::ContainerBankLauncher | ComponentKey::ContainerStackLauncher | ComponentKey::DamageControlCentral | ComponentKey::DamageControlComplex | ComponentKey::E15MasqueradeDeceptionModule | ComponentKey::E20LighthouseIlluminator | ComponentKey::E55SpotlightIlluminator | ComponentKey::E57FloodlightIlluminator | ComponentKey::E70InterruptionJammer | ComponentKey::E71HangupJammer | ComponentKey::E90BlanketJammer | ComponentKey::ES22PinardElectronicSupportModule | ComponentKey::ES32ScryerMissileIDSystem => info_part1(self),
            ComponentKey::EnergyRegulator | ComponentKey::FM200Drive | ComponentKey::FM200RDrive | ComponentKey::FM230WhiplashDrive | ComponentKey::FM240DragonflyDrive | ComponentKey::FM280RaiderDrive | ComponentKey::FM30XProwlerDrive | ComponentKey::FM500Drive | ComponentKey::FM500RDrive | ComponentKey::FM530WhiplashDrive | ComponentKey::FM540DragonflyDrive | ComponentKey::FM580RaiderDrive | ComponentKey::FR3300MicroReactor | ComponentKey::FR4800Reactor | ComponentKey::FocusedParticleAccelerator | ComponentKey::GunPlottingCenter | ComponentKey::IntelligenceCenter | ComponentKey::IthacaBridgemaster | ComponentKey::J15BellbirdJammer | ComponentKey::J360LyrebirdJammer | ComponentKey::JuryRiggedReactor | ComponentKey::L50BlackjackLaserDazzler => info_part2(self),
            ComponentKey::LargeDCLocker | ComponentKey::LargeDCStorage | ComponentKey::LauncherDelugeSystem | ComponentKey::LightCivilianReactor | ComponentKey::ML9MineLauncher | ComponentKey::MLS2Launcher | ComponentKey::MLS3Launcher | ComponentKey::MagazineSprinklers | ComponentKey::MissileParallelInterface | ComponentKey::MissileProgrammingBus | ComponentKey::MissileProgrammingBusArray | ComponentKey::Mk20DefenderPDT | ComponentKey::Mk25ReboundPDT | ComponentKey::Mk29StonewallPDT | ComponentKey::Mk550Railgun | ComponentKey::Mk600BeamCannon | ComponentKey::Mk610BeamTurret | ComponentKey::Mk61Cannon | ComponentKey::Mk62Cannon | ComponentKey::Mk64Cannon | ComponentKey::Mk65Cannon | ComponentKey::Mk66Cannon => info_part3(self),
            ComponentKey::Mk68Cannon | ComponentKey::Mk81Railgun | ComponentKey::Mk90AuroraPDT | ComponentKey::Mk95SarissaPDT | ComponentKey::MountGyros | ComponentKey::P11PavisePDT | ComponentKey::P20BastionPDT | ComponentKey::P60GrazerPDT | ComponentKey::PlantControlCenter | ComponentKey::R400BloodhoundLRTRadar | ComponentKey::R550EarlyWarningRadar | ComponentKey::RF101BullseyeRadar | ComponentKey::RF44PinpointRadar | ComponentKey::RL18Launcher | ComponentKey::RL36Launcher | ComponentKey::RM50ParallaxRadar | ComponentKey::RS35FrontlineRadar | ComponentKey::RS41SpyglassRadar | ComponentKey::RapidCycleCradle | ComponentKey::RapidDCLocker | ComponentKey::RedundantReactorFailsafes | ComponentKey::ReinforcedCIC => info_part4(self),
            ComponentKey::ReinforcedDCLocker | ComponentKey::ReinforcedMagazine | ComponentKey::ReinforcedThrusterNozzles | ComponentKey::SignatureScrambler | ComponentKey::SmallDCLocker | ComponentKey::SmallEnergyRegulator | ComponentKey::SmallReactorBooster | ComponentKey::SmallWorkshop | ComponentKey::StrikePlanningCenter | ComponentKey::StrobeCorrelator | ComponentKey::SundriveRacingPro | ComponentKey::SupplementaryRadioAmplifiers | ComponentKey::T20Cannon | ComponentKey::T30Cannon | ComponentKey::T81PlasmaCannon | ComponentKey::TE45MassDriver | ComponentKey::TLS3Launcher | ComponentKey::TrackCorrelator | ComponentKey::VLS123Launcher | ComponentKey::VLS146Launcher | ComponentKey::VLS2Launcher | ComponentKey::VLS3Launcher => info_part5(self),
        }
    }
}

#[verifier::spinoff_prover]
fn info_part0(k: ComponentKey) -> (r: ComponentInfo)
    requires
        k == ComponentKey::ActivelyCooledAmplifiers || k == ComponentKey::AdaptiveRadarReceiver || k == ComponentKey::AmmunitionElevators || k == ComponentKey::AnalysisAnnex || k == ComponentKey::AuxiliarySteering || k == ComponentKey::BW1500Drive || k == ComponentKey::BW1500RDrive || k == ComponentKey::BW2000Drive || k == ComponentKey::BW800Drive || k == ComponentKey::BW800RDrive || k == ComponentKey::BasicCIC || k == ComponentKey::BattleDressingStation || k == ComponentKey::Berthing || k == ComponentKey::BoostedReactor || k == ComponentKey::BulkMagazine || k == ComponentKey::BulwarkHuntress || k == ComponentKey::C30Cannon || k == ComponentKey::C53Cannon || k == ComponentKey::C56Cannon || k == ComponentKey::C65Cannon || k == ComponentKey::C81PlasmaCannon || k == ComponentKey::C90Cannon,
    ensures
        r == k.spec_info(),
{
    match k {
        ComponentKey::ActivelyCooledAmplifiers => ComponentInfo {
            name: "Actively Cooled Amplifiers",
            save_key: "Stock/Actively Cooled Amplifiers",
            kind: ComponentKind::Module,
            faction: None,
            first_instance_free: false,
            point_cost: 25,
            size: Size { x: 2, y: 2, z: 2 },
            power: -175,
            crew: 0,
            reinforced: false,
            variant: None,
        },
        ComponentKey::AdaptiveRadarReceiver => ComponentInfo {
            name: "Adaptive Radar Receiver",
            save_key: "Stock/Adaptive Radar Receiver",
            kind: ComponentKind::Module,
            faction: None,
            first_instance_free: false,
            point_cost: 30,
            size: Size { x: 2, y: 2, z: 2 },
            power: -200,
            crew: 0,
            reinforced: false,
            variant: None,
        },
        ComponentKey::AmmunitionElevators => ComponentInfo {
            name: "Ammunition Elevators",
            save_key: "Stock/Ammunition Elevators",
            kind: ComponentKind::Module,
            faction: None,
            first_instance_free: false,
            point_cost: 20,
            size: Size { x: 2, y: 2, z: 2 },
            power: -150,
            crew: 0,
            reinforced: false,
            variant: None,
        },
        ComponentKey::AnalysisAnnex => ComponentInfo {
            name: "Analysis Annex",
            save_key: "Stock/Analysis Annex",
            kind: ComponentKind::Compartment,
            faction: None,
            first_instance_free: false,
            point_cost: 20,
            size: Size { x: 3, y: 1, z: 3 },
            power: 0,
            crew: -20,
            reinforced: false,
            variant: None,
        },
        ComponentKey::AuxiliarySteering => ComponentInfo {
            name: "Auxiliary Steering",
            save_key: "Stock/Auxiliary Steering",
            kind: ComponentKind::Compartment,
            faction: None,
            first_instance_free: false,
            point_cost: 10,
            size: Size { x: 3, y: 1, z: 3 },
            power: 0,
            crew: -5,
            reinforced: true,
            variant: Some(ComponentVariantInfo::Command { work_on_remote_tracks: false }),
        },
        ComponentKey::BW1500Drive => ComponentInfo {
            name: "BW1500 Drive",
            save_key: "Stock/BW1500 Drive",
            kind: ComponentKind::Module,
            faction: Some(Faction::Protectorate),
            first_instance_free: false,
            point_cost: 10,
            size: Size { x: 12, y: 12, z: 12 },
            power: 300,
            crew: -10,
            reinforced: false,
            variant: None,
        },
        ComponentKey::BW1500RDrive => ComponentInfo {
            name: "BW1500-R Drive",
            save_key: "Stock/BW1500-R Drive",
            kind: ComponentKind::Module,
            faction: Some(Faction::Protectorate),
            first_instance_free: false,
            point_cost: 20,
            size: Size { x: 12, y: 12, z: 12 },
            power: 300,
            crew: -10,
            reinforced: true,
            variant: None,
        },
        ComponentKey::BW2000Drive => ComponentInfo {
            name: "BW2000 Drive",
            save_key: "Stock/BW2000 Drive",
            kind: ComponentKind::Module,
            faction: Some(Faction::Protectorate),
            first_instance_free: false,
            point_cost: 15,
            size: Size { x: 12, y: 12, z: 12 },
            power: 2000,
            crew: -10,
            reinforced: false,
            variant: None,
        },
        ComponentKey::BW800Drive => ComponentInfo {
            name: "BW800 Drive",
            save_key: "Stock/BW800 Drive",
            kind: ComponentKind::Module,
            faction: Some(Faction::Protectorate),
            first_instance_free: false,
            point_cost: 10,
            size: Size { x: 5, y: 3, z: 5 },
            power: 300,
            crew: -10,
            reinforced: false,
            variant: None,
        },
        ComponentKey::BW800RDrive => ComponentInfo {
            name: "BW800-R Drive",
            save_key: "Stock/BW800-R Drive",
            kind: ComponentKind::Module,
            faction: Some(Faction::Protectorate),
            first_instance_free: false,
            point_cost: 20,
            size: Size { x: 5, y: 3, z: 5 },
            power: 300,
            crew: -10,
            reinforced: true,
            variant: None,
        },
        ComponentKey::BasicCIC => ComponentInfo {
            name: "Basic CIC",
            save_key: "Stock/Basic CIC",
            kind: ComponentKind::Compartment,
            faction: None,
            first_instance_free: false,
            point_cost: 10,
            size: Size { x: 4, y: 1, z: 6 },
            power: 0,
            crew: -20,
            reinforced: false,
            variant: Some(ComponentVariantInfo::Command { work_on_remote_tracks: false }),
        },
        ComponentKey::BattleDressingStation => ComponentInfo {
            name: "Battle Dressing Station",
            save_key: "Stock/Battle Dressing Station",
            kind: ComponentKind::Compartment,
            faction: None,
            first_instance_free: false,
            point_cost: 20,
            size: Size { x: 3, y: 1, z: 3 },
            power: 0,
            crew: -8,
            reinforced: false,
            variant: None,
        },
        ComponentKey::Berthing => ComponentInfo {
            name: "Berthing",
            save_key: "Stock/Berthing",
            kind: ComponentKind::Compartment,
            faction: None,
            first_instance_free: true,
            point_cost: 1,
            size: Size { x: 1, y: 1, z: 1 },
            power: 0,
            crew: 3,
            reinforced: false,
            variant: Some(ComponentVariantInfo::Berthing),
        },
        ComponentKey::BoostedReactor => ComponentInfo {
            name: "Boosted Reactor",
            save_key: "Stock/Boosted Reactor",
            kind: ComponentKind::Module,
            faction: Some(Faction::Protectorate),
            first_instance_free: false,
            point_cost: 10,
            size: Size { x: 5, y: 5, z: 5 },
            power: 5000,
            crew: -10,
            reinforced: false,
            variant: None,
        },
        ComponentKey::BulkMagazine => ComponentInfo {
            name: "Bulk Magazine",
            save_key: "Stock/Bulk Magazine",
            kind: ComponentKind::Compartment,
            faction: None,
            first_instance_free: true,
            point_cost: 1,
            size: Size { x: 1, y: 1, z: 1 },
            power: 0,
            crew: 0,
            reinforced: false,
            variant: Some(ComponentVariantInfo::Magazine { available_volume: 15 }),
        },
        ComponentKey::BulwarkHuntress => ComponentInfo {
            name: "Bulwark Huntress",
            save_key: "Stock/Bulwark Huntress",
            kind: ComponentKind::Module,
            faction: Some(Faction::Protectorate),
            first_instance_free: false,
            point_cost: 20,
            size: Size { x: 2, y: 2, z: 2 },
            power: -2000,
            crew: 0,
            reinforced: false,
            variant: Some(ComponentVariantInfo::Sensor { sig_type: SigType::Radar, can_lock: false, can_burnthrough: true, directional: false }),
        },
        ComponentKey::C30Cannon => ComponentInfo {
            name: "C30 Cannon",
            save_key: "Stock/C30 Cannon",
            kind: ComponentKind::Mount,
            faction: Some(Faction::Protectorate),
            first_instance_free: false,
            point_cost: 15,
            size: Size { x: 2, y: 5, z: 2 },
            power: -100,
            crew: -10,
            reinforced: false,
            variant: Some(ComponentVariantInfo::WeaponProjectile { is_fixed: true, is_energy: false, integrated_fire_control: None, optical_backup: true, role: WeaponRole::Offensive, munition_family: MunitionFamily::BallisticChemical100mm, autoloader_capacity: Some(24usize) }),
        },
        ComponentKey::C53Cannon => ComponentInfo {
            name: "C53 Cannon",
            save_key: "Stock/C53 Cannon",
            kind: ComponentKind::Mount,
            faction: Some(Faction::Protectorate),
            first_instance_free: false,
            point_cost: 10,
            size: Size { x: 2, y: 4, z: 2 },
            power: -100,
            crew: -15,
            reinforced: false,
            variant: Some(ComponentVariantInfo::WeaponProjectile { is_fixed: true, is_energy: false, integrated_fire_control: None, optical_backup: true, role: WeaponRole::Offensive, munition_family: MunitionFamily::BallisticChemical250mm, autoloader_capacity: Some(8usize) }),
        },
        ComponentKey::C56Cannon => ComponentInfo {
            name: "C56 Cannon",
            save_key: "Stock/C54 Cannon",
            kind: ComponentKind::Mount,
            faction: Some(Faction::Protectorate),
            first_instance_free: false,
            point_cost: 20,
            size: Size { x: 4, y: 6, z: 4 },
            power: -100,
            crew: -15,
            reinforced: false,
            variant: Some(ComponentVariantInfo::WeaponProjectile { is_fixed: true, is_energy: false, integrated_fire_control: None, optical_backup: true, role: WeaponRole::Offensive, munition_family: MunitionFamily::BallisticChemical250mm, autoloader_capacity: Some(15usize) }),
        },
        ComponentKey::C65Cannon => ComponentInfo {
            name: "C65 Cannon",
            save_key: "Stock/C65 Cannon",
            kind: ComponentKind::Mount,
            faction: Some(Faction::Protectorate),
            first_instance_free: false,
            point_cost: 40,
            size: Size { x: 6, y: 10, z: 6 },
            power: -300,
            crew: -25,
            reinforced: false,
            variant: Some(ComponentVariantInfo::WeaponProjectile { is_fixed: true, is_energy: false, integrated_fire_control: None, optical_backup: true, role: WeaponRole::Offensive, munition_family: MunitionFamily::BallisticChemical450mm, autoloader_capacity: Some(8usize) }),
        },
        ComponentKey::C81PlasmaCannon => ComponentInfo {
            name: "C81 Plasma Cannon",
            save_key: "Stock/C81 Plasma Cannon",
            kind: ComponentKind::Mount,
            faction: Some(Faction::Protectorate),
            first_instance_free: false,
            point_cost: 30,
            size: Size { x: 4, y: 6, z: 4 },
            power: -1200,
            crew: -25,
            reinforced: false,
            variant: Some(ComponentVariantInfo::WeaponProjectile { is_fixed: true, is_energy: true, integrated_fire_control: None, optical_backup: true, role: WeaponRole::Offensive, munition_family: MunitionFamily::BallisticMagnetic400mmPlasma, autoloader_capacity: None }),
        },
        ComponentKey::C90Cannon => ComponentInfo {
            name: "C90 Cannon",
            save_key: "Stock/C90 Cannon",
            kind: ComponentKind::Mount,
            faction: Some(Faction::Protectorate),
            first_instance_free: false,
            point_cost: 40,
            size: Size { x: 6, y: 12, z: 6 },
            power: -200,
            crew: -25,
            reinforced: false,
            variant: Some(ComponentVariantInfo::WeaponProjectile { is_fixed: true, is_energy: false, integrated_fire_control: None, optical_backup: true, role: WeaponRole::Offensive, munition_family: MunitionFamily::BallisticChemical600mm, autoloader_capacity: None }),
        },
        _ => {
            assert(false);
            ComponentInfo {
                name: "Actively Cooled Amplifiers",
                save_key: "Stock/Actively Cooled Amplifiers",
                kind: ComponentKind::Module,
                faction: None,
                first_instance_free: false,
                point_cost: 25,
                size: Size { x: 2, y: 2, z: 2 },
                power: -175,
                crew: 0,
                reinforced: false,
                variant: None,
            }
        },
    }
}

#[verifier::spinoff_prover]
fn info_part1(k: ComponentKey) -> (r: ComponentInfo)
    requires
        k == ComponentKey::CHI7700Drive || k == ComponentKey::CHI777YardDrive || k == ComponentKey::CHI9100LongHaulDrive || k == ComponentKey::CLS3Launcher || k == ComponentKey::CR10Antenna || k == ComponentKey::CR70Antenna || k == ComponentKey::CitadelCIC || k == ComponentKey::CitadelMagazine || k == ComponentKey::CivilianReactor || k == ComponentKey::ContainerBankLauncher || k == ComponentKey::ContainerStackLauncher || k == ComponentKey::DamageControlCentral || k == ComponentKey::DamageControlComplex || k == ComponentKey::E15MasqueradeDeceptionModule || k == ComponentKey::E20LighthouseIlluminator || k == ComponentKey::E55SpotlightIlluminator || k == ComponentKey::E57FloodlightIlluminator || k == ComponentKey::E70InterruptionJammer || k == ComponentKey::E71HangupJammer || k == ComponentKey::E90BlanketJammer || k == ComponentKey::ES22PinardElectronicSupportModule || k == ComponentKey::ES32ScryerMissileIDSystem,
    ensures
        r == k.spec_info(),
{
    match k {
        ComponentKey::CHI7700Drive => ComponentInfo {
            name: "CHI-7700 Drive",
            save_key: "Stock/CHI-7700 Drive",
            kind: ComponentKind::Module,
            faction: Some(Faction::Protectorate),
            first_instance_free: false,
            point_cost: 20,
            size: Size { x: 12, y: 12, z: 12 },
            power: 300,
            crew: -10,
            reinforced: false,
            variant: None,
        },
        ComponentKey::CHI777YardDrive => ComponentInfo {
            name: "CHI-777 Yard Drive",
            save_key: "Stock/CHI-777 Yard Drive",
            kind: ComponentKind::Module,
            faction: Some(Faction::Protectorate),
            first_instance_free: false,
            point_cost: 20,
            size: Size { x: 5, y: 3, z: 5 },
            power: 300,
            crew: -10,
            reinforced: false,
            variant: None,
        },
        ComponentKey::CHI9100LongHaulDrive => ComponentInfo {
            name: "CHI-9100 Long Haul Drive",
            save_key: "Stock/CHI-9100 Long Haul Drive",
            kind: ComponentKind::Module,
            faction: Some(Faction::Protectorate),
            first_instance_free: false,
            point_cost: 20,
            size: Size { x: 12, y: 12, z: 12 },
            power: 300,
            crew: -10,
            reinforced: false,
            variant: None,
        },
        ComponentKey::CLS3Launcher => ComponentInfo {
            name: "CLS-3 Launcher",
            save_key: "Stock/CLS-3 Launcher",
            kind: ComponentKind::Mount,
            faction: Some(Faction::Alliance),
            first_instance_free: false,
            point_cost: 20,
            size: Size { x: 3, y: 4, z: 3 },
            power: -200,
            crew: 0,
            reinforced: false,
            variant: Some(ComponentVariantInfo::WeaponMissileBank { is_fixed: true, integrated_fire_control: None, optical_backup: false, role: WeaponRole::Offensive, munition_family: MunitionFamily::StandardMissile, missile_size: MissileSize::Size3, cells: MissileLauncherCells::Function { count_per_group: 2, groups: CellGroups::Cls3 } }),
        },
        ComponentKey::CR10Antenna => ComponentInfo {
            name: "CR10 Antenna",
            save_key: "Stock/CR10 Antenna",
            kind: ComponentKind::Mount,
            faction: None,
            first_instance_free: false,
            point_cost: 5,
            size: Size { x: 2, y: 1, z: 2 },
            power: -250,
            crew: 0,
            reinforced: false,
            variant: Some(ComponentVariantInfo::Antenna),
        },
        ComponentKey::CR70Antenna => ComponentInfo {
            name: "CR70 Antenna",
            save_key: "Stock/CR70 Antenna",
            kind: ComponentKind::Mount,
            faction: Some(Faction::Alliance),
            first_instance_free: false,
            point_cost: 15,
            size: Size { x: 2, y: 1, z: 2 },
            power: -600,
            crew: 0,
            reinforced: false,
            variant: Some(ComponentVariantInfo::Antenna),
        },
        ComponentKey::CitadelCIC => ComponentInfo {
            name: "Citadel CIC",
            save_key: "Stock/Citadel CIC",
            kind: ComponentKind::Compartment,
            faction: None,
            first_instance_free: false,
            point_cost: 75,
            size: Size { x: 6, y: 1, z: 8 },
            power: 0,
            crew: -40,
            reinforced: true,
            variant: Some(ComponentVariantInfo::Command { work_on_remote_tracks: false }),
        },
        ComponentKey::CitadelMagazine => ComponentInfo {
            name: "Citadel Magazine",
            save_key: "Stock/Citadel Magazine",
            kind: ComponentKind::Compartment,
            faction: Some(Faction::Protectorate),
            first_instance_free: true,
            point_cost: 8,
            size: Size { x: 1, y: 3, z: 1 },
            power: -10,
            crew: 0,
            reinforced: true,
            variant: Some(ComponentVariantInfo::Magazine { available_volume: 10 }),
        },
        ComponentKey::CivilianReactor => ComponentInfo {
            name: "Civilian Reactor",
            save_key: "Stock/Civilian Reactor",
            kind: ComponentKind::Module,
            faction: Some(Faction::Protectorate),
            first_instance_free: false,
            point_cost: 10,
            size: Size { x: 5, y: 5, z: 5 },
            power: 3650,
            crew: -10,
            reinforced: false,
            variant: None,
        },
        ComponentKey::ContainerBankLauncher => ComponentInfo {
            name: "Container Bank Launcher",
            save_key: "Stock/Container Bank Launcher",
            kind: ComponentKind::Mount,
            faction: Some(Faction::Protectorate),
            first_instance_free: false,
            point_cost: 5,
            size: Size { x: 20, y: 5, z: 10 },
            power: -200,
            crew: 0,
            reinforced: false,
            variant: Some(ComponentVariantInfo::WeaponMissileBank { is_fixed: true, integrated_fire_control: None, optical_backup: false, role: WeaponRole::Offensive, munition_family: MunitionFamily::ContainerMissile, missile_size: MissileSize::Size3, cells: MissileLauncherCells::Tiling { count_per_group: 24, separated_groups: true } }),
        },
        ComponentKey::ContainerStackLauncher => ComponentInfo {
            name: "Container Stack Launcher",
            save_key: "Stock/Container Stack Launcher",
            kind: ComponentKind::Mount,
            faction: Some(Faction::Protectorate),
            first_instance_free: false,
            point_cost: 5,
            size: Size { x: 6, y: 1, z: 6 },
            power: -50,
            crew: 0,
            reinforced: false,
            variant: Some(ComponentVariantInfo::WeaponMissileBank { is_fixed: true, integrated_fire_control: None, optical_backup: false, role: WeaponRole::Offensive, munition_family: MunitionFamily::ContainerMissile, missile_size: MissileSize::Size3, cells: MissileLauncherCells::Constant { count: 2 } }),
        },
        ComponentKey::DamageControlCentral => ComponentInfo {
            name: "Damage Control Central",
            save_key: "Stock/Damage Control Central",
            kind: ComponentKind::Compartment,
            faction: None,
            first_instance_free: false,
            point_cost: 20,
            size: Size { x: 3, y: 1, z: 3 },
            power: -50,
            crew: -10,
            reinforced: false,
            variant: None,
        },
        ComponentKey::DamageControlComplex => ComponentInfo {
            name: "Damage Control Complex",
            save_key: "Stock/Damage Control Complex",
            kind: ComponentKind::Compartment,
            faction: Some(Faction::Protectorate),
            first_instance_free: false,
            point_cost: 80,
            size: Size { x: 6, y: 3, z: 6 },
            power: 0,
            crew: -50,
            reinforced: true,
            variant: Some(ComponentVariantInfo::DamageControl { teams: 3, restores: 2 }),
        },
        ComponentKey::E15MasqueradeDeceptionModule => ComponentInfo {
            name: "E15 'Masquerade' Deception Module",
            save_key: "Stock/E15 'Masquerade' Signature Booster",
            kind: ComponentKind::Mount,
            faction: Some(Faction::Alliance),
            first_instance_free: false,
            point_cost: 20,
            size: Size { x: 3, y: 1, z: 3 },
            power: -600,
            crew: 0,
            reinforced: false,
            variant: None,
        },
        ComponentKey::E20LighthouseIlluminator => ComponentInfo {
            name: "E20 'Lighthouse' Illuminator",
            save_key: "Stock/E20 'Lighthouse' Illuminator",
            kind: ComponentKind::Mount,
            faction: Some(Faction::Protectorate),
            first_instance_free: false,
            point_cost: 15,
            size: Size { x: 2, y: 1, z: 2 },
            power: -600,
            crew: 0,
            reinforced: false,
            variant: Some(ComponentVariantInfo::Illuminator { battleshort_available: true }),
        },
        ComponentKey::E55SpotlightIlluminator => ComponentInfo {
            name: "E55 'Spotlight' Illuminator",
            save_key: "Stock/E55 'Spotlight' Illuminator",
            kind: ComponentKind::Mount,
            faction: Some(Faction::Alliance),
            first_instance_free: false,
            point_cost: 15,
            size: Size { x: 2, y: 1, z: 2 },
            power: -750,
            crew: 0,
            reinforced: false,
            variant: Some(ComponentVariantInfo::Illuminator { battleshort_available: true }),
        },
        ComponentKey::E57FloodlightIlluminator => ComponentInfo {
            name: "E57 'Floodlight' Illuminator",
            save_key: "Stock/E57 'Floodlight' Illuminator",
            kind: ComponentKind::Mount,
            faction: Some(Faction::Alliance),
            first_instance_free: false,
            point_cost: 15,
            size: Size { x: 2, y: 1, z: 2 },
            power: -1500,
            crew: 0,
            reinforced: false,
            variant: Some(ComponentVariantInfo::Illuminator { battleshort_available: true }),
        },
        ComponentKey::E70InterruptionJammer => ComponentInfo {
            name: "E70 'Interruption' Jammer",
            save_key: "Stock/E70 'Interruption' Jammer",
            kind: ComponentKind::Mount,
            faction: Some(Faction::Alliance),
            first_instance_free: false,
            point_cost: 55,
            size: Size { x: 3, y: 1, z: 3 },
            power: -600,
            crew: 0,
            reinforced: false,
            variant: Some(ComponentVariantInfo::Jammer { sig_type: SigType::Comms, battleshort_available: true, directional: false }),
        },
        ComponentKey::E71HangupJammer => ComponentInfo {
            name: "E71 'Hangup' Jammer",
            save_key: "Stock/E71 'Hangup' Jammer",
            kind: ComponentKind::Mount,
            faction: Some(Faction::Alliance),
            first_instance_free: false,
            point_cost: 45,
            size: Size { x: 2, y: 1, z: 2 },
            power: -500,
            crew: 0,
            reinforced: false,
            variant: Some(ComponentVariantInfo::Jammer { sig_type: SigType::Comms, battleshort_available: true, directional: true }),
        },
        ComponentKey::E90BlanketJammer => ComponentInfo {
            name: "E90 'Blanket' Jammer",
            save_key: "Stock/E90 'Blanket' Jammer",
            kind: ComponentKind::Mount,
            faction: Some(Faction::Alliance),
            first_instance_free: false,
            point_cost: 50,
            size: Size { x: 2, y: 1, z: 2 },
            power: -1000,
            crew: 0,
            reinforced: false,
            variant: Some(ComponentVariantInfo::Jammer { sig_type: SigType::Radar, battleshort_available: true, directional: true }),
        },
        ComponentKey::ES22PinardElectronicSupportModule => ComponentInfo {
            name: "ES22 'Pinard' Electronic Support Module",
            save_key: "Stock/ES22 'Pinard' Electronic Support Module",
            kind: ComponentKind::Mount,
            faction: Some(Faction::Alliance),
            first_instance_free: false,
            point_cost: 30,
            size: Size { x: 3, y: 1, z: 3 },
            power: -200,
            crew: 0,
            reinforced: false,
            variant: Some(ComponentVariantInfo::SensorPassive),
        },
        ComponentKey::ES32ScryerMissileIDSystem => ComponentInfo {
            name: "ES32 'Scryer' Missile ID System",
            save_key: "Stock/ES32 'Scryer' Missile ID System",
            kind: ComponentKind::Module,
            faction: None,
            first_instance_free: false,
            point_cost: 10,
            size: Size { x: 2, y: 2, z: 2 },
            power: -300,
            crew: 0,
            reinforced: false,
            variant: Some(ComponentVariantInfo::Intelligence { work_on_remote_tracks: false }),
        },
        _ => {
            assert(false);
            ComponentInfo {
                name: "CHI-7700 Drive",
                save_key: "Stock/CHI-7700 Drive",
                kind: ComponentKind::Module,
                faction: Some(Faction::Protectorate),
                first_instance_free: false,
                point_cost: 20,
                size: Size { x: 12, y: 12, z: 12 },
                power: 300,
                crew: -10,
                reinforced: false,
                variant: None,
            }
        },
    }
}

#[verifier::spinoff_prover]
fn info_part2(k: ComponentKey) -> (r: ComponentInfo)
    requires
        k == ComponentKey::EnergyRegulator || k == ComponentKey::FM200Drive || k == ComponentKey::FM200RDrive || k == ComponentKey::FM230WhiplashDrive || k == ComponentKey::FM240DragonflyDrive || k == ComponentKey::FM280RaiderDrive || k == ComponentKey::FM30XProwlerDrive || k == ComponentKey::FM500Drive || k == ComponentKey::FM500RDrive || k == ComponentKey::FM530WhiplashDrive || k == ComponentKey::FM540DragonflyDrive || k == ComponentKey::FM580RaiderDrive || k == ComponentKey::FR3300MicroReactor || k == ComponentKey::FR4800Reactor || k == ComponentKey::FocusedParticleAccelerator || k == ComponentKey::GunPlottingCenter || k == ComponentKey::IntelligenceCenter || k == ComponentKey::IthacaBridgemaster || k == ComponentKey::J15BellbirdJammer || k == ComponentKey::J360LyrebirdJammer || k == ComponentKey::JuryRiggedReactor || k == ComponentKey::L50BlackjackLaserDazzler,
    ensures
        r == k.spec_info(),
{
    match k {
        ComponentKey::EnergyRegulator => ComponentInfo {
            name: "Energy Regulator",
            save_key: "Stock/Energy Regulator",
            kind: ComponentKind::Module,
            faction: None,
            first_instance_free: false,
            point_cost: 30,
            size: Size { x: 3, y: 3, z: 3 },
            power: -650,
            crew: 0,
            reinforced: false,
            variant: None,
        },
        ComponentKey::FM200Drive => ComponentInfo {
            name: "FM200 Drive",
            save_key: "Stock/FM200 Drive",
            kind: ComponentKind::Module,
            faction: Some(Faction::Alliance),
            first_instance_free: false,
            point_cost: 10,
            size: Size { x: 5, y: 3, z: 5 },
            power: 500,
            crew: -10,
            reinforced: false,
            variant: None,
        },
        ComponentKey::FM200RDrive => ComponentInfo {
            name: "FM200R Drive",
            save_key: "Stock/FM200R Drive",
            kind: ComponentKind::Module,
            faction: Some(Faction::Alliance),
            first_instance_free: false,
            point_cost: 20,
            size: Size { x: 5, y: 3, z: 5 },
            power: 500,
            crew: -10,
            reinforced: true,
            variant: None,
        },
        ComponentKey::FM230WhiplashDrive => ComponentInfo {
            name: "FM230 'Whiplash' Drive",
            save_key: "Stock/FM230 'Whiplash' Drive",
            kind: ComponentKind::Module,
            faction: Some(Faction::Alliance),
            first_instance_free: false,
            point_cost: 20,
            size: Size { x: 5, y: 3, z: 5 },
            power: 650,
            crew: -10,
            reinforced: false,
            variant: None,
        },
        ComponentKey::FM240DragonflyDrive => ComponentInfo {
            name: "FM240 'Dragonfly' Drive",
            save_key: "Stock/FM240 'Dragonfly' Drive",
            kind: ComponentKind::Module,
            faction: Some(Faction::Alliance),
            first_instance_free: false,
            point_cost: 20,
            size: Size { x: 5, y: 3, z: 5 },
            power: 500,
            crew: -10,
            reinforced: false,
            variant: None,
        },
        ComponentKey::FM280RaiderDrive => ComponentInfo {
            name: "FM280 'Raider' Drive",
            save_key: "Stock/FM280 'Raider' Drive",
            kind: ComponentKind::Module,
            faction: Some(Faction::Alliance),
            first_instance_free: false,
            point_cost: 20,
            size: Size { x: 5, y: 3, z: 5 },
            power: 0,
            crew: -10,
            reinforced: false,
            variant: None,
        },
        ComponentKey::FM30XProwlerDrive => ComponentInfo {
            name: "FM30X 'Prowler' Drive",
            save_key: "Stock/FM30X 'Prowler' Drive",
            kind: ComponentKind::Module,
            faction: Some(Faction::Alliance),
            first_instance_free: false,
            point_cost: 25,
            size: Size { x: 5, y: 3, z: 5 },
            power: 350,
            crew: -10,
            reinforced: false,
            variant: None,
        },
        ComponentKey::FM500Drive => ComponentInfo {
            name: "FM500 Drive",
            save_key: "Stock/FM500 Drive",
            kind: ComponentKind::Module,
            faction: Some(Faction::Alliance),
            first_instance_free: false,
            point_cost: 15,
            size: Size { x: 10, y: 8, z: 10 },
            power: 1000,
            crew: -10,
            reinforced: false,
            variant: None,
        },
        ComponentKey::FM500RDrive => ComponentInfo {
            name: "FM500R Drive",
            save_key: "Stock/FM500R Drive",
            kind: ComponentKind::Module,
            faction: Some(Faction::Alliance),
            first_instance_free: false,
            point_cost: 30,
            size: Size { x: 10, y: 8, z: 10 },
            power: 1000,
            crew: -10,
            reinforced: true,
            variant: None,
        },
        ComponentKey::FM530WhiplashDrive => ComponentInfo {
            name: "FM530 'Whiplash' Drive",
            save_key: "Stock/FM530 'Whiplash' Drive",
            kind: ComponentKind::Module,
            faction: Some(Faction::Alliance),
            first_instance_free: false,
            point_cost: 30,
            size: Size { x: 10, y: 8, z: 10 },
            power: 1500,
            crew: -10,
            reinforced: false,
            variant: None,
        },
        ComponentKey::FM540DragonflyDrive => ComponentInfo {
            name: "FM540 'Dragonfly' Drive",
            save_key: "Stock/FM540 'Dragonfly' Drive",
            kind: ComponentKind::Module,
            faction: Some(Faction::Alliance),
            first_instance_free: false,
            point_cost: 30,
            size: Size { x: 10, y: 8, z: 10 },
            power: 1000,
            crew: -10,
            reinforced: false,
            variant: None,
        },
        ComponentKey::FM580RaiderDrive => ComponentInfo {
            name: "FM580 'Raider' Drive",
            save_key: "Stock/FM580 'Raider' Drive",
            kind: ComponentKind::Module,
            faction: Some(Faction::Alliance),
            first_instance_free: false,
            point_cost: 30,
            size: Size { x: 10, y: 8, z: 10 },
            power: 500,
            crew: -10,
            reinforced: false,
            variant: None,
        },
        ComponentKey::FR3300MicroReactor => ComponentInfo {
            name: "FR3300 Micro Reactor",
            save_key: "Stock/FR3300 Micro Reactor",
            kind: ComponentKind::Module,
            faction: Some(Faction::Alliance),
            first_instance_free: false,
            point_cost: 10,
            size: Size { x: 3, y: 3, z: 3 },
            power: 2250,
            crew: -5,
            reinforced: false,
            variant: None,
        },
        ComponentKey::FR4800Reactor => ComponentInfo {
            name: "FR4800 Reactor",
            save_key: "Stock/FR4800 Reactor",
            kind: ComponentKind::Module,
            faction: Some(Faction::Alliance),
            first_instance_free: false,
            point_cost: 10,
            size: Size { x: 5, y: 5, z: 5 },
            power: 4200,
            crew: -10,
            reinforced: false,
            variant: None,
        },
        ComponentKey::FocusedParticleAccelerator => ComponentInfo {
            name: "Focused Particle Accelerator",
            save_key: "Stock/Focused Particle Accelerator",
            kind: ComponentKind::Module,
            faction: None,
            first_instance_free: false,
            point_cost: 25,
            size: Size { x: 3, y: 3, z: 3 },
            power: -800,
            crew: 0,
            reinforced: false,
            variant: None,
        },
        ComponentKey::GunPlottingCenter => ComponentInfo {
            name: "Gun Plotting Center",
            save_key: "Stock/Gun Plotting Center",
            kind: ComponentKind::Compartment,
            faction: None,
            first_instance_free: false,
            point_cost: 30,
            size: Size { x: 3, y: 1, z: 3 },
            power: -50,
            crew: -30,
            reinforced: false,
            variant: None,
        },
        ComponentKey::IntelligenceCenter => ComponentInfo {
            name: "Intelligence Center",
            save_key: "Stock/Intelligence Center",
            kind: ComponentKind::Compartment,
            faction: None,
            first_instance_free: false,
            point_cost: 90,
            size: Size { x: 6, y: 1, z: 8 },
            power: 0,
            crew: -45,
            reinforced: false,
            variant: Some(ComponentVariantInfo::Intelligence { work_on_remote_tracks: true }),
        },
        ComponentKey::IthacaBridgemaster => ComponentInfo {
            name: "Ithaca Bridgemaster",
            save_key: "Stock/Ithaca Bridgemaster",
            kind: ComponentKind::Module,
            faction: Some(Faction::Protectorate),
            first_instance_free: false,
            point_cost: 10,
            size: Size { x: 2, y: 2, z: 2 },
            power: -1200,
            crew: 0,
            reinforced: false,
            variant: Some(ComponentVariantInfo::Sensor { sig_type: SigType::Radar, can_lock: false, can_burnthrough: false, directional: false }),
        },
        ComponentKey::J15BellbirdJammer => ComponentInfo {
            name: "J15 'Bellbird' Jammer",
            save_key: "Stock/J15 Jammer",
            kind: ComponentKind::Mount,
            faction: Some(Faction::Protectorate),
            first_instance_free: false,
            point_cost: 50,
            size: Size { x: 3, y: 1, z: 3 },
            power: -850,
            crew: 0,
            reinforced: false,
            variant: Some(ComponentVariantInfo::Jammer { sig_type: SigType::Radar, battleshort_available: true, directional: true }),
        },
        ComponentKey::J360LyrebirdJammer => ComponentInfo {
            name: "J360 'Lyrebird' Jammer",
            save_key: "Stock/J360 Jammer",
            kind: ComponentKind::Mount,
            faction: Some(Faction::Protectorate),
            first_instance_free: false,
            point_cost: 75,
            size: Size { x: 3, y: 1, z: 3 },
            power: -500,
            crew: 0,
            reinforced: false,
            variant: Some(ComponentVariantInfo::Jammer { sig_type: SigType::Radar, battleshort_available: true, directional: false }),
        },
        ComponentKey::JuryRiggedReactor => ComponentInfo {
            name: "Jury-Rigged Reactor",
            save_key: "Stock/Jury-Rigged Reactor",
            kind: ComponentKind::Compartment,
            faction: Some(Faction::Protectorate),
            first_instance_free: false,
            point_cost: 20,
            size: Size { x: 6, y: 3, z: 6 },
            power: 500,
            crew: -30,
            reinforced: false,
            variant: None,
        },
        ComponentKey::L50BlackjackLaserDazzler => ComponentInfo {
            name: "L50 'Blackjack' Laser Dazzler",
            save_key: "Stock/L50 Laser Dazzler",
            kind: ComponentKind::Mount,
            faction: Some(Faction::Protectorate),
            first_instance_free: false,
            point_cost: 40,
            size: Size { x: 2, y: 1, z: 2 },
            power: -750,
            crew: 0,
            reinforced: false,
            variant: Some(ComponentVariantInfo::Jammer { sig_type: SigType::Radar, battleshort_available: true, directional: true }),
        },
        _ => {
            assert(false);
            ComponentInfo {
                name: "Energy Regulator",
                save_key: "Stock/Energy Regulator",
                kind: ComponentKind::Module,
                faction: None,
                first_instance_free: false,
                point_cost: 30,
                size: Size { x: 3, y: 3, z: 3 },
                power: -650,
                crew: 0,
                reinforced: false,
                variant: None,
            }
        },
    }
}

#[verifier::spinoff_prover]
fn info_part3(k: ComponentKey) -> (r: ComponentInfo)
    requires
        k == ComponentKey::LargeDCLocker || k == ComponentKey::LargeDCStorage || k == ComponentKey::LauncherDelugeSystem || k == ComponentKey::LightCivilianReactor || k == ComponentKey::ML9MineLauncher || k == ComponentKey::MLS2Launcher || k == ComponentKey::MLS3Launcher || k == ComponentKey::MagazineSprinklers || k == ComponentKey::MissileParallelInterface || k == ComponentKey::MissileProgrammingBus || k == ComponentKey::MissileProgrammingBusArray || k == ComponentKey::Mk20DefenderPDT || k == ComponentKey::Mk25ReboundPDT || k == ComponentKey::Mk29StonewallPDT || k == ComponentKey::Mk550Railgun || k == ComponentKey::Mk600BeamCannon || k == ComponentKey::Mk610BeamTurret || k == ComponentKey::Mk61Cannon || k == ComponentKey::Mk62Cannon || k == ComponentKey::Mk64Cannon || k == ComponentKey::Mk65Cannon || k == ComponentKey::Mk66Cannon,
    ensures
        r == k.spec_info(),
{
    match k {
        ComponentKey::LargeDCLocker => ComponentInfo {
            name: "Large DC Locker",
            save_key: "Stock/Large DC Locker",
            kind: ComponentKind::Compartment,
            faction: None,
            first_instance_free: false,
            point_cost: 45,
            size: Size { x: 3, y: 1, z: 6 },
            power: 0,
            crew: -15,
            reinforced: false,
            variant: Some(ComponentVariantInfo::DamageControl { teams: 3, restores: 2 }),
        },
        ComponentKey::LargeDCStorage => ComponentInfo {
            name: "Large DC Storage",
            save_key: "Stock/Large DC Storage",
            kind: ComponentKind::Compartment,
            faction: Some(Faction::Protectorate),
            first_instance_free: false,
            point_cost: 45,
            size: Size { x: 6, y: 3, z: 6 },
            power: 0,
            crew: -5,
            reinforced: false,
            variant: Some(ComponentVariantInfo::DamageControl { teams: 1, restores: 4 }),
        },
        ComponentKey::LauncherDelugeSystem => ComponentInfo {
            name: "Launcher Deluge System",
            save_key: "Stock/Launcher Deluge System",
            kind: ComponentKind::Module,
            faction: None,
            first_instance_free: false,
            point_cost: 15,
            size: Size { x: 2, y: 2, z: 2 },
            power: -100,
            crew: 0,
            reinforced: false,
            variant: None,
        },
        ComponentKey::LightCivilianReactor => ComponentInfo {
            name: "Light Civilian Reactor",
            save_key: "Stock/Light Civilian Reactor",
            kind: ComponentKind::Module,
            faction: Some(Faction::Protectorate),
            first_instance_free: false,
            point_cost: 10,
            size: Size { x: 3, y: 3, z: 3 },
            power: 1850,
            crew: -5,
            reinforced: false,
            variant: None,
        },
        ComponentKey::ML9MineLauncher => ComponentInfo {
            name: "ML-9 Mine Launcher",
            save_key: "Stock/ML-9 Mine Launcher",
            kind: ComponentKind::Mount,
            faction: Some(Faction::Protectorate),
            first_instance_free: false,
            point_cost: 10,
            size: Size { x: 3, y: 2, z: 3 },
            power: -100,
            crew: -10,
            reinforced: false,
            variant: None,
        },
        ComponentKey::MLS2Launcher => ComponentInfo {
            name: "MLS-2 Launcher",
            save_key: "Stock/MLS-2 Launcher",
            kind: ComponentKind::Mount,
            faction: Some(Faction::Protectorate),
            first_instance_free: false,
            point_cost: 20,
            size: Size { x: 2, y: 2, z: 5 },
            power: -50,
            crew: -10,
            reinforced: false,
            variant: Some(ComponentVariantInfo::WeaponMissileLauncher { integrated_fire_control: None, optical_backup: false, role: WeaponRole::Offensive, munition_family: MunitionFamily::StandardMissile, missile_size: MissileSize::Size2 }),
        },
        ComponentKey::MLS3Launcher => ComponentInfo {
            name: "MLS-3 Launcher",
            save_key: "Stock/MLS-3 Launcher",
            kind: ComponentKind::Mount,
            faction: Some(Faction::Protectorate),
            first_instance_free: false,
            point_cost: 20,
            size: Size { x: 2, y: 2, z: 5 },
            power: -50,
            crew: -12,
            reinforced: false,
            variant: Some(ComponentVariantInfo::WeaponMissileLauncher { integrated_fire_control: None, optical_backup: false, role: WeaponRole::Offensive, munition_family: MunitionFamily::StandardMissile, missile_size: MissileSize::Size3 }),
        },
        ComponentKey::MagazineSprinklers => ComponentInfo {
            name: "Magazine Sprinklers",
            save_key: "Stock/Magazine Sprinklers",
            kind: ComponentKind::Module,
            faction: None,
            first_instance_free: false,
            point_cost: 15,
            size: Size { x: 2, y: 2, z: 2 },
            power: -100,
            crew: 0,
            reinforced: false,
            variant: None,
        },
        ComponentKey::MissileParallelInterface => ComponentInfo {
            name: "Missile Parallel Interface",
            save_key: "Stock/Missile Parallel Interface",
            kind: ComponentKind::Module,
            faction: None,
            first_instance_free: false,
            point_cost: 40,
            size: Size { x: 2, y: 2, z: 2 },
            power: -150,
            crew: 0,
            reinforced: false,
            variant: None,
        },
        ComponentKey::MissileProgrammingBus => ComponentInfo {
            name: "Missile Programming Bus",
            save_key: "Stock/Missile Programming Bus",
            kind: ComponentKind::Module,
            faction: None,
            first_instance_free: false,
            point_cost: 30,
            size: Size { x: 2, y: 2, z: 2 },
            power: -200,
            crew: 0,
            reinforced: false,
            variant: None,
        },
        ComponentKey::MissileProgrammingBusArray => ComponentInfo {
            name: "Missile Programming Bus Array",
            save_key: "Stock/Missile Programming Bus Array",
            kind: ComponentKind::Module,
            faction: None,
            first_instance_free: false,
            point_cost: 50,
            size: Size { x: 3, y: 3, z: 3 },
            power: -350,
            crew: 0,
            reinforced: false,
            variant: None,
        },
        ComponentKey::Mk20DefenderPDT => ComponentInfo {
            name: "Mk20 'Defender' PDT",
            save_key: "Stock/Mk20 'Defender' PDT",
            kind: ComponentKind::Mount,
            faction: Some(Faction::Alliance),
            first_instance_free: false,
            point_cost: 20,
            size: Size { x: 2, y: 1, z: 2 },
            power: -175,
            crew: -3,
            reinforced: false,
            variant: Some(ComponentVariantInfo::WeaponProjectile { is_fixed: false, is_energy: false, integrated_fire_control: Some(SigType::Radar), optical_backup: false, role: WeaponRole::Defensive, munition_family: MunitionFamily::BallisticChemical20mm, autoloader_capacity: None }),
        },
        ComponentKey::Mk25ReboundPDT => ComponentInfo {
            name: "Mk25 'Rebound' PDT",
            save_key: "Stock/Mk25 'Rebound' PDT",
            kind: ComponentKind::Mount,
            faction: Some(Faction::Alliance),
            first_instance_free: false,
            point_cost: 15,
            size: Size { x: 2, y: 1, z: 2 },
            power: -20,
            crew: -3,
            reinforced: false,
            variant: Some(ComponentVariantInfo::WeaponProjectile { is_fixed: false, is_energy: false, integrated_fire_control: None, optical_backup: true, role: WeaponRole::Defensive, munition_family: MunitionFamily::BallisticChemical50mmFlak, autoloader_capacity: Some(15usize) }),
        },
        ComponentKey::Mk29StonewallPDT => ComponentInfo {
            name: "Mk29 'Stonewall' PDT",
            save_key: "Stock/Mk29 'Stonewall' PDT",
            kind: ComponentKind::Mount,
            faction: Some(Faction::Alliance),
            first_instance_free: false,
            point_cost: 40,
            size: Size { x: 3, y: 1, z: 3 },
            power: -40,
            crew: -5,
            reinforced: false,
            variant: Some(ComponentVariantInfo::WeaponProjectile { is_fixed: false, is_energy: false, integrated_fire_control: None, optical_backup: true, role: WeaponRole::Defensive, munition_family: MunitionFamily::BallisticChemical50mmFlak, autoloader_capacity: Some(16usize) }),
        },
        ComponentKey::Mk550Railgun => ComponentInfo {
            name: "Mk550 Railgun",
            save_key: "Stock/Mk550 Mass Driver",
            kind: ComponentKind::Mount,
            faction: Some(Faction::Alliance),
            first_instance_free: false,
            point_cost: 75,
            size: Size { x: 4, y: 12, z: 4 },
            power: -2000,
            crew: -15,
            reinforced: false,
            variant: Some(ComponentVariantInfo::WeaponProjectile { is_fixed: true, is_energy: true, integrated_fire_control: None, optical_backup: true, role: WeaponRole::Offensive, munition_family: MunitionFamily::BallisticMagnetic300mmRailgun, autoloader_capacity: None }),
        },
        ComponentKey::Mk600BeamCannon => ComponentInfo {
            name: "Mk600 Beam Cannon",
            save_key: "Stock/Mk600 Beam Cannon",
            kind: ComponentKind::Mount,
            faction: Some(Faction::Alliance),
            first_instance_free: false,
            point_cost: 75,
            size: Size { x: 4, y: 12, z: 4 },
            power: -3000,
            crew: -15,
            reinforced: false,
            variant: Some(ComponentVariantInfo::WeaponBeam { is_fixed: true, is_energy: true, integrated_fire_control: None, optical_backup: true, role: WeaponRole::Offensive, battleshort_available: true }),
        },
        ComponentKey::Mk610BeamTurret => ComponentInfo {
            name: "Mk610 Beam Turret",
            save_key: "Stock/Mk610 Beam Turret",
            kind: ComponentKind::Mount,
            faction: Some(Faction::Alliance),
            first_instance_free: false,
            point_cost: 80,
            size: Size { x: 8, y: 5, z: 8 },
            power: -3000,
            crew: -20,
            reinforced: false,
            variant: Some(ComponentVariantInfo::WeaponBeam { is_fixed: false, is_energy: true, integrated_fire_control: None, optical_backup: true, role: WeaponRole::Offensive, battleshort_available: true }),
        },
        ComponentKey::Mk61Cannon => ComponentInfo {
            name: "Mk61 Cannon",
            save_key: "Stock/Mk61 Cannon",
            kind: ComponentKind::Mount,
            faction: Some(Faction::Alliance),
            first_instance_free: false,
            point_cost: 10,
            size: Size { x: 3, y: 1, z: 3 },
            power: -50,
            crew: -4,
            reinforced: false,
            variant: Some(ComponentVariantInfo::WeaponProjectile { is_fixed: false, is_energy: false, integrated_fire_control: None, optical_backup: true, role: WeaponRole::DualPurpose, munition_family: MunitionFamily::BallisticChemical120mm, autoloader_capacity: None }),
        },
        ComponentKey::Mk62Cannon => ComponentInfo {
            name: "Mk62 Cannon",
            save_key: "Stock/Mk62 Cannon",
            kind: ComponentKind::Mount,
            faction: Some(Faction::Alliance),
            first_instance_free: false,
            point_cost: 20,
            size: Size { x: 3, y: 1, z: 3 },
            power: -50,
            crew: -8,
            reinforced: false,
            variant: Some(ComponentVariantInfo::WeaponProjectile { is_fixed: false, is_energy: false, integrated_fire_control: None, optical_backup: true, role: WeaponRole::DualPurpose, munition_family: MunitionFamily::BallisticChemical120mm, autoloader_capacity: None }),
        },
        ComponentKey::Mk64Cannon => ComponentInfo {
            name: "Mk64 Cannon",
            save_key: "Stock/Mk64 Cannon",
            kind: ComponentKind::Mount,
            faction: Some(Faction::Alliance),
            first_instance_free: false,
            point_cost: 30,
            size: Size { x: 3, y: 1, z: 5 },
            power: -125,
            crew: -15,
            reinforced: false,
            variant: Some(ComponentVariantInfo::WeaponProjectile { is_fixed: false, is_energy: false, integrated_fire_control: None, optical_backup: true, role: WeaponRole::DualPurpose, munition_family: MunitionFamily::BallisticChemical250mm, autoloader_capacity: None }),
        },
        ComponentKey::Mk65Cannon => ComponentInfo {
            name: "Mk65 Cannon",
            save_key: "Stock/Mk65 Cannon",
            kind: ComponentKind::Mount,
            faction: Some(Faction::Alliance),
            first_instance_free: false,
            point_cost: 40,
            size: Size { x: 6, y: 3, z: 6 },
            power: -180,
            crew: -25,
            reinforced: false,
            variant: Some(ComponentVariantInfo::WeaponProjectile { is_fixed: false, is_energy: false, integrated_fire_control: None, optical_backup: true, role: WeaponRole::Offensive, munition_family: MunitionFamily::BallisticChemical250mm, autoloader_capacity: Some(3usize) }),
        },
        ComponentKey::Mk66Cannon => ComponentInfo {
            name: "Mk66 Cannon",
            save_key: "Stock/Mk66 Cannon",
            kind: ComponentKind::Mount,
            faction: Some(Faction::Alliance),
            first_instance_free: false,
            point_cost: 45,
            size: Size { x: 6, y: 3, z: 6 },
            power: -200,
            crew: -25,
            reinforced: false,
            variant: Some(ComponentVariantInfo::WeaponProjectile { is_fixed: false, is_energy: false, integrated_fire_control: None, optical_backup: true, role: WeaponRole::Offensive, munition_family: MunitionFamily::BallisticChemical450mm, autoloader_capacity: Some(2usize) }),
        },
        _ => {
            assert(false);
            ComponentInfo {
                name: "Large DC Locker",
                save_key: "Stock/Large DC Locker",
                kind: ComponentKind::Compartment,
                faction: None,
                first_instance_free: false,
                point_cost: 45,
                size: Size { x: 3, y: 1, z: 6 },
                power: 0,
                crew: -15,
                reinforced: false,
                variant: Some(ComponentVariantInfo::DamageControl { teams: 3, restores: 2 }),
            }
        },
    }
}

#[verifier::spinoff_prover]
fn info_part4(k: ComponentKey) -> (r: ComponentInfo)
    requires
        k == ComponentKey::Mk68Cannon || k == ComponentKey::Mk81Railgun || k == ComponentKey::Mk90AuroraPDT || k == ComponentKey::Mk95SarissaPDT || k == ComponentKey::MountGyros || k == ComponentKey::P11PavisePDT || k == ComponentKey::P20BastionPDT || k == ComponentKey::P60GrazerPDT || k == ComponentKey::PlantControlCenter || k == ComponentKey::R400BloodhoundLRTRadar || k == ComponentKey::R550EarlyWarningRadar || k == ComponentKey::RF101BullseyeRadar || k == ComponentKey::RF44PinpointRadar || k == ComponentKey::RL18Launcher || k == ComponentKey::RL36Launcher || k == ComponentKey::RM50ParallaxRadar || k == ComponentKey::RS35FrontlineRadar || k == ComponentKey::RS41SpyglassRadar || k == ComponentKey::RapidCycleCradle || k == ComponentKey::RapidDCLocker || k == ComponentKey::RedundantReactorFailsafes || k == ComponentKey::ReinforcedCIC,
    ensures
        r == k.spec_info(),
{
    match k {
        ComponentKey::Mk68Cannon => ComponentInfo {
            name: "Mk68 Cannon",
            save_key: "Stock/Mk68 Cannon",
            kind: ComponentKind::Mount,
            faction: Some(Faction::Alliance),
            first_instance_free: false,
            point_cost: 75,
            size: Size { x: 8, y: 5, z: 8 },
            power: -225,
            crew: -40,
            reinforced: false,
            variant: Some(ComponentVariantInfo::WeaponProjectile { is_fixed: false, is_energy: false, integrated_fire_control: None, optical_backup: true, role: WeaponRole::Offensive, munition_family: MunitionFamily::BallisticChemical450mm, autoloader_capacity: Some(3usize) }),
        },
        ComponentKey::Mk81Railgun => ComponentInfo {
            name: "Mk81 Railgun",
            save_key: "Stock/Mk81 Railgun",
            kind: ComponentKind::Mount,
            faction: Some(Faction::Alliance),
            first_instance_free: false,
            point_cost: 50,
            size: Size { x: 6, y: 3, z: 6 },
            power: -1500,
            crew: -15,
            reinforced: false,
            variant: Some(ComponentVariantInfo::WeaponProjectile { is_fixed: false, is_energy: true, integrated_fire_control: None, optical_backup: true, role: WeaponRole::Offensive, munition_family: MunitionFamily::BallisticMagnetic300mmRailgun, autoloader_capacity: None }),
        },
        ComponentKey::Mk90AuroraPDT => ComponentInfo {
            name: "Mk90 'Aurora' PDT",
            save_key: "Stock/Mk90 'Aurora' PDT",
            kind: ComponentKind::Mount,
            faction: Some(Faction::Alliance),
            first_instance_free: false,
            point_cost: 55,
            size: Size { x: 2, y: 1, z: 2 },
            power: -1250,
            crew: 0,
            reinforced: false,
            variant: Some(ComponentVariantInfo::WeaponBeam { is_fixed: false, is_energy: true, integrated_fire_control: Some(SigType::Radar), optical_backup: false, role: WeaponRole::Defensive, battleshort_available: true }),
        },
        ComponentKey::Mk95SarissaPDT => ComponentInfo {
            name: "Mk95 'Sarissa' PDT",
            save_key: "Stock/Mk95 'Sarissa' PDT",
            kind: ComponentKind::Mount,
            faction: Some(Faction::Alliance),
            first_instance_free: false,
            point_cost: 65,
            size: Size { x: 3, y: 1, z: 3 },
            power: -1250,
            crew: -4,
            reinforced: false,
            variant: Some(ComponentVariantInfo::WeaponProjectile { is_fixed: false, is_energy: true, integrated_fire_control: Some(SigType::Radar), optical_backup: true, role: WeaponRole::Defensive, munition_family: MunitionFamily::BallisticMagnetic15mm, autoloader_capacity: Some(3usize) }),
        },
        ComponentKey::MountGyros => ComponentInfo {
            name: "Mount Gyros",
            save_key: "Stock/Mount Gyros",
            kind: ComponentKind::Module,
            faction: None,
            first_instance_free: false,
            point_cost: 20,
            size: Size { x: 2, y: 2, z: 2 },
            power: -150,
            crew: 0,
            reinforced: false,
            variant: None,
        },
        ComponentKey::P11PavisePDT => ComponentInfo {
            name: "P11 'Pavise' PDT",
            save_key: "Stock/P11 PDT",
            kind: ComponentKind::Mount,
            faction: Some(Faction::Protectorate),
            first_instance_free: false,
            point_cost: 15,
            size: Size { x: 2, y: 1, z: 2 },
            power: -150,
            crew: -3,
            reinforced: false,
            variant: Some(ComponentVariantInfo::WeaponProjectile { is_fixed: false, is_energy: false, integrated_fire_control: Some(SigType::Radar), optical_backup: false, role: WeaponRole::Defensive, munition_family: MunitionFamily::BallisticChemical20mm, autoloader_capacity: None }),
        },
        ComponentKey::P20BastionPDT => ComponentInfo {
            name: "P20 'Bastion' PDT",
            save_key: "Stock/P20 Flak PDT",
            kind: ComponentKind::Mount,
            faction: Some(Faction::Protectorate),
            first_instance_free: false,
            point_cost: 15,
            size: Size { x: 2, y: 1, z: 2 },
            power: -40,
            crew: -5,
            reinforced: false,
            variant: Some(ComponentVariantInfo::WeaponProjectile { is_fixed: false, is_energy: false, integrated_fire_control: None, optical_backup: true, role: WeaponRole::Defensive, munition_family: MunitionFamily::BallisticChemical50mmFlak, autoloader_capacity: Some(100usize) }),
        },
        ComponentKey::P60GrazerPDT => ComponentInfo {
            name: "P60 'Grazer' PDT",
            save_key: "Stock/P60 Laser PDT",
            kind: ComponentKind::Mount,
            faction: Some(Faction::Protectorate),
            first_instance_free: false,
            point_cost: 35,
            size: Size { x: 2, y: 1, z: 2 },
            power: -1500,
            crew: 0,
            reinforced: false,
            variant: Some(ComponentVariantInfo::WeaponProjectile { is_fixed: false, is_energy: true, integrated_fire_control: Some(SigType::ElectroOptical), optical_backup: false, role: WeaponRole::Defensive, munition_family: MunitionFamily::Infinite, autoloader_capacity: None }),
        },
        ComponentKey::PlantControlCenter => ComponentInfo {
            name: "Plant Control Center",
            save_key: "Stock/Plant Control Center",
            kind: ComponentKind::Compartment,
            faction: None,
            first_instance_free: false,
            point_cost: 25,
            size: Size { x: 3, y: 1, z: 3 },
            power: 0,
            crew: -15,
            reinforced: false,
            variant: None,
        },
        ComponentKey::R400BloodhoundLRTRadar => ComponentInfo {
            name: "R400 'Bloodhound' LRT Radar",
            save_key: "Stock/R400 Radar",
            kind: ComponentKind::Mount,
            faction: Some(Faction::Protectorate),
            first_instance_free: false,
            point_cost: 40,
            size: Size { x: 2, y: 5, z: 2 },
            power: -3000,
            crew: 0,
            reinforced: false,
            variant: Some(ComponentVariantInfo::Sensor { sig_type: SigType::Radar, can_lock: false, can_burnthrough: false, directional: true }),
        },
        ComponentKey::R550EarlyWarningRadar => ComponentInfo {
            name: "R550 Early Warning Radar",
            save_key: "Stock/R550 Early Warning Radar",
            kind: ComponentKind::Mount,
            faction: Some(Faction::Protectorate),
            first_instance_free: false,
            point_cost: 65,
            size: Size { x: 3, y: 1, z: 3 },
            power: -4500,
            crew: 0,
            reinforced: false,
            variant: Some(ComponentVariantInfo::Sensor { sig_type: SigType::Radar, can_lock: false, can_burnthrough: false, directional: true }),
        },
        ComponentKey::RF101BullseyeRadar => ComponentInfo {
            name: "RF101 'Bullseye' Radar",
            save_key: "Stock/RF101 'Bullseye' Radar",
            kind: ComponentKind::Mount,
            faction: Some(Faction::Alliance),
            first_instance_free: false,
            point_cost: 40,
            size: Size { x: 2, y: 1, z: 2 },
            power: -300,
            crew: 0,
            reinforced: false,
            variant: None,
        },
        ComponentKey::RF44PinpointRadar => ComponentInfo {
            name: "RF44 'Pinpoint' Radar",
            save_key: "Stock/RF44 'Pinpoint' Radar",
            kind: ComponentKind::Mount,
            faction: Some(Faction::Protectorate),
            first_instance_free: false,
            point_cost: 10,
            size: Size { x: 2, y: 1, z: 2 },
            power: -250,
            crew: 0,
            reinforced: false,
            variant: None,
        },
        ComponentKey::RL18Launcher => ComponentInfo {
            name: "RL18 Launcher",
            save_key: "Stock/RL18 Launcher",
            kind: ComponentKind::Mount,
            faction: Some(Faction::Protectorate),
            first_instance_free: false,
            point_cost: 15,
            size: Size { x: 3, y: 1, z: 3 },
            power: -50,
            crew: 0,
            reinforced: false,
            variant: Some(ComponentVariantInfo::WeaponMissileBank { is_fixed: false, integrated_fire_control: None, optical_backup: false, role: WeaponRole::Offensive, munition_family: MunitionFamily::UnguidedRocket, missile_size: MissileSize::Size1, cells: MissileLauncherCells::Constant { count: 18 } }),
        },
        ComponentKey::RL36Launcher => ComponentInfo {
            name: "RL36 Launcher",
            save_key: "Stock/RL36 Launcher",
            kind: ComponentKind::Mount,
            faction: Some(Faction::Protectorate),
            first_instance_free: false,
            point_cost: 15,
            size: Size { x: 6, y: 3, z: 6 },
            power: -75,
            crew: 0,
            reinforced: false,
            variant: Some(ComponentVariantInfo::WeaponMissileBank { is_fixed: false, integrated_fire_control: None, optical_backup: false, role: WeaponRole::Offensive, munition_family: MunitionFamily::UnguidedRocket, missile_size: MissileSize::Size1, cells: MissileLauncherCells::Constant { count: 36 } }),
        },
        ComponentKey::RM50ParallaxRadar => ComponentInfo {
            name: "RM50 'Parallax' Radar",
            save_key: "Stock/RM50 'Parallax' Radar",
            kind: ComponentKind::Module,
            faction: Some(Faction::Alliance),
            first_instance_free: false,
            point_cost: 45,
            size: Size { x: 2, y: 2, z: 2 },
            power: -3600,
            crew: 0,
            reinforced: false,
            variant: Some(ComponentVariantInfo::Sensor { sig_type: SigType::Radar, can_lock: true, can_burnthrough: true, directional: false }),
        },
        ComponentKey::RS35FrontlineRadar => ComponentInfo {
            name: "RS35 'Frontline' Radar",
            save_key: "Stock/RS35 'Frontline' Radar",
            kind: ComponentKind::Module,
            faction: Some(Faction::Alliance),
            first_instance_free: false,
            point_cost: 10,
            size: Size { x: 2, y: 2, z: 2 },
            power: -2000,
            crew: 0,
            reinforced: false,
            variant: Some(ComponentVariantInfo::Sensor { sig_type: SigType::Radar, can_lock: false, can_burnthrough: true, directional: false }),
        },
        ComponentKey::RS41SpyglassRadar => ComponentInfo {
            name: "RS41 'Spyglass' Radar",
            save_key: "Stock/RS41 'Spyglass' Radar",
            kind: ComponentKind::Module,
            faction: Some(Faction::Alliance),
            first_instance_free: false,
            point_cost: 25,
            size: Size { x: 2, y: 2, z: 2 },
            power: -4000,
            crew: 0,
            reinforced: false,
            variant: Some(ComponentVariantInfo::Sensor { sig_type: SigType::Radar, can_lock: false, can_burnthrough: false, directional: false }),
        },
        ComponentKey::RapidCycleCradle => ComponentInfo {
            name: "Rapid-Cycle Cradle",
            save_key: "Stock/Rapid-Cycle Cradle",
            kind: ComponentKind::Module,
            faction: None,
            first_instance_free: false,
            point_cost: 20,
            size: Size { x: 3, y: 3, z: 3 },
            power: -150,
            crew: 0,
            reinforced: false,
            variant: None,
        },
        ComponentKey::RapidDCLocker => ComponentInfo {
            name: "Rapid DC Locker",
            save_key: "Stock/Rapid DC Locker",
            kind: ComponentKind::Compartment,
            faction: None,
            first_instance_free: false,
            point_cost: 10,
            size: Size { x: 3, y: 1, z: 3 },
            power: 0,
            crew: -5,
            reinforced: false,
            variant: Some(ComponentVariantInfo::DamageControl { teams: 1, restores: 0 }),
        },
        ComponentKey::RedundantReactorFailsafes => ComponentInfo {
            name: "Redundant Reactor Failsafes",
            save_key: "Stock/Redundant Reactor Failsafes",
            kind: ComponentKind::Module,
            faction: None,
            first_instance_free: false,
            point_cost: 25,
            size: Size { x: 2, y: 2, z: 2 },
            power: -100,
            crew: 0,
            reinforced: false,
            variant: None,
        },
        ComponentKey::ReinforcedCIC => ComponentInfo {
            name: "Reinforced CIC",
            save_key: "Stock/Reinforced CIC",
            kind: ComponentKind::Compartment,
            faction: None,
            first_instance_free: false,
            point_cost: 25,
            size: Size { x: 4, y: 1, z: 6 },
            power: 0,
            crew: -20,
            reinforced: true,
            variant: Some(ComponentVariantInfo::Command { work_on_remote_tracks: false }),
        },
        _ => {
            assert(false);
            ComponentInfo {
                name: "Mk68 Cannon",
                save_key: "Stock/Mk68 Cannon",
                kind: ComponentKind::Mount,
                faction: Some(Faction::Alliance),
                first_instance_free: false,
                point_cost: 75,
                size: Size { x: 8, y: 5, z: 8 },
                power: -225,
                crew: -40,
                reinforced: false,
                variant: Some(ComponentVariantInfo::WeaponProjectile { is_fixed: false, is_energy: false, integrated_fire_control: None, optical_backup: true, role: WeaponRole::Offensive, munition_family: MunitionFamily::BallisticChemical450mm, autoloader_capacity: Some(3usize) }),
            }
        },
    }
}

#[verifier::spinoff_prover]
fn info_part5(k: ComponentKey) -> (r: ComponentInfo)
    requires
        k == ComponentKey::ReinforcedDCLocker || k == ComponentKey::ReinforcedMagazine || k == ComponentKey::ReinforcedThrusterNozzles || k == ComponentKey::SignatureScrambler || k == ComponentKey::SmallDCLocker || k == ComponentKey::SmallEnergyRegulator || k == ComponentKey::SmallReactorBooster || k == ComponentKey::SmallWorkshop || k == ComponentKey::StrikePlanningCenter || k == ComponentKey::StrobeCorrelator || k == ComponentKey::SundriveRacingPro || k == ComponentKey::SupplementaryRadioAmplifiers || k == ComponentKey::T20Cannon || k == ComponentKey::T30Cannon || k == ComponentKey::T81PlasmaCannon || k == ComponentKey::TE45MassDriver || k == ComponentKey::TLS3Launcher || k == ComponentKey::TrackCorrelator || k == ComponentKey::VLS123Launcher || k == ComponentKey::VLS146Launcher || k == ComponentKey::VLS2Launcher || k == ComponentKey::VLS3Launcher,
    ensures
        r == k.spec_info(),
{
    match k {
        ComponentKey::ReinforcedDCLocker => ComponentInfo {
            name: "Reinforced DC Locker",
            save_key: "Stock/Reinforced DC Locker",
            kind: ComponentKind::Compartment,
            faction: None,
            first_instance_free: false,
            point_cost: 45,
            size: Size { x: 3, y: 1, z: 6 },
            power: 0,
            crew: -10,
            reinforced: true,
            variant: Some(ComponentVariantInfo::DamageControl { teams: 2, restores: 1 }),
        },
        ComponentKey::ReinforcedMagazine => ComponentInfo {
            name: "Reinforced Magazine",
            save_key: "Stock/Reinforced Magazine",
            kind: ComponentKind::Compartment,
            faction: None,
            first_instance_free: true,
            point_cost: 2,
            size: Size { x: 1, y: 1, z: 1 },
            power: -10,
            crew: 0,
            reinforced: true,
            variant: Some(ComponentVariantInfo::Magazine { available_volume: 10 }),
        },
        ComponentKey::ReinforcedThrusterNozzles => ComponentInfo {
            name: "Reinforced Thruster Nozzles",
            save_key: "Stock/Reinforced Thruster Nozzles",
            kind: ComponentKind::Module,
            faction: None,
            first_instance_free: false,
            point_cost: 10,
            size: Size { x: 2, y: 2, z: 2 },
            power: 0,
            crew: 0,
            reinforced: false,
            variant: None,
        },
        ComponentKey::SignatureScrambler => ComponentInfo {
            name: "Signature Scrambler",
            save_key: "Stock/Signature Scrambler",
            kind: ComponentKind::Module,
            faction: None,
            first_instance_free: false,
            point_cost: 35,
            size: Size { x: 2, y: 2, z: 2 },
            power: -450,
            crew: 0,
            reinforced: false,
            variant: None,
        },
        ComponentKey::SmallDCLocker => ComponentInfo {
            name: "Small DC Locker",
            save_key: "Stock/Small DC Locker",
            kind: ComponentKind::Compartment,
            faction: None,
            first_instance_free: false,
            point_cost: 30,
            size: Size { x: 3, y: 1, z: 3 },
            power: 0,
            crew: -10,
            reinforced: false,
            variant: Some(ComponentVariantInfo::DamageControl { teams: 2, restores: 1 }),
        },
        ComponentKey::SmallEnergyRegulator => ComponentInfo {
            name: "Small Energy Regulator",
            save_key: "Stock/Small Energy Regulator",
            kind: ComponentKind::Module,
            faction: None,
            first_instance_free: false,
            point_cost: 20,
            size: Size { x: 2, y: 2, z: 2 },
            power: -400,
            crew: 0,
            reinforced: false,
            variant: None,
        },
        ComponentKey::SmallReactorBooster => ComponentInfo {
            name: "Small Reactor Booster",
            save_key: "Stock/Small Reactor Booster",
            kind: ComponentKind::Module,
            faction: None,
            first_instance_free: false,
            point_cost: 10,
            size: Size { x: 2, y: 2, z: 2 },
            power: 0,
            crew: 0,
            reinforced: false,
            variant: None,
        },
        ComponentKey::SmallWorkshop => ComponentInfo {
            name: "Small Workshop",
            save_key: "Stock/Small Workshop",
            kind: ComponentKind::Compartment,
            faction: None,
            first_instance_free: false,
            point_cost: 20,
            size: Size { x: 3, y: 1, z: 3 },
            power: -50,
            crew: -10,
            reinforced: false,
            variant: None,
        },
        ComponentKey::StrikePlanningCenter => ComponentInfo {
            name: "Strike Planning Center",
            save_key: "Stock/Strike Planning Center",
            kind: ComponentKind::Compartment,
            faction: None,
            first_instance_free: false,
            point_cost: 70,
            size: Size { x: 6, y: 1, z: 8 },
            power: 0,
            crew: -20,
            reinforced: false,
            variant: None,
        },
        ComponentKey::StrobeCorrelator => ComponentInfo {
            name: "Strobe Correlator",
            save_key: "Stock/Strobe Correlator",
            kind: ComponentKind::Module,
            faction: None,
            first_instance_free: false,
            point_cost: 25,
            size: Size { x: 2, y: 2, z: 2 },
            power: -150,
            crew: 0,
            reinforced: false,
            variant: None,
        },
        ComponentKey::SundriveRacingPro => ComponentInfo {
            name: "Sundrive Racing Pro",
            save_key: "Stock/Sundrive Racing Pro",
            kind: ComponentKind::Module,
            faction: Some(Faction::Protectorate),
            first_instance_free: false,
            point_cost: 30,
            size: Size { x: 5, y: 3, z: 5 },
            power: 200,
            crew: -10,
            reinforced: false,
            variant: None,
        },
        ComponentKey::SupplementaryRadioAmplifiers => ComponentInfo {
            name: "Supplementary Radio Amplifiers",
            save_key: "Stock/Supplementary Radio Amplifiers",
            kind: ComponentKind::Module,
            faction: None,
            first_instance_free: false,
            point_cost: 20,
            size: Size { x: 2, y: 2, z: 2 },
            power: -100,
            crew: 0,
            reinforced: false,
            variant: None,
        },
        ComponentKey::T20Cannon => ComponentInfo {
            name: "T20 Cannon",
            save_key: "Stock/T20 Cannon",
            kind: ComponentKind::Mount,
            faction: Some(Faction::Protectorate),
            first_instance_free: false,
            point_cost: 15,
            size: Size { x: 3, y: 1, z: 3 },
            power: -30,
            crew: -4,
            reinforced: false,
            variant: Some(ComponentVariantInfo::WeaponProjectile { is_fixed: false, is_energy: false, integrated_fire_control: None, optical_backup: true, role: WeaponRole::DualPurpose, munition_family: MunitionFamily::BallisticChemical100mm, autoloader_capacity: Some(4usize) }),
        },
        ComponentKey::T30Cannon => ComponentInfo {
            name: "T30 Cannon",
            save_key: "Stock/T30 Cannon",
            kind: ComponentKind::Mount,
            faction: Some(Faction::Protectorate),
            first_instance_free: false,
            point_cost: 20,
            size: Size { x: 6, y: 3, z: 6 },
            power: -120,
            crew: -10,
            reinforced: false,
            variant: Some(ComponentVariantInfo::WeaponProjectile { is_fixed: false, is_energy: false, integrated_fire_control: None, optical_backup: true, role: WeaponRole::DualPurpose, munition_family: MunitionFamily::BallisticChemical100mm, autoloader_capacity: Some(16usize) }),
        },
        ComponentKey::T81PlasmaCannon => ComponentInfo {
            name: "T81 Plasma Cannon",
            save_key: "Stock/T81 Plasma Cannon",
            kind: ComponentKind::Mount,
            faction: Some(Faction::Protectorate),
            first_instance_free: false,
            point_cost: 45,
            size: Size { x: 6, y: 3, z: 6 },
            power: -1500,
            crew: -15,
            reinforced: false,
            variant: Some(ComponentVariantInfo::WeaponProjectile { is_fixed: false, is_energy: true, integrated_fire_control: None, optical_backup: true, role: WeaponRole::Offensive, munition_family: MunitionFamily::BallisticMagnetic400mmPlasma, autoloader_capacity: Some(8usize) }),
        },
        ComponentKey::TE45MassDriver => ComponentInfo {
            name: "TE45 Mass Driver",
            save_key: "Stock/TE45 Mass Driver",
            kind: ComponentKind::Mount,
            faction: Some(Faction::Protectorate),
            first_instance_free: false,
            point_cost: 100,
            size: Size { x: 4, y: 10, z: 4 },
            power: -4250,
            crew: -15,
            reinforced: false,
            variant: Some(ComponentVariantInfo::WeaponProjectile { is_fixed: true, is_energy: true, integrated_fire_control: None, optical_backup: true, role: WeaponRole::Offensive, munition_family: MunitionFamily::BallisticMagnetic500mmMassDriver, autoloader_capacity: None }),
        },
        ComponentKey::TLS3Launcher => ComponentInfo {
            name: "TLS-3 Launcher",
            save_key: "Stock/Torpedo Turret",
            kind: ComponentKind::Mount,
            faction: Some(Faction::Alliance),
            first_instance_free: false,
            point_cost: 20,
            size: Size { x: 3, y: 1, z: 5 },
            power: -250,
            crew: 0,
            reinforced: false,
            variant: Some(ComponentVariantInfo::WeaponMissileBank { is_fixed: false, integrated_fire_control: None, optical_backup: false, role: WeaponRole::Offensive, munition_family: MunitionFamily::StandardMissile, missile_size: MissileSize::Size3, cells: MissileLauncherCells::Constant { count: 6 } }),
        },
        ComponentKey::TrackCorrelator => ComponentInfo {
            name: "Track Correlator",
            save_key: "Stock/Track Correlator",
            kind: ComponentKind::Module,
            faction: None,
            first_instance_free: false,
            point_cost: 25,
            size: Size { x: 2, y: 2, z: 2 },
            power: -150,
            crew: 0,
            reinforced: false,
            variant: None,
        },
        ComponentKey::VLS123Launcher => ComponentInfo {
            name: "VLS-1-23 Launcher",
            save_key: "Stock/VLS-1-23 Launcher",
            kind: ComponentKind::Mount,
            faction: None,
            first_instance_free: false,
            point_cost: 5,
            size: Size { x: 2, y: 2, z: 2 },
            power: -50,
            crew: 0,
            reinforced: false,
            variant: Some(ComponentVariantInfo::WeaponMissileBank { is_fixed: true, integrated_fire_control: None, optical_backup: false, role: WeaponRole::DualPurpose, munition_family: MunitionFamily::StandardMissile, missile_size: MissileSize::Size1, cells: MissileLauncherCells::Constant { count: 23 } }),
        },
        ComponentKey::VLS146Launcher => ComponentInfo {
            name: "VLS-1-46 Launcher",
            save_key: "Stock/VLS-1-46 Launcher",
            kind: ComponentKind::Mount,
            faction: None,
            first_instance_free: false,
            point_cost: 5,
            size: Size { x: 3, y: 2, z: 3 },
            power: -50,
            crew: 0,
            reinforced: false,
            variant: Some(ComponentVariantInfo::WeaponMissileBank { is_fixed: true, integrated_fire_control: None, optical_backup: false, role: WeaponRole::DualPurpose, munition_family: MunitionFamily::StandardMissile, missile_size: MissileSize::Size1, cells: MissileLauncherCells::Constant { count: 46 } }),
        },
        ComponentKey::VLS2Launcher => ComponentInfo {
            name: "VLS-2 Launcher",
            save_key: "Stock/VLS-2 Launcher",
            kind: ComponentKind::Mount,
            faction: Some(Faction::Alliance),
            first_instance_free: false,
            point_cost: 10,
            size: Size { x: 3, y: 4, z: 3 },
            power: -200,
            crew: 0,
            reinforced: false,
            variant: Some(ComponentVariantInfo::WeaponMissileBank { is_fixed: true, integrated_fire_control: None, optical_backup: false, role: WeaponRole::Offensive, munition_family: MunitionFamily::StandardMissile, missile_size: MissileSize::Size2, cells: MissileLauncherCells::Function { count_per_group: 8, groups: CellGroups::Vls2 } }),
        },
        ComponentKey::VLS3Launcher => ComponentInfo {
            name: "VLS-3 Launcher",
            save_key: "Stock/VLS-3 Launcher",
            kind: ComponentKind::Mount,
            faction: Some(Faction::Alliance),
            first_instance_free: false,
            point_cost: 20,
            size: Size { x: 3, y: 4, z: 3 },
            power: -200,
            crew: 0,
            reinforced: false,
            variant: Some(ComponentVariantInfo::WeaponMissileBank { is_fixed: true, integrated_fire_control: None, optical_backup: false, role: WeaponRole::Offensive, munition_family: MunitionFamily::StandardMissile, missile_size: MissileSize::Size3, cells: MissileLauncherCells::Function { count_per_group: 2, groups: CellGroups::Vls3 } }),
        },
        _ => {
            assert(false);
            ComponentInfo {
                name: "Reinforced DC Locker",
                save_key: "Stock/Reinforced DC Locker",
                kind: ComponentKind::Compartment,
                faction: None,
                first_instance_free: false,
                point_cost: 45,
                size: Size { x: 3, y: 1, z: 6 },
                power: 0,
                crew: -10,
                reinforced: true,
                variant: Some(ComponentVariantInfo::DamageControl { teams: 2, restores: 1 }),
            }
        },
    }
}

/// A component's record carries its save key.
pub proof fn lemma_info_save_key(k: ComponentKey)
    ensures
        k.spec_info().save_key@ == k.spec_save_key(),
{
    match k {
        ComponentKey::ActivelyCooledAmplifiers => {},
        ComponentKey::AdaptiveRadarReceiver => {},
        ComponentKey::AmmunitionElevators => {},
        ComponentKey::AnalysisAnnex => {},
        ComponentKey::AuxiliarySteering => {},
        ComponentKey::BW1500Drive => {},
        ComponentKey::BW1500RDrive => {},
        ComponentKey::BW2000Drive => {},
        ComponentKey::BW800Drive => {},
        ComponentKey::BW800RDrive => {},
        ComponentKey::BasicCIC => {},
        ComponentKey::BattleDressingStation => {},
        ComponentKey::Berthing => {},
        ComponentKey::BoostedReactor => {},
        ComponentKey::BulkMagazine => {},
        ComponentKey::BulwarkHuntress => {},
        ComponentKey::C30Cannon => {},
        ComponentKey::C53Cannon => {},
        ComponentKey::C56Cannon => {},
        ComponentKey::C65Cannon => {},
        ComponentKey::C81PlasmaCannon => {},
        ComponentKey::C90Cannon => {},
        ComponentKey::CHI7700Drive => {},
        ComponentKey::CHI777YardDrive => {},
        ComponentKey::CHI9100LongHaulDrive => {},
        ComponentKey::CLS3Launcher => {},
        ComponentKey::CR10Antenna => {},
        ComponentKey::CR70Antenna => {},
        ComponentKey::CitadelCIC => {},
        ComponentKey::CitadelMagazine => {},
        ComponentKey::CivilianReactor => {},
        ComponentKey::ContainerBankLauncher => {},
        ComponentKey::ContainerStackLauncher => {},
        ComponentKey::DamageControlCentral => {},
        ComponentKey::DamageControlComplex => {},
        ComponentKey::E15MasqueradeDeceptionModule => {},
        ComponentKey::E20LighthouseIlluminator => {},
        ComponentKey::E55SpotlightIlluminator => {},
        ComponentKey::E57FloodlightIlluminator => {},
        ComponentKey::E70InterruptionJammer => {},
        ComponentKey::E71HangupJammer => {},
        ComponentKey::E90BlanketJammer => {},
        ComponentKey::ES22PinardElectronicSupportModule => {},
        ComponentKey::ES32ScryerMissileIDSystem => {},
        ComponentKey::EnergyRegulator => {},
        ComponentKey::FM200Drive => {},
        ComponentKey::FM200RDrive => {},
        ComponentKey::FM230WhiplashDrive => {},
        ComponentKey::FM240DragonflyDrive => {},
        ComponentKey::FM280RaiderDrive => {},
        ComponentKey::FM30XProwlerDrive => {},
        ComponentKey::FM500Drive => {},
        ComponentKey::FM500RDrive => {},
        ComponentKey::FM530WhiplashDrive => {},
        ComponentKey::FM540DragonflyDrive => {},
        ComponentKey::FM580RaiderDrive => {},
        ComponentKey::FR3300MicroReactor => {},
        ComponentKey::FR4800Reactor => {},
        ComponentKey::FocusedParticleAccelerator => {},
        ComponentKey::GunPlottingCenter => {},
        ComponentKey::IntelligenceCenter => {},
        ComponentKey::IthacaBridgemaster => {},
        ComponentKey::J15BellbirdJammer => {},
        ComponentKey::J360LyrebirdJammer => {},
        ComponentKey::JuryRiggedReactor => {},
        ComponentKey::L50BlackjackLaserDazzler => {},
        ComponentKey::LargeDCLocker => {},
        ComponentKey::LargeDCStorage => {},
        ComponentKey::LauncherDelugeSystem => {},
        ComponentKey::LightCivilianReactor => {},
        ComponentKey::ML9MineLauncher => {},
        ComponentKey::MLS2Launcher => {},
        ComponentKey::MLS3Launcher => {},
        ComponentKey::MagazineSprinklers => {},
        ComponentKey::MissileParallelInterface => {},
        ComponentKey::MissileProgrammingBus => {},
        ComponentKey::MissileProgrammingBusArray => {},
        ComponentKey::Mk20DefenderPDT => {},
        ComponentKey::Mk25ReboundPDT => {},
        ComponentKey::Mk29StonewallPDT => {},
        ComponentKey::Mk550Railgun => {},
        ComponentKey::Mk600BeamCannon => {},
        ComponentKey::Mk610BeamTurret => {},
        ComponentKey::Mk61Cannon => {},
        ComponentKey::Mk62Cannon => {},
        ComponentKey::Mk64Cannon => {},
        ComponentKey::Mk65Cannon => {},
        ComponentKey::Mk66Cannon => {},
        ComponentKey::Mk68Cannon => {},
        ComponentKey::Mk81Railgun => {},
        ComponentKey::Mk90AuroraPDT => {},
        ComponentKey::Mk95SarissaPDT => {},
        ComponentKey::MountGyros => {},
        ComponentKey::P11PavisePDT => {},
        ComponentKey::P20BastionPDT => {},
        ComponentKey::P60GrazerPDT => {},
        ComponentKey::PlantControlCenter => {},
        ComponentKey::R400BloodhoundLRTRadar => {},
        ComponentKey::R550EarlyWarningRadar => {},
        ComponentKey::RF101BullseyeRadar => {},
        ComponentKey::RF44PinpointRadar => {},
        ComponentKey::RL18Launcher => {},
        ComponentKey::RL36Launcher => {},
        ComponentKey::RM50ParallaxRadar => {},
        ComponentKey::RS35FrontlineRadar => {},
        ComponentKey::RS41SpyglassRadar => {},
        ComponentKey::RapidCycleCradle => {},
        ComponentKey::RapidDCLocker => {},
        ComponentKey::RedundantReactorFailsafes => {},
        ComponentKey::ReinforcedCIC => {},
        ComponentKey::ReinforcedDCLocker => {},
        ComponentKey::ReinforcedMagazine => {},
        ComponentKey::ReinforcedThrusterNozzles => {},
        ComponentKey::SignatureScrambler => {},
        ComponentKey::SmallDCLocker => {},
        ComponentKey::SmallEnergyRegulator => {},
        ComponentKey::SmallReactorBooster => {},
        ComponentKey::SmallWorkshop => {},
        ComponentKey::StrikePlanningCenter => {},
        ComponentKey::StrobeCorrelator => {},
        ComponentKey::SundriveRacingPro => {},
        ComponentKey::SupplementaryRadioAmplifiers => {},
        ComponentKey::T20Cannon => {},
        ComponentKey::T30Cannon => {},
        ComponentKey::T81PlasmaCannon => {},
        ComponentKey::TE45MassDriver => {},
        ComponentKey::TLS3Launcher => {},
        ComponentKey::TrackCorrelator => {},
        ComponentKey::VLS123Launcher => {},
        ComponentKey::VLS146Launcher => {},
        ComponentKey::VLS2Launcher => {},
        ComponentKey::VLS3Launcher => {},
    }
}

} // verus!
