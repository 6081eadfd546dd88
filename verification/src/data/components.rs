pub mod info;
pub mod fitting;

use vstd::prelude::*;
use crate::utils::Size;
use crate::data::InvalidKey;
use crate::text::{chars_of, chars_eq_str};

verus! {

/// A component that can be mounted in a hull socket.
#[derive(Debug, Clone, Copy, PartialEq, Eq, Structural, PartialOrd, Ord, Hash)]
pub enum ComponentKey {
    ActivelyCooledAmplifiers,
    AdaptiveRadarReceiver,
    AmmunitionElevators,
    AnalysisAnnex,
    AuxiliarySteering,
    BW1500Drive,
    BW1500RDrive,
    BW2000Drive,
    BW800Drive,
    BW800RDrive,
    BasicCIC,
    BattleDressingStation,
    Berthing,
    BoostedReactor,
    BulkMagazine,
    BulwarkHuntress,
    C30Cannon,
    C53Cannon,
    C56Cannon,
    C65Cannon,
    C81PlasmaCannon,
    C90Cannon,
    CHI7700Drive,
    CHI777YardDrive,
    CHI9100LongHaulDrive,
    CLS3Launcher,
    CR10Antenna,
    CR70Antenna,
    CitadelCIC,
    CitadelMagazine,
    CivilianReactor,
    ContainerBankLauncher,
    ContainerStackLauncher,
    DamageControlCentral,
    DamageControlComplex,
    E15MasqueradeDeceptionModule,
    E20LighthouseIlluminator,
    E55SpotlightIlluminator,
    E57FloodlightIlluminator,
    E70InterruptionJammer,
    E71HangupJammer,
    E90BlanketJammer,
    ES22PinardElectronicSupportModule,
    ES32ScryerMissileIDSystem,
    EnergyRegulator,
    FM200Drive,
    FM200RDrive,
    FM230WhiplashDrive,
    FM240DragonflyDrive,
    FM280RaiderDrive,
    FM30XProwlerDrive,
    FM500Drive,
    FM500RDrive,
    FM530WhiplashDrive,
    FM540DragonflyDrive,
    FM580RaiderDrive,
    FR3300MicroReactor,
    FR4800Reactor,
    FocusedParticleAccelerator,
    GunPlottingCenter,
    IntelligenceCenter,
    IthacaBridgemaster,
    J15BellbirdJammer,
    J360LyrebirdJammer,
    JuryRiggedReactor,
    L50BlackjackLaserDazzler,
    LargeDCLocker,
    LargeDCStorage,
    LauncherDelugeSystem,
    LightCivilianReactor,
    ML9MineLauncher,
    MLS2Launcher,
    MLS3Launcher,
    MagazineSprinklers,
    MissileParallelInterface,
    MissileProgrammingBus,
    MissileProgrammingBusArray,
    Mk20DefenderPDT,
    Mk25ReboundPDT,
    Mk29StonewallPDT,
    Mk550Railgun,
    Mk600BeamCannon,
    Mk610BeamTurret,
    Mk61Cannon,
    Mk62Cannon,
    Mk64Cannon,
    Mk65Cannon,
    Mk66Cannon,
    Mk68Cannon,
    Mk81Railgun,
    Mk90AuroraPDT,
    Mk95SarissaPDT,
    MountGyros,
    P11PavisePDT,
    P20BastionPDT,
    P60GrazerPDT,
    PlantControlCenter,
    R400BloodhoundLRTRadar,
    R550EarlyWarningRadar,
    RF101BullseyeRadar,
    RF44PinpointRadar,
    RL18Launcher,
    RL36Launcher,
    RM50ParallaxRadar,
    RS35FrontlineRadar,
    RS41SpyglassRadar,
    RapidCycleCradle,
    RapidDCLocker,
    RedundantReactorFailsafes,
    ReinforcedCIC,
    ReinforcedDCLocker,
    ReinforcedMagazine,
    ReinforcedThrusterNozzles,
    SignatureScrambler,
    SmallDCLocker,
    SmallEnergyRegulator,
    SmallReactorBooster,
    SmallWorkshop,
    StrikePlanningCenter,
    StrobeCorrelator,
    SundriveRacingPro,
    SupplementaryRadioAmplifiers,
    T20Cannon,
    T30Cannon,
    T81PlasmaCannon,
    TE45MassDriver,
    TLS3Launcher,
    TrackCorrelator,
    VLS123Launcher,
    VLS146Launcher,
    VLS2Launcher,
    VLS3Launcher,
}

impl ComponentKey {
    /// Every `ComponentKey`, in declaration order.
    pub open spec fn spec_values() -> Seq<ComponentKey> {
        seq![ComponentKey::ActivelyCooledAmplifiers, ComponentKey::AdaptiveRadarReceiver, ComponentKey::AmmunitionElevators, ComponentKey::AnalysisAnnex, ComponentKey::AuxiliarySteering, ComponentKey::BW1500Drive, ComponentKey::BW1500RDrive, ComponentKey::BW2000Drive, ComponentKey::BW800Drive, ComponentKey::BW800RDrive, ComponentKey::BasicCIC, ComponentKey::BattleDressingStation, ComponentKey::Berthing, ComponentKey::BoostedReactor, ComponentKey::BulkMagazine, ComponentKey::BulwarkHuntress, ComponentKey::C30Cannon, ComponentKey::C53Cannon, ComponentKey::C56Cannon, ComponentKey::C65Cannon, ComponentKey::C81PlasmaCannon, ComponentKey::C90Cannon, ComponentKey::CHI7700Drive, ComponentKey::CHI777YardDrive, ComponentKey::CHI9100LongHaulDrive, ComponentKey::CLS3Launcher, ComponentKey::CR10Antenna, ComponentKey::CR70Antenna, ComponentKey::CitadelCIC, ComponentKey::CitadelMagazine, ComponentKey::CivilianReactor, ComponentKey::ContainerBankLauncher, ComponentKey::ContainerStackLauncher, ComponentKey::DamageControlCentral, ComponentKey::DamageControlComplex, ComponentKey::E15MasqueradeDeceptionModule, ComponentKey::E20LighthouseIlluminator, ComponentKey::E55SpotlightIlluminator, ComponentKey::E57FloodlightIlluminator, ComponentKey::E70InterruptionJammer, ComponentKey::E71HangupJammer, ComponentKey::E90BlanketJammer, ComponentKey::ES22PinardElectronicSupportModule, ComponentKey::ES32ScryerMissileIDSystem, ComponentKey::EnergyRegulator, ComponentKey::FM200Drive, ComponentKey::FM200RDrive, ComponentKey::FM230WhiplashDrive, ComponentKey::FM240DragonflyDrive, ComponentKey::FM280RaiderDrive, ComponentKey::FM30XProwlerDrive, ComponentKey::FM500Drive, ComponentKey::FM500RDrive, ComponentKey::FM530WhiplashDrive, ComponentKey::FM540DragonflyDrive, ComponentKey::FM580RaiderDrive, ComponentKey::FR3300MicroReactor, ComponentKey::FR4800Reactor, ComponentKey::FocusedParticleAccelerator, ComponentKey::GunPlottingCenter, ComponentKey::IntelligenceCenter, ComponentKey::IthacaBridgemaster, ComponentKey::J15BellbirdJammer, ComponentKey::J360LyrebirdJammer, ComponentKey::JuryRiggedReactor, ComponentKey::L50BlackjackLaserDazzler, ComponentKey::LargeDCLocker, ComponentKey::LargeDCStorage, ComponentKey::LauncherDelugeSystem, ComponentKey::LightCivilianReactor, ComponentKey::ML9MineLauncher, ComponentKey::MLS2Launcher, ComponentKey::MLS3Launcher, ComponentKey::MagazineSprinklers, ComponentKey::MissileParallelInterface, ComponentKey::MissileProgrammingBus, ComponentKey::MissileProgrammingBusArray, ComponentKey::Mk20DefenderPDT, ComponentKey::Mk25ReboundPDT, ComponentKey::Mk29StonewallPDT, ComponentKey::Mk550Railgun, ComponentKey::Mk600BeamCannon, ComponentKey::Mk610BeamTurret, ComponentKey::Mk61Cannon, ComponentKey::Mk62Cannon, ComponentKey::Mk64Cannon, ComponentKey::Mk65Cannon, ComponentKey::Mk66Cannon, ComponentKey::Mk68Cannon, ComponentKey::Mk81Railgun, ComponentKey::Mk90AuroraPDT, ComponentKey::Mk95SarissaPDT, ComponentKey::MountGyros, ComponentKey::P11PavisePDT, ComponentKey::P20BastionPDT, ComponentKey::P60GrazerPDT, ComponentKey::PlantControlCenter, ComponentKey::R400BloodhoundLRTRadar, ComponentKey::R550EarlyWarningRadar, ComponentKey::RF101BullseyeRadar, ComponentKey::RF44PinpointRadar, ComponentKey::RL18Launcher, ComponentKey::RL36Launcher, ComponentKey::RM50ParallaxRadar, ComponentKey::RS35FrontlineRadar, ComponentKey::RS41SpyglassRadar, ComponentKey::RapidCycleCradle, ComponentKey::RapidDCLocker, ComponentKey::RedundantReactorFailsafes, ComponentKey::ReinforcedCIC, ComponentKey::ReinforcedDCLocker, ComponentKey::ReinforcedMagazine, ComponentKey::ReinforcedThrusterNozzles, ComponentKey::SignatureScrambler, ComponentKey::SmallDCLocker, ComponentKey::SmallEnergyRegulator, ComponentKey::SmallReactorBooster, ComponentKey::SmallWorkshop, ComponentKey::StrikePlanningCenter, ComponentKey::StrobeCorrelator, ComponentKey::SundriveRacingPro, ComponentKey::SupplementaryRadioAmplifiers, ComponentKey::T20Cannon, ComponentKey::T30Cannon, ComponentKey::T81PlasmaCannon, ComponentKey::TE45MassDriver, ComponentKey::TLS3Launcher, ComponentKey::TrackCorrelator, ComponentKey::VLS123Launcher, ComponentKey::VLS146Launcher, ComponentKey::VLS2Launcher, ComponentKey::VLS3Launcher]
    }

    /// Every `ComponentKey`, in declaration order.
    pub fn values() -> (v: Vec<ComponentKey>)
        ensures
            v@ == Self::spec_values(),
    {
        vec![ComponentKey::ActivelyCooledAmplifiers, ComponentKey::AdaptiveRadarReceiver, ComponentKey::AmmunitionElevators, ComponentKey::AnalysisAnnex, ComponentKey::AuxiliarySteering, ComponentKey::BW1500Drive, ComponentKey::BW1500RDrive, ComponentKey::BW2000Drive, ComponentKey::BW800Drive, ComponentKey::BW800RDrive, ComponentKey::BasicCIC, ComponentKey::BattleDressingStation, ComponentKey::Berthing, ComponentKey::BoostedReactor, ComponentKey::BulkMagazine, ComponentKey::BulwarkHuntress, ComponentKey::C30Cannon, ComponentKey::C53Cannon, ComponentKey::C56Cannon, ComponentKey::C65Cannon, ComponentKey::C81PlasmaCannon, ComponentKey::C90Cannon, ComponentKey::CHI7700Drive, ComponentKey::CHI777YardDrive, ComponentKey::CHI9100LongHaulDrive, ComponentKey::CLS3Launcher, ComponentKey::CR10Antenna, ComponentKey::CR70Antenna, ComponentKey::CitadelCIC, ComponentKey::CitadelMagazine, ComponentKey::CivilianReactor, ComponentKey::ContainerBankLauncher, ComponentKey::ContainerStackLauncher, ComponentKey::DamageControlCentral, ComponentKey::DamageControlComplex, ComponentKey::E15MasqueradeDeceptionModule, ComponentKey::E20LighthouseIlluminator, ComponentKey::E55SpotlightIlluminator, ComponentKey::E57FloodlightIlluminator, ComponentKey::E70InterruptionJammer, ComponentKey::E71HangupJammer, ComponentKey::E90BlanketJammer, ComponentKey::ES22PinardElectronicSupportModule, ComponentKey::ES32ScryerMissileIDSystem, ComponentKey::EnergyRegulator, ComponentKey::FM200Drive, ComponentKey::FM200RDrive, ComponentKey::FM230WhiplashDrive, ComponentKey::FM240DragonflyDrive, ComponentKey::FM280RaiderDrive, ComponentKey::FM30XProwlerDrive, ComponentKey::FM500Drive, ComponentKey::FM500RDrive, ComponentKey::FM530WhiplashDrive, ComponentKey::FM540DragonflyDrive, ComponentKey::FM580RaiderDrive, ComponentKey::FR3300MicroReactor, ComponentKey::FR4800Reactor, ComponentKey::FocusedParticleAccelerator, ComponentKey::GunPlottingCenter, ComponentKey::IntelligenceCenter, ComponentKey::IthacaBridgemaster, ComponentKey::J15BellbirdJammer, ComponentKey::J360LyrebirdJammer, ComponentKey::JuryRiggedReactor, ComponentKey::L50BlackjackLaserDazzler, ComponentKey::LargeDCLocker, ComponentKey::LargeDCStorage, ComponentKey::LauncherDelugeSystem, ComponentKey::LightCivilianReactor, ComponentKey::ML9MineLauncher, ComponentKey::MLS2Launcher, ComponentKey::MLS3Launcher, ComponentKey::MagazineSprinklers, ComponentKey::MissileParallelInterface, ComponentKey::MissileProgrammingBus, ComponentKey::MissileProgrammingBusArray, ComponentKey::Mk20DefenderPDT, ComponentKey::Mk25ReboundPDT, ComponentKey::Mk29StonewallPDT, ComponentKey::Mk550Railgun, ComponentKey::Mk600BeamCannon, ComponentKey::Mk610BeamTurret, ComponentKey::Mk61Cannon, ComponentKey::Mk62Cannon, ComponentKey::Mk64Cannon, ComponentKey::Mk65Cannon, ComponentKey::Mk66Cannon, ComponentKey::Mk68Cannon, ComponentKey::Mk81Railgun, ComponentKey::Mk90AuroraPDT, ComponentKey::Mk95SarissaPDT, ComponentKey::MountGyros, ComponentKey::P11PavisePDT, ComponentKey::P20BastionPDT, ComponentKey::P60GrazerPDT, ComponentKey::PlantControlCenter, ComponentKey::R400BloodhoundLRTRadar, ComponentKey::R550EarlyWarningRadar, ComponentKey::RF101BullseyeRadar, ComponentKey::RF44PinpointRadar, ComponentKey::RL18Launcher, ComponentKey::RL36Launcher, ComponentKey::RM50ParallaxRadar, ComponentKey::RS35FrontlineRadar, ComponentKey::RS41SpyglassRadar, ComponentKey::RapidCycleCradle, ComponentKey::RapidDCLocker, ComponentKey::RedundantReactorFailsafes, ComponentKey::ReinforcedCIC, ComponentKey::ReinforcedDCLocker, ComponentKey::ReinforcedMagazine, ComponentKey::ReinforcedThrusterNozzles, ComponentKey::SignatureScrambler, ComponentKey::SmallDCLocker, ComponentKey::SmallEnergyRegulator, ComponentKey::SmallReactorBooster, ComponentKey::SmallWorkshop, ComponentKey::StrikePlanningCenter, ComponentKey::StrobeCorrelator, ComponentKey::SundriveRacingPro, ComponentKey::SupplementaryRadioAmplifiers, ComponentKey::T20Cannon, ComponentKey::T30Cannon, ComponentKey::T81PlasmaCannon, ComponentKey::TE45MassDriver, ComponentKey::TLS3Launcher, ComponentKey::TrackCorrelator, ComponentKey::VLS123Launcher, ComponentKey::VLS146Launcher, ComponentKey::VLS2Launcher, ComponentKey::VLS3Launcher]
    }

    pub open spec fn spec_save_key(self) -> Seq<char> {
        match self {
            ComponentKey::ActivelyCooledAmplifiers => "Stock/Actively Cooled Amplifiers"@,
            ComponentKey::AdaptiveRadarReceiver => "Stock/Adaptive Radar Receiver"@,
            ComponentKey::AmmunitionElevators => "Stock/Ammunition Elevators"@,
            ComponentKey::AnalysisAnnex => "Stock/Analysis Annex"@,
            ComponentKey::AuxiliarySteering => "Stock/Auxiliary Steering"@,
            ComponentKey::BW1500Drive => "Stock/BW1500 Drive"@,
            ComponentKey::BW1500RDrive => "Stock/BW1500-R Drive"@,
            ComponentKey::BW2000Drive => "Stock/BW2000 Drive"@,
            ComponentKey::BW800Drive => "Stock/BW800 Drive"@,
            ComponentKey::BW800RDrive => "Stock/BW800-R Drive"@,
            ComponentKey::BasicCIC => "Stock/Basic CIC"@,
            ComponentKey::BattleDressingStation => "Stock/Battle Dressing Station"@,
            ComponentKey::Berthing => "Stock/Berthing"@,
            ComponentKey::BoostedReactor => "Stock/Boosted Reactor"@,
            ComponentKey::BulkMagazine => "Stock/Bulk Magazine"@,
            ComponentKey::BulwarkHuntress => "Stock/Bulwark Huntress"@,
            ComponentKey::C30Cannon => "Stock/C30 Cannon"@,
            ComponentKey::C53Cannon => "Stock/C53 Cannon"@,
            ComponentKey::C56Cannon => "Stock/C54 Cannon"@,
            ComponentKey::C65Cannon => "Stock/C65 Cannon"@,
            ComponentKey::C81PlasmaCannon => "Stock/C81 Plasma Cannon"@,
            ComponentKey::C90Cannon => "Stock/C90 Cannon"@,
            ComponentKey::CHI7700Drive => "Stock/CHI-7700 Drive"@,
            ComponentKey::CHI777YardDrive => "Stock/CHI-777 Yard Drive"@,
            ComponentKey::CHI9100LongHaulDrive => "Stock/CHI-9100 Long Haul Drive"@,
            ComponentKey::CLS3Launcher => "Stock/CLS-3 Launcher"@,
            ComponentKey::CR10Antenna => "Stock/CR10 Antenna"@,
            ComponentKey::CR70Antenna => "Stock/CR70 Antenna"@,
            ComponentKey::CitadelCIC => "Stock/Citadel CIC"@,
            ComponentKey::CitadelMagazine => "Stock/Citadel Magazine"@,
            ComponentKey::CivilianReactor => "Stock/Civilian Reactor"@,
            ComponentKey::ContainerBankLauncher => "Stock/Container Bank Launcher"@,
            ComponentKey::ContainerStackLauncher => "Stock/Container Stack Launcher"@,
            ComponentKey::DamageControlCentral => "Stock/Damage Control Central"@,
            ComponentKey::DamageControlComplex => "Stock/Damage Control Complex"@,
            ComponentKey::E15MasqueradeDeceptionModule => "Stock/E15 'Masquerade' Signature Booster"@,
            ComponentKey::E20LighthouseIlluminator => "Stock/E20 'Lighthouse' Illuminator"@,
            ComponentKey::E55SpotlightIlluminator => "Stock/E55 'Spotlight' Illuminator"@,
            ComponentKey::E57FloodlightIlluminator => "Stock/E57 'Floodlight' Illuminator"@,
            ComponentKey::E70InterruptionJammer => "Stock/E70 'Interruption' Jammer"@,
            ComponentKey::E71HangupJammer => "Stock/E71 'Hangup' Jammer"@,
            ComponentKey::E90BlanketJammer => "Stock/E90 'Blanket' Jammer"@,
            ComponentKey::ES22PinardElectronicSupportModule => "Stock/ES22 'Pinard' Electronic Support Module"@,
            ComponentKey::ES32ScryerMissileIDSystem => "Stock/ES32 'Scryer' Missile ID System"@,
            ComponentKey::EnergyRegulator => "Stock/Energy Regulator"@,
            ComponentKey::FM200Drive => "Stock/FM200 Drive"@,
            ComponentKey::FM200RDrive => "Stock/FM200R Drive"@,
            ComponentKey::FM230WhiplashDrive => "Stock/FM230 'Whiplash' Drive"@,
            ComponentKey::FM240DragonflyDrive => "Stock/FM240 'Dragonfly' Drive"@,
            ComponentKey::FM280RaiderDrive => "Stock/FM280 'Raider' Drive"@,
            ComponentKey::FM30XProwlerDrive => "Stock/FM30X 'Prowler' Drive"@,
            ComponentKey::FM500Drive => "Stock/FM500 Drive"@,
            ComponentKey::FM500RDrive => "Stock/FM500R Drive"@,
            ComponentKey::FM530WhiplashDrive => "Stock/FM530 'Whiplash' Drive"@,
            ComponentKey::FM540DragonflyDrive => "Stock/FM540 'Dragonfly' Drive"@,
            ComponentKey::FM580RaiderDrive => "Stock/FM580 'Raider' Drive"@,
            ComponentKey::FR3300MicroReactor => "Stock/FR3300 Micro Reactor"@,
            ComponentKey::FR4800Reactor => "Stock/FR4800 Reactor"@,
            ComponentKey::FocusedParticleAccelerator => "Stock/Focused Particle Accelerator"@,
            ComponentKey::GunPlottingCenter => "Stock/Gun Plotting Center"@,
            ComponentKey::IntelligenceCenter => "Stock/Intelligence Center"@,
            ComponentKey::IthacaBridgemaster => "Stock/Ithaca Bridgemaster"@,
            ComponentKey::J15BellbirdJammer => "Stock/J15 Jammer"@,
            ComponentKey::J360LyrebirdJammer => "Stock/J360 Jammer"@,
            ComponentKey::JuryRiggedReactor => "Stock/Jury-Rigged Reactor"@,
            ComponentKey::L50BlackjackLaserDazzler => "Stock/L50 Laser Dazzler"@,
            ComponentKey::LargeDCLocker => "Stock/Large DC Locker"@,
            ComponentKey::LargeDCStorage => "Stock/Large DC Storage"@,
            ComponentKey::LauncherDelugeSystem => "Stock/Launcher Deluge System"@,
            ComponentKey::LightCivilianReactor => "Stock/Light Civilian Reactor"@,
            ComponentKey::ML9MineLauncher => "Stock/ML-9 Mine Launcher"@,
            ComponentKey::MLS2Launcher => "Stock/MLS-2 Launcher"@,
            ComponentKey::MLS3Launcher => "Stock/MLS-3 Launcher"@,
            ComponentKey::MagazineSprinklers => "Stock/Magazine Sprinklers"@,
            ComponentKey::MissileParallelInterface => "Stock/Missile Parallel Interface"@,
            ComponentKey::MissileProgrammingBus => "Stock/Missile Programming Bus"@,
            ComponentKey::MissileProgrammingBusArray => "Stock/Missile Programming Bus Array"@,
            ComponentKey::Mk20DefenderPDT => "Stock/Mk20 'Defender' PDT"@,
            ComponentKey::Mk25ReboundPDT => "Stock/Mk25 'Rebound' PDT"@,
            ComponentKey::Mk29StonewallPDT => "Stock/Mk29 'Stonewall' PDT"@,
            ComponentKey::Mk550Railgun => "Stock/Mk550 Mass Driver"@,
            ComponentKey::Mk600BeamCannon => "Stock/Mk600 Beam Cannon"@,
            ComponentKey::Mk610BeamTurret => "Stock/Mk610 Beam Turret"@,
            ComponentKey::Mk61Cannon => "Stock/Mk61 Cannon"@,
            ComponentKey::Mk62Cannon => "Stock/Mk62 Cannon"@,
            ComponentKey::Mk64Cannon => "Stock/Mk64 Cannon"@,
            ComponentKey::Mk65Cannon => "Stock/Mk65 Cannon"@,
            ComponentKey::Mk66Cannon => "Stock/Mk66 Cannon"@,
            ComponentKey::Mk68Cannon => "Stock/Mk68 Cannon"@,
            ComponentKey::Mk81Railgun => "Stock/Mk81 Railgun"@,
            ComponentKey::Mk90AuroraPDT => "Stock/Mk90 'Aurora' PDT"@,
            ComponentKey::Mk95SarissaPDT => "Stock/Mk95 'Sarissa' PDT"@,
            ComponentKey::MountGyros => "Stock/Mount Gyros"@,
            ComponentKey::P11PavisePDT => "Stock/P11 PDT"@,
            ComponentKey::P20BastionPDT => "Stock/P20 Flak PDT"@,
            ComponentKey::P60GrazerPDT => "Stock/P60 Laser PDT"@,
            ComponentKey::PlantControlCenter => "Stock/Plant Control Center"@,
            ComponentKey::R400BloodhoundLRTRadar => "Stock/R400 Radar"@,
            ComponentKey::R550EarlyWarningRadar => "Stock/R550 Early Warning Radar"@,
            ComponentKey::RF101BullseyeRadar => "Stock/RF101 'Bullseye' Radar"@,
            ComponentKey::RF44PinpointRadar => "Stock/RF44 'Pinpoint' Radar"@,
            ComponentKey::RL18Launcher => "Stock/RL18 Launcher"@,
            ComponentKey::RL36Launcher => "Stock/RL36 Launcher"@,
            ComponentKey::RM50ParallaxRadar => "Stock/RM50 'Parallax' Radar"@,
            ComponentKey::RS35FrontlineRadar => "Stock/RS35 'Frontline' Radar"@,
            ComponentKey::RS41SpyglassRadar => "Stock/RS41 'Spyglass' Radar"@,
            ComponentKey::RapidCycleCradle => "Stock/Rapid-Cycle Cradle"@,
            ComponentKey::RapidDCLocker => "Stock/Rapid DC Locker"@,
            ComponentKey::RedundantReactorFailsafes => "Stock/Redundant Reactor Failsafes"@,
            ComponentKey::ReinforcedCIC => "Stock/Reinforced CIC"@,
            ComponentKey::ReinforcedDCLocker => "Stock/Reinforced DC Locker"@,
            ComponentKey::ReinforcedMagazine => "Stock/Reinforced Magazine"@,
            ComponentKey::ReinforcedThrusterNozzles => "Stock/Reinforced Thruster Nozzles"@,
            ComponentKey::SignatureScrambler => "Stock/Signature Scrambler"@,
            ComponentKey::SmallDCLocker => "Stock/Small DC Locker"@,
            ComponentKey::SmallEnergyRegulator => "Stock/Small Energy Regulator"@,
            ComponentKey::SmallReactorBooster => "Stock/Small Reactor Booster"@,
            ComponentKey::SmallWorkshop => "Stock/Small Workshop"@,
            ComponentKey::StrikePlanningCenter => "Stock/Strike Planning Center"@,
            ComponentKey::StrobeCorrelator => "Stock/Strobe Correlator"@,
            ComponentKey::SundriveRacingPro => "Stock/Sundrive Racing Pro"@,
            ComponentKey::SupplementaryRadioAmplifiers => "Stock/Supplementary Radio Amplifiers"@,
            ComponentKey::T20Cannon => "Stock/T20 Cannon"@,
            ComponentKey::T30Cannon => "Stock/T30 Cannon"@,
            ComponentKey::T81PlasmaCannon => "Stock/T81 Plasma Cannon"@,
            ComponentKey::TE45MassDriver => "Stock/TE45 Mass Driver"@,
            ComponentKey::TLS3Launcher => "Stock/Torpedo Turret"@,
            ComponentKey::TrackCorrelator => "Stock/Track Correlator"@,
            ComponentKey::VLS123Launcher => "Stock/VLS-1-23 Launcher"@,
            ComponentKey::VLS146Launcher => "Stock/VLS-1-46 Launcher"@,
            ComponentKey::VLS2Launcher => "Stock/VLS-2 Launcher"@,
            ComponentKey::VLS3Launcher => "Stock/VLS-3 Launcher"@,
        }
    }

    /// The key under which fleet files name this component.
    pub fn save_key(self) -> (r: &'static str)
        ensures
            r@ == self.spec_save_key(),
    {
        match self {
            ComponentKey::ActivelyCooledAmplifiers => "Stock/Actively Cooled Amplifiers",
            ComponentKey::AdaptiveRadarReceiver => "Stock/Adaptive Radar Receiver",
            ComponentKey::AmmunitionElevators => "Stock/Ammunition Elevators",
            ComponentKey::AnalysisAnnex => "Stock/Analysis Annex",
            ComponentKey::AuxiliarySteering => "Stock/Auxiliary Steering",
            ComponentKey::BW1500Drive => "Stock/BW1500 Drive",
            ComponentKey::BW1500RDrive => "Stock/BW1500-R Drive",
            ComponentKey::BW2000Drive => "Stock/BW2000 Drive",
            ComponentKey::BW800Drive => "Stock/BW800 Drive",
            ComponentKey::BW800RDrive => "Stock/BW800-R Drive",
            ComponentKey::BasicCIC => "Stock/Basic CIC",
            ComponentKey::BattleDressingStation => "Stock/Battle Dressing Station",
            ComponentKey::Berthing => "Stock/Berthing",
            ComponentKey::BoostedReactor => "Stock/Boosted Reactor",
            ComponentKey::BulkMagazine => "Stock/Bulk Magazine",
            ComponentKey::BulwarkHuntress => "Stock/Bulwark Huntress",
            ComponentKey::C30Cannon => "Stock/C30 Cannon",
            ComponentKey::C53Cannon => "Stock/C53 Cannon",
            ComponentKey::C56Cannon => "Stock/C54 Cannon",
            ComponentKey::C65Cannon => "Stock/C65 Cannon",
            ComponentKey::C81PlasmaCannon => "Stock/C81 Plasma Cannon",
            ComponentKey::C90Cannon => "Stock/C90 Cannon",
            ComponentKey::CHI7700Drive => "Stock/CHI-7700 Drive",
            ComponentKey::CHI777YardDrive => "Stock/CHI-777 Yard Drive",
            ComponentKey::CHI9100LongHaulDrive => "Stock/CHI-9100 Long Haul Drive",
            ComponentKey::CLS3Launcher => "Stock/CLS-3 Launcher",
            ComponentKey::CR10Antenna => "Stock/CR10 Antenna",
            ComponentKey::CR70Antenna => "Stock/CR70 Antenna",
            ComponentKey::CitadelCIC => "Stock/Citadel CIC",
            ComponentKey::CitadelMagazine => "Stock/Citadel Magazine",
            ComponentKey::CivilianReactor => "Stock/Civilian Reactor",
            ComponentKey::ContainerBankLauncher => "Stock/Container Bank Launcher",
            ComponentKey::ContainerStackLauncher => "Stock/Container Stack Launcher",
            ComponentKey::DamageControlCentral => "Stock/Damage Control Central",
            ComponentKey::DamageControlComplex => "Stock/Damage Control Complex",
            ComponentKey::E15MasqueradeDeceptionModule => "Stock/E15 'Masquerade' Signature Booster",
            ComponentKey::E20LighthouseIlluminator => "Stock/E20 'Lighthouse' Illuminator",
            ComponentKey::E55SpotlightIlluminator => "Stock/E55 'Spotlight' Illuminator",
            ComponentKey::E57FloodlightIlluminator => "Stock/E57 'Floodlight' Illuminator",
            ComponentKey::E70InterruptionJammer => "Stock/E70 'Interruption' Jammer",
            ComponentKey::E71HangupJammer => "Stock/E71 'Hangup' Jammer",
            ComponentKey::E90BlanketJammer => "Stock/E90 'Blanket' Jammer",
            ComponentKey::ES22PinardElectronicSupportModule => "Stock/ES22 'Pinard' Electronic Support Module",
            ComponentKey::ES32ScryerMissileIDSystem => "Stock/ES32 'Scryer' Missile ID System",
            ComponentKey::EnergyRegulator => "Stock/Energy Regulator",
            ComponentKey::FM200Drive => "Stock/FM200 Drive",
            ComponentKey::FM200RDrive => "Stock/FM200R Drive",
            ComponentKey::FM230WhiplashDrive => "Stock/FM230 'Whiplash' Drive",
            ComponentKey::FM240DragonflyDrive => "Stock/FM240 'Dragonfly' Drive",
            ComponentKey::FM280RaiderDrive => "Stock/FM280 'Raider' Drive",
            ComponentKey::FM30XProwlerDrive => "Stock/FM30X 'Prowler' Drive",
            ComponentKey::FM500Drive => "Stock/FM500 Drive",
            ComponentKey::FM500RDrive => "Stock/FM500R Drive",
            ComponentKey::FM530WhiplashDrive => "Stock/FM530 'Whiplash' Drive",
            ComponentKey::FM540DragonflyDrive => "Stock/FM540 'Dragonfly' Drive",
            ComponentKey::FM580RaiderDrive => "Stock/FM580 'Raider' Drive",
            ComponentKey::FR3300MicroReactor => "Stock/FR3300 Micro Reactor",
            ComponentKey::FR4800Reactor => "Stock/FR4800 Reactor",
            ComponentKey::FocusedParticleAccelerator => "Stock/Focused Particle Accelerator",
            ComponentKey::GunPlottingCenter => "Stock/Gun Plotting Center",
            ComponentKey::IntelligenceCenter => "Stock/Intelligence Center",
            ComponentKey::IthacaBridgemaster => "Stock/Ithaca Bridgemaster",
            ComponentKey::J15BellbirdJammer => "Stock/J15 Jammer",
            ComponentKey::J360LyrebirdJammer => "Stock/J360 Jammer",
            ComponentKey::JuryRiggedReactor => "Stock/Jury-Rigged Reactor",
            ComponentKey::L50BlackjackLaserDazzler => "Stock/L50 Laser Dazzler",
            ComponentKey::LargeDCLocker => "Stock/Large DC Locker",
            ComponentKey::LargeDCStorage => "Stock/Large DC Storage",
            ComponentKey::LauncherDelugeSystem => "Stock/Launcher Deluge System",
            ComponentKey::LightCivilianReactor => "Stock/Light Civilian Reactor",
            ComponentKey::ML9MineLauncher => "Stock/ML-9 Mine Launcher",
            ComponentKey::MLS2Launcher => "Stock/MLS-2 Launcher",
            ComponentKey::MLS3Launcher => "Stock/MLS-3 Launcher",
            ComponentKey::MagazineSprinklers => "Stock/Magazine Sprinklers",
            ComponentKey::MissileParallelInterface => "Stock/Missile Parallel Interface",
            ComponentKey::MissileProgrammingBus => "Stock/Missile Programming Bus",
            ComponentKey::MissileProgrammingBusArray => "Stock/Missile Programming Bus Array",
            ComponentKey::Mk20DefenderPDT => "Stock/Mk20 'Defender' PDT",
            ComponentKey::Mk25ReboundPDT => "Stock/Mk25 'Rebound' PDT",
            ComponentKey::Mk29StonewallPDT => "Stock/Mk29 'Stonewall' PDT",
            ComponentKey::Mk550Railgun => "Stock/Mk550 Mass Driver",
            ComponentKey::Mk600BeamCannon => "Stock/Mk600 Beam Cannon",
            ComponentKey::Mk610BeamTurret => "Stock/Mk610 Beam Turret",
            ComponentKey::Mk61Cannon => "Stock/Mk61 Cannon",
            ComponentKey::Mk62Cannon => "Stock/Mk62 Cannon",
            ComponentKey::Mk64Cannon => "Stock/Mk64 Cannon",
            ComponentKey::Mk65Cannon => "Stock/Mk65 Cannon",
            ComponentKey::Mk66Cannon => "Stock/Mk66 Cannon",
            ComponentKey::Mk68Cannon => "Stock/Mk68 Cannon",
            ComponentKey::Mk81Railgun => "Stock/Mk81 Railgun",
            ComponentKey::Mk90AuroraPDT => "Stock/Mk90 'Aurora' PDT",
            ComponentKey::Mk95SarissaPDT => "Stock/Mk95 'Sarissa' PDT",
            ComponentKey::MountGyros => "Stock/Mount Gyros",
            ComponentKey::P11PavisePDT => "Stock/P11 PDT",
            ComponentKey::P20BastionPDT => "Stock/P20 Flak PDT",
            ComponentKey::P60GrazerPDT => "Stock/P60 Laser PDT",
            ComponentKey::PlantControlCenter => "Stock/Plant Control Center",
            ComponentKey::R400BloodhoundLRTRadar => "Stock/R400 Radar",
            ComponentKey::R550EarlyWarningRadar => "Stock/R550 Early Warning Radar",
            ComponentKey::RF101BullseyeRadar => "Stock/RF101 'Bullseye' Radar",
            ComponentKey::RF44PinpointRadar => "Stock/RF44 'Pinpoint' Radar",
            ComponentKey::RL18Launcher => "Stock/RL18 Launcher",
            ComponentKey::RL36Launcher => "Stock/RL36 Launcher",
            ComponentKey::RM50ParallaxRadar => "Stock/RM50 'Parallax' Radar",
            ComponentKey::RS35FrontlineRadar => "Stock/RS35 'Frontline' Radar",
            ComponentKey::RS41SpyglassRadar => "Stock/RS41 'Spyglass' Radar",
            ComponentKey::RapidCycleCradle => "Stock/Rapid-Cycle Cradle",
            ComponentKey::RapidDCLocker => "Stock/Rapid DC Locker",
            ComponentKey::RedundantReactorFailsafes => "Stock/Redundant Reactor Failsafes",
            ComponentKey::ReinforcedCIC => "Stock/Reinforced CIC",
            ComponentKey::ReinforcedDCLocker => "Stock/Reinforced DC Locker",
            ComponentKey::ReinforcedMagazine => "Stock/Reinforced Magazine",
            ComponentKey::ReinforcedThrusterNozzles => "Stock/Reinforced Thruster Nozzles",
            ComponentKey::SignatureScrambler => "Stock/Signature Scrambler",
            ComponentKey::SmallDCLocker => "Stock/Small DC Locker",
            ComponentKey::SmallEnergyRegulator => "Stock/Small Energy Regulator",
            ComponentKey::SmallReactorBooster => "Stock/Small Reactor Booster",
            ComponentKey::SmallWorkshop => "Stock/Small Workshop",
            ComponentKey::StrikePlanningCenter => "Stock/Strike Planning Center",
            ComponentKey::StrobeCorrelator => "Stock/Strobe Correlator",
            ComponentKey::SundriveRacingPro => "Stock/Sundrive Racing Pro",
            ComponentKey::SupplementaryRadioAmplifiers => "Stock/Supplementary Radio Amplifiers",
            ComponentKey::T20Cannon => "Stock/T20 Cannon",
            ComponentKey::T30Cannon => "Stock/T30 Cannon",
            ComponentKey::T81PlasmaCannon => "Stock/T81 Plasma Cannon",
            ComponentKey::TE45MassDriver => "Stock/TE45 Mass Driver",
            ComponentKey::TLS3Launcher => "Stock/Torpedo Turret",
            ComponentKey::TrackCorrelator => "Stock/Track Correlator",
            ComponentKey::VLS123Launcher => "Stock/VLS-1-23 Launcher",
            ComponentKey::VLS146Launcher => "Stock/VLS-1-46 Launcher",
            ComponentKey::VLS2Launcher => "Stock/VLS-2 Launcher",
            ComponentKey::VLS3Launcher => "Stock/VLS-3 Launcher",
        }
    }

    /// What [`ComponentKey::from_str`] gives for the text `s`: the value whose
    /// `save_key` is `s`, or the error when there is none.
    pub open spec fn spec_from_str(s: Seq<char>) -> Result<ComponentKey, InvalidKey> {
        if exists|k: ComponentKey| k.spec_save_key() == s {
            Ok(choose|k: ComponentKey| k.spec_save_key() == s)
        } else {
            Err(InvalidKey::Component)
        }
    }

    /// Parses the text that [`ComponentKey::save_key`] gives.
    pub fn from_str(s: &str) -> (r: Result<ComponentKey, InvalidKey>)
        ensures
            r == Self::spec_from_str(s@),
    {
        proof { lemma_component_key_save_key_injective(); }
        let chars = chars_of(s);
        if chars_eq_str(&chars, "Stock/Actively Cooled Amplifiers") {
            proof { assert(ComponentKey::ActivelyCooledAmplifiers.spec_save_key() == s@); }
            return Ok(ComponentKey::ActivelyCooledAmplifiers);
        }
        if chars_eq_str(&chars, "Stock/Adaptive Radar Receiver") {
            proof { assert(ComponentKey::AdaptiveRadarReceiver.spec_save_key() == s@); }
            return Ok(ComponentKey::AdaptiveRadarReceiver);
        }
        if chars_eq_str(&chars, "Stock/Ammunition Elevators") {
            proof { assert(ComponentKey::AmmunitionElevators.spec_save_key() == s@); }
            return Ok(ComponentKey::AmmunitionElevators);
        }
        if chars_eq_str(&chars, "Stock/Analysis Annex") {
            proof { assert(ComponentKey::AnalysisAnnex.spec_save_key() == s@); }
            return Ok(ComponentKey::AnalysisAnnex);
        }
        if chars_eq_str(&chars, "Stock/Auxiliary Steering") {
            proof { assert(ComponentKey::AuxiliarySteering.spec_save_key() == s@); }
            return Ok(ComponentKey::AuxiliarySteering);
        }
        if chars_eq_str(&chars, "Stock/BW1500 Drive") {
            proof { assert(ComponentKey::BW1500Drive.spec_save_key() == s@); }
            return Ok(ComponentKey::BW1500Drive);
        }
        if chars_eq_str(&chars, "Stock/BW1500-R Drive") {
            proof { assert(ComponentKey::BW1500RDrive.spec_save_key() == s@); }
            return Ok(ComponentKey::BW1500RDrive);
        }
        if chars_eq_str(&chars, "Stock/BW2000 Drive") {
            proof { assert(ComponentKey::BW2000Drive.spec_save_key() == s@); }
            return Ok(ComponentKey::BW2000Drive);
        }
        if chars_eq_str(&chars, "Stock/BW800 Drive") {
            proof { assert(ComponentKey::BW800Drive.spec_save_key() == s@); }
            return Ok(ComponentKey::BW800Drive);
        }
        if chars_eq_str(&chars, "Stock/BW800-R Drive") {
            proof { assert(ComponentKey::BW800RDrive.spec_save_key() == s@); }
            return Ok(ComponentKey::BW800RDrive);
        }
        if chars_eq_str(&chars, "Stock/Basic CIC") {
            proof { assert(ComponentKey::BasicCIC.spec_save_key() == s@); }
            return Ok(ComponentKey::BasicCIC);
        }
        if chars_eq_str(&chars, "Stock/Battle Dressing Station") {
            proof { assert(ComponentKey::BattleDressingStation.spec_save_key() == s@); }
            return Ok(ComponentKey::BattleDressingStation);
        }
        if chars_eq_str(&chars, "Stock/Berthing") {
            proof { assert(ComponentKey::Berthing.spec_save_key() == s@); }
            return Ok(ComponentKey::Berthing);
        }
        if chars_eq_str(&chars, "Stock/Boosted Reactor") {
            proof { assert(ComponentKey::BoostedReactor.spec_save_key() == s@); }
            return Ok(ComponentKey::BoostedReactor);
        }
        if chars_eq_str(&chars, "Stock/Bulk Magazine") {
            proof { assert(ComponentKey::BulkMagazine.spec_save_key() == s@); }
            return Ok(ComponentKey::BulkMagazine);
        }
        if chars_eq_str(&chars, "Stock/Bulwark Huntress") {
            proof { assert(ComponentKey::BulwarkHuntress.spec_save_key() == s@); }
            return Ok(ComponentKey::BulwarkHuntress);
        }
        if chars_eq_str(&chars, "Stock/C30 Cannon") {
            proof { assert(ComponentKey::C30Cannon.spec_save_key() == s@); }
            return Ok(ComponentKey::C30Cannon);
        }
        if chars_eq_str(&chars, "Stock/C53 Cannon") {
            proof { assert(ComponentKey::C53Cannon.spec_save_key() == s@); }
            return Ok(ComponentKey::C53Cannon);
        }
        if chars_eq_str(&chars, "Stock/C54 Cannon") {
            proof { assert(ComponentKey::C56Cannon.spec_save_key() == s@); }
            return Ok(ComponentKey::C56Cannon);
        }
        if chars_eq_str(&chars, "Stock/C65 Cannon") {
            proof { assert(ComponentKey::C65Cannon.spec_save_key() == s@); }
            return Ok(ComponentKey::C65Cannon);
        }
        if chars_eq_str(&chars, "Stock/C81 Plasma Cannon") {
            proof { assert(ComponentKey::C81PlasmaCannon.spec_save_key() == s@); }
            return Ok(ComponentKey::C81PlasmaCannon);
        }
        if chars_eq_str(&chars, "Stock/C90 Cannon") {
            proof { assert(ComponentKey::C90Cannon.spec_save_key() == s@); }
            return Ok(ComponentKey::C90Cannon);
        }
        if chars_eq_str(&chars, "Stock/CHI-7700 Drive") {
            proof { assert(ComponentKey::CHI7700Drive.spec_save_key() == s@); }
            return Ok(ComponentKey::CHI7700Drive);
        }
        if chars_eq_str(&chars, "Stock/CHI-777 Yard Drive") {
            proof { assert(ComponentKey::CHI777YardDrive.spec_save_key() == s@); }
            return Ok(ComponentKey::CHI777YardDrive);
        }
        if chars_eq_str(&chars, "Stock/CHI-9100 Long Haul Drive") {
            proof { assert(ComponentKey::CHI9100LongHaulDrive.spec_save_key() == s@); }
            return Ok(ComponentKey::CHI9100LongHaulDrive);
        }
        if chars_eq_str(&chars, "Stock/CLS-3 Launcher") {
            proof { assert(ComponentKey::CLS3Launcher.spec_save_key() == s@); }
            return Ok(ComponentKey::CLS3Launcher);
        }
        if chars_eq_str(&chars, "Stock/CR10 Antenna") {
            proof { assert(ComponentKey::CR10Antenna.spec_save_key() == s@); }
            return Ok(ComponentKey::CR10Antenna);
        }
        if chars_eq_str(&chars, "Stock/CR70 Antenna") {
            proof { assert(ComponentKey::CR70Antenna.spec_save_key() == s@); }
            return Ok(ComponentKey::CR70Antenna);
        }
        if chars_eq_str(&chars, "Stock/Citadel CIC") {
            proof { assert(ComponentKey::CitadelCIC.spec_save_key() == s@); }
            return Ok(ComponentKey::CitadelCIC);
        }
        if chars_eq_str(&chars, "Stock/Citadel Magazine") {
            proof { assert(ComponentKey::CitadelMagazine.spec_save_key() == s@); }
            return Ok(ComponentKey::CitadelMagazine);
        }
        if chars_eq_str(&chars, "Stock/Civilian Reactor") {
            proof { assert(ComponentKey::CivilianReactor.spec_save_key() == s@); }
            return Ok(ComponentKey::CivilianReactor);
        }
        if chars_eq_str(&chars, "Stock/Container Bank Launcher") {
            proof { assert(ComponentKey::ContainerBankLauncher.spec_save_key() == s@); }
            return Ok(ComponentKey::ContainerBankLauncher);
        }
        if chars_eq_str(&chars, "Stock/Container Stack Launcher") {
            proof { assert(ComponentKey::ContainerStackLauncher.spec_save_key() == s@); }
            return Ok(ComponentKey::ContainerStackLauncher);
        }
        if chars_eq_str(&chars, "Stock/Damage Control Central") {
            proof { assert(ComponentKey::DamageControlCentral.spec_save_key() == s@); }
            return Ok(ComponentKey::DamageControlCentral);
        }
        if chars_eq_str(&chars, "Stock/Damage Control Complex") {
            proof { assert(ComponentKey::DamageControlComplex.spec_save_key() == s@); }
            return Ok(ComponentKey::DamageControlComplex);
        }
        if chars_eq_str(&chars, "Stock/E15 'Masquerade' Signature Booster") {
            proof { assert(ComponentKey::E15MasqueradeDeceptionModule.spec_save_key() == s@); }
            return Ok(ComponentKey::E15MasqueradeDeceptionModule);
        }
        if chars_eq_str(&chars, "Stock/E20 'Lighthouse' Illuminator") {
            proof { assert(ComponentKey::E20LighthouseIlluminator.spec_save_key() == s@); }
            return Ok(ComponentKey::E20LighthouseIlluminator);
        }
        if chars_eq_str(&chars, "Stock/E55 'Spotlight' Illuminator") {
            proof { assert(ComponentKey::E55SpotlightIlluminator.spec_save_key() == s@); }
            return Ok(ComponentKey::E55SpotlightIlluminator);
        }
        if chars_eq_str(&chars, "Stock/E57 'Floodlight' Illuminator") {
            proof { assert(ComponentKey::E57FloodlightIlluminator.spec_save_key() == s@); }
            return Ok(ComponentKey::E57FloodlightIlluminator);
        }
        if chars_eq_str(&chars, "Stock/E70 'Interruption' Jammer") {
            proof { assert(ComponentKey::E70InterruptionJammer.spec_save_key() == s@); }
            return Ok(ComponentKey::E70InterruptionJammer);
        }
        if chars_eq_str(&chars, "Stock/E71 'Hangup' Jammer") {
            proof { assert(ComponentKey::E71HangupJammer.spec_save_key() == s@); }
            return Ok(ComponentKey::E71HangupJammer);
        }
        if chars_eq_str(&chars, "Stock/E90 'Blanket' Jammer") {
            proof { assert(ComponentKey::E90BlanketJammer.spec_save_key() == s@); }
            return Ok(ComponentKey::E90BlanketJammer);
        }
        if chars_eq_str(&chars, "Stock/ES22 'Pinard' Electronic Support Module") {
            proof { assert(ComponentKey::ES22PinardElectronicSupportModule.spec_save_key() == s@); }
            return Ok(ComponentKey::ES22PinardElectronicSupportModule);
        }
        if chars_eq_str(&chars, "Stock/ES32 'Scryer' Missile ID System") {
            proof { assert(ComponentKey::ES32ScryerMissileIDSystem.spec_save_key() == s@); }
            return Ok(ComponentKey::ES32ScryerMissileIDSystem);
        }
        if chars_eq_str(&chars, "Stock/Energy Regulator") {
            proof { assert(ComponentKey::EnergyRegulator.spec_save_key() == s@); }
            return Ok(ComponentKey::EnergyRegulator);
        }
        if chars_eq_str(&chars, "Stock/FM200 Drive") {
            proof { assert(ComponentKey::FM200Drive.spec_save_key() == s@); }
            return Ok(ComponentKey::FM200Drive);
        }
        if chars_eq_str(&chars, "Stock/FM200R Drive") {
            proof { assert(ComponentKey::FM200RDrive.spec_save_key() == s@); }
            return Ok(ComponentKey::FM200RDrive);
        }
        if chars_eq_str(&chars, "Stock/FM230 'Whiplash' Drive") {
            proof { assert(ComponentKey::FM230WhiplashDrive.spec_save_key() == s@); }
            return Ok(ComponentKey::FM230WhiplashDrive);
        }
        if chars_eq_str(&chars, "Stock/FM240 'Dragonfly' Drive") {
            proof { assert(ComponentKey::FM240DragonflyDrive.spec_save_key() == s@); }
            return Ok(ComponentKey::FM240DragonflyDrive);
        }
        if chars_eq_str(&chars, "Stock/FM280 'Raider' Drive") {
            proof { assert(ComponentKey::FM280RaiderDrive.spec_save_key() == s@); }
            return Ok(ComponentKey::FM280RaiderDrive);
        }
        if chars_eq_str(&chars, "Stock/FM30X 'Prowler' Drive") {
            proof { assert(ComponentKey::FM30XProwlerDrive.spec_save_key() == s@); }
            return Ok(ComponentKey::FM30XProwlerDrive);
        }
        if chars_eq_str(&chars, "Stock/FM500 Drive") {
            proof { assert(ComponentKey::FM500Drive.spec_save_key() == s@); }
            return Ok(ComponentKey::FM500Drive);
        }
        if chars_eq_str(&chars, "Stock/FM500R Drive") {
            proof { assert(ComponentKey::FM500RDrive.spec_save_key() == s@); }
            return Ok(ComponentKey::FM500RDrive);
        }
        if chars_eq_str(&chars, "Stock/FM530 'Whiplash' Drive") {
            proof { assert(ComponentKey::FM530WhiplashDrive.spec_save_key() == s@); }
            return Ok(ComponentKey::FM530WhiplashDrive);
        }
        if chars_eq_str(&chars, "Stock/FM540 'Dragonfly' Drive") {
            proof { assert(ComponentKey::FM540DragonflyDrive.spec_save_key() == s@); }
            return Ok(ComponentKey::FM540DragonflyDrive);
        }
        if chars_eq_str(&chars, "Stock/FM580 'Raider' Drive") {
            proof { assert(ComponentKey::FM580RaiderDrive.spec_save_key() == s@); }
            return Ok(ComponentKey::FM580RaiderDrive);
        }
        if chars_eq_str(&chars, "Stock/FR3300 Micro Reactor") {
            proof { assert(ComponentKey::FR3300MicroReactor.spec_save_key() == s@); }
            return Ok(ComponentKey::FR3300MicroReactor);
        }
        if chars_eq_str(&chars, "Stock/FR4800 Reactor") {
            proof { assert(ComponentKey::FR4800Reactor.spec_save_key() == s@); }
            return Ok(ComponentKey::FR4800Reactor);
        }
        if chars_eq_str(&chars, "Stock/Focused Particle Accelerator") {
            proof { assert(ComponentKey::FocusedParticleAccelerator.spec_save_key() == s@); }
            return Ok(ComponentKey::FocusedParticleAccelerator);
        }
        if chars_eq_str(&chars, "Stock/Gun Plotting Center") {
            proof { assert(ComponentKey::GunPlottingCenter.spec_save_key() == s@); }
            return Ok(ComponentKey::GunPlottingCenter);
        }
        if chars_eq_str(&chars, "Stock/Intelligence Center") {
            proof { assert(ComponentKey::IntelligenceCenter.spec_save_key() == s@); }
            return Ok(ComponentKey::IntelligenceCenter);
        }
        if chars_eq_str(&chars, "Stock/Ithaca Bridgemaster") {
            proof { assert(ComponentKey::IthacaBridgemaster.spec_save_key() == s@); }
            return Ok(ComponentKey::IthacaBridgemaster);
        }
        if chars_eq_str(&chars, "Stock/J15 Jammer") {
            proof { assert(ComponentKey::J15BellbirdJammer.spec_save_key() == s@); }
            return Ok(ComponentKey::J15BellbirdJammer);
        }
        if chars_eq_str(&chars, "Stock/J360 Jammer") {
            proof { assert(ComponentKey::J360LyrebirdJammer.spec_save_key() == s@); }
            return Ok(ComponentKey::J360LyrebirdJammer);
        }
        if chars_eq_str(&chars, "Stock/Jury-Rigged Reactor") {
            proof { assert(ComponentKey::JuryRiggedReactor.spec_save_key() == s@); }
            return Ok(ComponentKey::JuryRiggedReactor);
        }
        if chars_eq_str(&chars, "Stock/L50 Laser Dazzler") {
            proof { assert(ComponentKey::L50BlackjackLaserDazzler.spec_save_key() == s@); }
            return Ok(ComponentKey::L50BlackjackLaserDazzler);
        }
        if chars_eq_str(&chars, "Stock/Large DC Locker") {
            proof { assert(ComponentKey::LargeDCLocker.spec_save_key() == s@); }
            return Ok(ComponentKey::LargeDCLocker);
        }
        if chars_eq_str(&chars, "Stock/Large DC Storage") {
            proof { assert(ComponentKey::LargeDCStorage.spec_save_key() == s@); }
            return Ok(ComponentKey::LargeDCStorage);
        }
        if chars_eq_str(&chars, "Stock/Launcher Deluge System") {
            proof { assert(ComponentKey::LauncherDelugeSystem.spec_save_key() == s@); }
            return Ok(ComponentKey::LauncherDelugeSystem);
        }
        if chars_eq_str(&chars, "Stock/Light Civilian Reactor") {
            proof { assert(ComponentKey::LightCivilianReactor.spec_save_key() == s@); }
            return Ok(ComponentKey::LightCivilianReactor);
        }
        if chars_eq_str(&chars, "Stock/ML-9 Mine Launcher") {
            proof { assert(ComponentKey::ML9MineLauncher.spec_save_key() == s@); }
            return Ok(ComponentKey::ML9MineLauncher);
        }
        if chars_eq_str(&chars, "Stock/MLS-2 Launcher") {
            proof { assert(ComponentKey::MLS2Launcher.spec_save_key() == s@); }
            return Ok(ComponentKey::MLS2Launcher);
        }
        if chars_eq_str(&chars, "Stock/MLS-3 Launcher") {
            proof { assert(ComponentKey::MLS3Launcher.spec_save_key() == s@); }
            return Ok(ComponentKey::MLS3Launcher);
        }
        if chars_eq_str(&chars, "Stock/Magazine Sprinklers") {
            proof { assert(ComponentKey::MagazineSprinklers.spec_save_key() == s@); }
            return Ok(ComponentKey::MagazineSprinklers);
        }
        if chars_eq_str(&chars, "Stock/Missile Parallel Interface") {
            proof { assert(ComponentKey::MissileParallelInterface.spec_save_key() == s@); }
            return Ok(ComponentKey::MissileParallelInterface);
        }
        if chars_eq_str(&chars, "Stock/Missile Programming Bus") {
            proof { assert(ComponentKey::MissileProgrammingBus.spec_save_key() == s@); }
            return Ok(ComponentKey::MissileProgrammingBus);
        }
        if chars_eq_str(&chars, "Stock/Missile Programming Bus Array") {
            proof { assert(ComponentKey::MissileProgrammingBusArray.spec_save_key() == s@); }
            return Ok(ComponentKey::MissileProgrammingBusArray);
        }
        if chars_eq_str(&chars, "Stock/Mk20 'Defender' PDT") {
            proof { assert(ComponentKey::Mk20DefenderPDT.spec_save_key() == s@); }
            return Ok(ComponentKey::Mk20DefenderPDT);
        }
        if chars_eq_str(&chars, "Stock/Mk25 'Rebound' PDT") {
            proof { assert(ComponentKey::Mk25ReboundPDT.spec_save_key() == s@); }
            return Ok(ComponentKey::Mk25ReboundPDT);
        }
        if chars_eq_str(&chars, "Stock/Mk29 'Stonewall' PDT") {
            proof { assert(ComponentKey::Mk29StonewallPDT.spec_save_key() == s@); }
            return Ok(ComponentKey::Mk29StonewallPDT);
        }
        if chars_eq_str(&chars, "Stock/Mk550 Mass Driver") {
            proof { assert(ComponentKey::Mk550Railgun.spec_save_key() == s@); }
            return Ok(ComponentKey::Mk550Railgun);
        }
        if chars_eq_str(&chars, "Stock/Mk600 Beam Cannon") {
            proof { assert(ComponentKey::Mk600BeamCannon.spec_save_key() == s@); }
            return Ok(ComponentKey::Mk600BeamCannon);
        }
        if chars_eq_str(&chars, "Stock/Mk610 Beam Turret") {
            proof { assert(ComponentKey::Mk610BeamTurret.spec_save_key() == s@); }
            return Ok(ComponentKey::Mk610BeamTurret);
        }
        if chars_eq_str(&chars, "Stock/Mk61 Cannon") {
            proof { assert(ComponentKey::Mk61Cannon.spec_save_key() == s@); }
            return Ok(ComponentKey::Mk61Cannon);
        }
        if chars_eq_str(&chars, "Stock/Mk62 Cannon") {
            proof { assert(ComponentKey::Mk62Cannon.spec_save_key() == s@); }
            return Ok(ComponentKey::Mk62Cannon);
        }
        if chars_eq_str(&chars, "Stock/Mk64 Cannon") {
            proof { assert(ComponentKey::Mk64Cannon.spec_save_key() == s@); }
            return Ok(ComponentKey::Mk64Cannon);
        }
        if chars_eq_str(&chars, "Stock/Mk65 Cannon") {
            proof { assert(ComponentKey::Mk65Cannon.spec_save_key() == s@); }
            return Ok(ComponentKey::Mk65Cannon);
        }
        if chars_eq_str(&chars, "Stock/Mk66 Cannon") {
            proof { assert(ComponentKey::Mk66Cannon.spec_save_key() == s@); }
            return Ok(ComponentKey::Mk66Cannon);
        }
        if chars_eq_str(&chars, "Stock/Mk68 Cannon") {
            proof { assert(ComponentKey::Mk68Cannon.spec_save_key() == s@); }
            return Ok(ComponentKey::Mk68Cannon);
        }
        if chars_eq_str(&chars, "Stock/Mk81 Railgun") {
            proof { assert(ComponentKey::Mk81Railgun.spec_save_key() == s@); }
            return Ok(ComponentKey::Mk81Railgun);
        }
        if chars_eq_str(&chars, "Stock/Mk90 'Aurora' PDT") {
            proof { assert(ComponentKey::Mk90AuroraPDT.spec_save_key() == s@); }
            return Ok(ComponentKey::Mk90AuroraPDT);
        }
        if chars_eq_str(&chars, "Stock/Mk95 'Sarissa' PDT") {
            proof { assert(ComponentKey::Mk95SarissaPDT.spec_save_key() == s@); }
            return Ok(ComponentKey::Mk95SarissaPDT);
        }
        if chars_eq_str(&chars, "Stock/Mount Gyros") {
            proof { assert(ComponentKey::MountGyros.spec_save_key() == s@); }
            return Ok(ComponentKey::MountGyros);
        }
        if chars_eq_str(&chars, "Stock/P11 PDT") {
            proof { assert(ComponentKey::P11PavisePDT.spec_save_key() == s@); }
            return Ok(ComponentKey::P11PavisePDT);
        }
        if chars_eq_str(&chars, "Stock/P20 Flak PDT") {
            proof { assert(ComponentKey::P20BastionPDT.spec_save_key() == s@); }
            return Ok(ComponentKey::P20BastionPDT);
        }
        if chars_eq_str(&chars, "Stock/P60 Laser PDT") {
            proof { assert(ComponentKey::P60GrazerPDT.spec_save_key() == s@); }
            return Ok(ComponentKey::P60GrazerPDT);
        }
        if chars_eq_str(&chars, "Stock/Plant Control Center") {
            proof { assert(ComponentKey::PlantControlCenter.spec_save_key() == s@); }
            return Ok(ComponentKey::PlantControlCenter);
        }
        if chars_eq_str(&chars, "Stock/R400 Radar") {
            proof { assert(ComponentKey::R400BloodhoundLRTRadar.spec_save_key() == s@); }
            return Ok(ComponentKey::R400BloodhoundLRTRadar);
        }
        if chars_eq_str(&chars, "Stock/R550 Early Warning Radar") {
            proof { assert(ComponentKey::R550EarlyWarningRadar.spec_save_key() == s@); }
            return Ok(ComponentKey::R550EarlyWarningRadar);
        }
        if chars_eq_str(&chars, "Stock/RF101 'Bullseye' Radar") {
            proof { assert(ComponentKey::RF101BullseyeRadar.spec_save_key() == s@); }
            return Ok(ComponentKey::RF101BullseyeRadar);
        }
        if chars_eq_str(&chars, "Stock/RF44 'Pinpoint' Radar") {
            proof { assert(ComponentKey::RF44PinpointRadar.spec_save_key() == s@); }
            return Ok(ComponentKey::RF44PinpointRadar);
        }
        if chars_eq_str(&chars, "Stock/RL18 Launcher") {
            proof { assert(ComponentKey::RL18Launcher.spec_save_key() == s@); }
            return Ok(ComponentKey::RL18Launcher);
        }
        if chars_eq_str(&chars, "Stock/RL36 Launcher") {
            proof { assert(ComponentKey::RL36Launcher.spec_save_key() == s@); }
            return Ok(ComponentKey::RL36Launcher);
        }
        if chars_eq_str(&chars, "Stock/RM50 'Parallax' Radar") {
            proof { assert(ComponentKey::RM50ParallaxRadar.spec_save_key() == s@); }
            return Ok(ComponentKey::RM50ParallaxRadar);
        }
        if chars_eq_str(&chars, "Stock/RS35 'Frontline' Radar") {
            proof { assert(ComponentKey::RS35FrontlineRadar.spec_save_key() == s@); }
            return Ok(ComponentKey::RS35FrontlineRadar);
        }
        if chars_eq_str(&chars, "Stock/RS41 'Spyglass' Radar") {
            proof { assert(ComponentKey::RS41SpyglassRadar.spec_save_key() == s@); }
            return Ok(ComponentKey::RS41SpyglassRadar);
        }
        if chars_eq_str(&chars, "Stock/Rapid-Cycle Cradle") {
            proof { assert(ComponentKey::RapidCycleCradle.spec_save_key() == s@); }
            return Ok(ComponentKey::RapidCycleCradle);
        }
        if chars_eq_str(&chars, "Stock/Rapid DC Locker") {
            proof { assert(ComponentKey::RapidDCLocker.spec_save_key() == s@); }
            return Ok(ComponentKey::RapidDCLocker);
        }
        if chars_eq_str(&chars, "Stock/Redundant Reactor Failsafes") {
            proof { assert(ComponentKey::RedundantReactorFailsafes.spec_save_key() == s@); }
            return Ok(ComponentKey::RedundantReactorFailsafes);
        }
        if chars_eq_str(&chars, "Stock/Reinforced CIC") {
            proof { assert(ComponentKey::ReinforcedCIC.spec_save_key() == s@); }
            return Ok(ComponentKey::ReinforcedCIC);
        }
        if chars_eq_str(&chars, "Stock/Reinforced DC Locker") {
            proof { assert(ComponentKey::ReinforcedDCLocker.spec_save_key() == s@); }
            return Ok(ComponentKey::ReinforcedDCLocker);
        }
        if chars_eq_str(&chars, "Stock/Reinforced Magazine") {
            proof { assert(ComponentKey::ReinforcedMagazine.spec_save_key() == s@); }
            return Ok(ComponentKey::ReinforcedMagazine);
        }
        if chars_eq_str(&chars, "Stock/Reinforced Thruster Nozzles") {
            proof { assert(ComponentKey::ReinforcedThrusterNozzles.spec_save_key() == s@); }
            return Ok(ComponentKey::ReinforcedThrusterNozzles);
        }
        if chars_eq_str(&chars, "Stock/Signature Scrambler") {
            proof { assert(ComponentKey::SignatureScrambler.spec_save_key() == s@); }
            return Ok(ComponentKey::SignatureScrambler);
        }
        if chars_eq_str(&chars, "Stock/Small DC Locker") {
            proof { assert(ComponentKey::SmallDCLocker.spec_save_key() == s@); }
            return Ok(ComponentKey::SmallDCLocker);
        }
        if chars_eq_str(&chars, "Stock/Small Energy Regulator") {
            proof { assert(ComponentKey::SmallEnergyRegulator.spec_save_key() == s@); }
            return Ok(ComponentKey::SmallEnergyRegulator);
        }
        if chars_eq_str(&chars, "Stock/Small Reactor Booster") {
            proof { assert(ComponentKey::SmallReactorBooster.spec_save_key() == s@); }
            return Ok(ComponentKey::SmallReactorBooster);
        }
        if chars_eq_str(&chars, "Stock/Small Workshop") {
            proof { assert(ComponentKey::SmallWorkshop.spec_save_key() == s@); }
            return Ok(ComponentKey::SmallWorkshop);
        }
        if chars_eq_str(&chars, "Stock/Strike Planning Center") {
            proof { assert(ComponentKey::StrikePlanningCenter.spec_save_key() == s@); }
            return Ok(ComponentKey::StrikePlanningCenter);
        }
        if chars_eq_str(&chars, "Stock/Strobe Correlator") {
            proof { assert(ComponentKey::StrobeCorrelator.spec_save_key() == s@); }
            return Ok(ComponentKey::StrobeCorrelator);
        }
        if chars_eq_str(&chars, "Stock/Sundrive Racing Pro") {
            proof { assert(ComponentKey::SundriveRacingPro.spec_save_key() == s@); }
            return Ok(ComponentKey::SundriveRacingPro);
        }
        if chars_eq_str(&chars, "Stock/Supplementary Radio Amplifiers") {
            proof { assert(ComponentKey::SupplementaryRadioAmplifiers.spec_save_key() == s@); }
            return Ok(ComponentKey::SupplementaryRadioAmplifiers);
        }
        if chars_eq_str(&chars, "Stock/T20 Cannon") {
            proof { assert(ComponentKey::T20Cannon.spec_save_key() == s@); }
            return Ok(ComponentKey::T20Cannon);
        }
        if chars_eq_str(&chars, "Stock/T30 Cannon") {
            proof { assert(ComponentKey::T30Cannon.spec_save_key() == s@); }
            return Ok(ComponentKey::T30Cannon);
        }
        if chars_eq_str(&chars, "Stock/T81 Plasma Cannon") {
            proof { assert(ComponentKey::T81PlasmaCannon.spec_save_key() == s@); }
            return Ok(ComponentKey::T81PlasmaCannon);
        }
        if chars_eq_str(&chars, "Stock/TE45 Mass Driver") {
            proof { assert(ComponentKey::TE45MassDriver.spec_save_key() == s@); }
            return Ok(ComponentKey::TE45MassDriver);
        }
        if chars_eq_str(&chars, "Stock/Torpedo Turret") {
            proof { assert(ComponentKey::TLS3Launcher.spec_save_key() == s@); }
            return Ok(ComponentKey::TLS3Launcher);
        }
        if chars_eq_str(&chars, "Stock/Track Correlator") {
            proof { assert(ComponentKey::TrackCorrelator.spec_save_key() == s@); }
            return Ok(ComponentKey::TrackCorrelator);
        }
        if chars_eq_str(&chars, "Stock/VLS-1-23 Launcher") {
            proof { assert(ComponentKey::VLS123Launcher.spec_save_key() == s@); }
            return Ok(ComponentKey::VLS123Launcher);
        }
        if chars_eq_str(&chars, "Stock/VLS-1-46 Launcher") {
            proof { assert(ComponentKey::VLS146Launcher.spec_save_key() == s@); }
            return Ok(ComponentKey::VLS146Launcher);
        }
        if chars_eq_str(&chars, "Stock/VLS-2 Launcher") {
            proof { assert(ComponentKey::VLS2Launcher.spec_save_key() == s@); }
            return Ok(ComponentKey::VLS2Launcher);
        }
        if chars_eq_str(&chars, "Stock/VLS-3 Launcher") {
            proof { assert(ComponentKey::VLS3Launcher.spec_save_key() == s@); }
            return Ok(ComponentKey::VLS3Launcher);
        }
        Err(InvalidKey::Component)
    }
}

spec fn component_key_save_key_fingerprint(s: Seq<char>) -> int {
    s.len() as int
        + (if 8 < s.len() { s[8] as int } else { 0 }) * 2097152
        + (if 6 < s.len() { s[6] as int } else { 0 }) * 4398046511104
        + (if 9 < s.len() { s[9] as int } else { 0 }) * 9223372036854775808
        + (if 7 < s.len() { s[7] as int } else { 0 }) * 19342813113834066795298816
        + (if 10 < s.len() { s[10] as int } else { 0 }) * 40564819207303340847894502572032
        + (if 12 < s.len() { s[12] as int } else { 0 }) * 85070591730234615865843651857942052864
        + (if 22 < s.len() { s[22] as int } else { 0 }) * 178405961588244985132285746181186892047843328
}

spec fn component_key_from_save_key_fingerprint(n: int) -> Option<ComponentKey> {
    if n == 11596396690864617549518488273835522547907559456 {
        Some(ComponentKey::ActivelyCooledAmplifiers)
    } else if n == 18019012158747273187007862065790511776784187421 {
        Some(ComponentKey::AdaptiveRadarReceiver)
    } else if n == 20695101412429521114781758070917290860059033626 {
        Some(ComponentKey::AmmunitionElevators)
    } else if n == 8932417040019886460056472253519752069140 {
        Some(ComponentKey::AnalysisAnnex)
    } else if n == 19624664026558727200046669930349296509995974680 {
        Some(ComponentKey::AuxiliarySteering)
    } else if n == 2722260882480512483497100130425935757330 {
        Some(ComponentKey::BW1500Drive)
    } else if n == 3828178574973562489753067604579182444564 {
        Some(ComponentKey::BW1500RDrive)
    } else if n == 2722260882480512483450983270241663975442 {
        Some(ComponentKey::BW2000Drive)
    } else if n == 5784802184768958654621354737127590461457 {
        Some(ComponentKey::BW800Drive)
    } else if n == 6975790468992243276743165863138779201555 {
        Some(ComponentKey::BW800RDrive)
    } else if n == 5699733661844697039882764874658078523407 {
        Some(ComponentKey::BasicCIC)
    } else if n == 14807697534087650135838067342800295126005448733 {
        Some(ComponentKey::BattleDressingStation)
    } else if n == 9357769309068958929984658572694681288718 {
        Some(ComponentKey::Berthing)
    } else if n == 8507063878544636687088227197480383545365 {
        Some(ComponentKey::BoostedReactor)
    } else if n == 8251848695909235482814961046874268631059 {
        Some(ComponentKey::BulkMagazine)
    } else if n == 9102557249924830116301233143038613651478 {
        Some(ComponentKey::BulwarkHuntress)
    } else if n == 9357767808169681118330592250560428113936 {
        Some(ComponentKey::C30Cannon)
    } else if n == 9357767808169719803956819918694025003024 {
        Some(ComponentKey::C53Cannon)
    } else if n == 9357767808169719803956819918694027100176 {
        Some(ComponentKey::C56Cannon)
    } else if n == 9357767808169739146769933752760824496144 {
        Some(ComponentKey::C65Cannon)
    } else if n == 19624664026557591383928953163555527494956220439 {
        Some(ComponentKey::C81PlasmaCannon)
    } else if n == 9357767808169797175209275254961199906832 {
        Some(ComponentKey::C90Cannon)
    } else if n == 4083390634117710646203490012515855761428 {
        Some(ComponentKey::CHI7700Drive)
    } else if n == 21051908146297684474962675313775628783095644184 {
        Some(ComponentKey::CHI777YardDrive)
    } else if n == 20873501589215378507826493113370574674458574878 {
        Some(ComponentKey::CHI9100LongHaulDrive)
    } else if n == 6465367040305080432486204209227425120276 {
        Some(ComponentKey::CLS3Launcher)
    } else if n == 9357766388401608490067765382913170866194 {
        Some(ComponentKey::CR10Antenna)
    } else if n == 9357766388401608490067765382913183449106 {
        Some(ComponentKey::CR70Antenna)
    } else if n == 9187627963349290240116819149365778055185 {
        Some(ComponentKey::CitadelCIC)
    } else if n == 9187627963349290240116819149365778055190 {
        Some(ComponentKey::CitadelMagazine)
    } else if n == 8251851778835263124093052738379278450710 {
        Some(ComponentKey::CivilianReactor)
    } else if n == 17305387631828788673249624371986111027795197981 {
        Some(ComponentKey::ContainerBankLauncher)
    } else if n == 13558862438475643985471623702181186294790488094 {
        Some(ComponentKey::ContainerStackLauncher)
    } else if n == 18019004842675857044123174082113359806191370268 {
        Some(ComponentKey::DamageControlCentral)
    } else if n == 19803064458558306895446031543925228726669803548 {
        Some(ComponentKey::DamageControlComplex)
    } else if n == 5708999022672819385887765832651356569153306664 {
        Some(ComponentKey::E15MasqueradeDeceptionModule)
    } else if n == 5708999703237553227784035572514405499474542626 {
        Some(ComponentKey::E20LighthouseIlluminator)
    } else if n == 13023644723849739729908090666190133279426871329 {
        Some(ComponentKey::E55SpotlightIlluminator)
    } else if n == 5708999958449328418545911609386863273701277730 {
        Some(ComponentKey::E57FloodlightIlluminator)
    } else if n == 19624665132473620719372117169434412702893080607 {
        Some(ComponentKey::E70InterruptionJammer)
    } else if n == 19446258064967683241189825167285751657600647193 {
        Some(ComponentKey::E71HangupJammer)
    } else if n == 19446259000744192273809285317793590228551729178 {
        Some(ComponentKey::E90BlanketJammer)
    } else if n == 18019008926061379992950217288316290208341426221 {
        Some(ComponentKey::ES22PinardElectronicSupportModule)
    } else if n == 20516692643508584975506065332383862270839488549 {
        Some(ComponentKey::ES32ScryerMissileIDSystem)
    } else if n == 2722263113546013770445090655602259001366 {
        Some(ComponentKey::EnergyRegulator)
    } else if n == 5784802184768765226490216414051810934801 {
        Some(ComponentKey::FM200Drive)
    } else if n == 2722260882480319055319844947165897031698 {
        Some(ComponentKey::FM200RDrive)
    } else if n == 5708994088578864116194510286218606827586715676 {
        Some(ComponentKey::FM230WhiplashDrive)
    } else if n == 6957835819696579012120510518710287108776394781 {
        Some(ComponentKey::FM240DragonflyDrive)
    } else if n == 20338282938814952897041941519192792159783747610 {
        Some(ComponentKey::FM280RaiderDrive)
    } else if n == 12131608705757306173725089254705134610849726491 {
        Some(ComponentKey::FM30XProwlerDrive)
    } else if n == 5784802184768765226490216414051817226257 {
        Some(ComponentKey::FM500Drive)
    } else if n == 2722260882480319055319844947165903323154 {
        Some(ComponentKey::FM500RDrive)
    } else if n == 5708994088578864116194510286218606827593007132 {
        Some(ComponentKey::FM530WhiplashDrive)
    } else if n == 6957835819696579012120510518710287108782686237 {
        Some(ComponentKey::FM540DragonflyDrive)
    } else if n == 20338282938814952897041941519192792159790039066 {
        Some(ComponentKey::FM580RaiderDrive)
    } else if n == 17662192919497136008512058285021735923176439834 {
        Some(ComponentKey::FR3300MicroReactor)
    } else if n == 2722260882480415769459201093794715926548 {
        Some(ComponentKey::FR4800Reactor)
    } else if n == 5708999277887677504050623681131091797282390050 {
        Some(ComponentKey::FocusedParticleAccelerator)
    } else if n == 20695100987075345519187201362397670525259218969 {
        Some(ComponentKey::GunPlottingCenter)
    } else if n == 20695100476652930952581911605495341295196962841 {
        Some(ComponentKey::IntelligenceCenter)
    } else if n == 20695094266499369562198144510630640868231479321 {
        Some(ComponentKey::IthacaBridgemaster)
    } else if n == 9272697500393142267961906896616749531152 {
        Some(ComponentKey::J15BellbirdJammer)
    } else if n == 8251848695907958856605269083475605979153 {
        Some(ComponentKey::J360LyrebirdJammer)
    } else if n == 20695100476650375369107251371286207544239849497 {
        Some(ComponentKey::JuryRiggedReactor)
    } else if n == 20338289404181060209346324080761154310124863511 {
        Some(ComponentKey::L50BlackjackLaserDazzler)
    } else if n == 5784804334704570070336843522211779182613 {
        Some(ComponentKey::LargeDCLocker)
    } else if n == 5784804334704570070336843522211779182614 {
        Some(ComponentKey::LargeDCStorage)
    } else if n == 14807703403958114438653696300604454032822501404 {
        Some(ComponentKey::LauncherDelugeSystem)
    } else if n == 18019007820147094945139166899546509439401984028 {
        Some(ComponentKey::LightCivilianReactor)
    } else if n == 18019011052826173248680214307174387631670689816 {
        Some(ComponentKey::ML9MineLauncher)
    } else if n == 6465366999740261225182863405313387659284 {
        Some(ComponentKey::MLS2Launcher)
    } else if n == 6465367040305080432486204253207890231316 {
        Some(ComponentKey::MLS3Launcher)
    } else if n == 18019011478182782733988150381394354303626379289 {
        Some(ComponentKey::MagazineSprinklers)
    } else if n == 5708999362957863585977109616436547022076510240 {
        Some(ComponentKey::MissileParallelInterface)
    } else if n == 18732634558899747500633969087663190141569073181 {
        Some(ComponentKey::MissileProgrammingBus)
    } else if n == 18732634558899747500633969087663190141569073187 {
        Some(ComponentKey::MissileProgrammingBusArray)
    } else if n == 14272482711861134542821053724672851893781790745 {
        Some(ComponentKey::Mk20DefenderPDT)
    } else if n == 12131612363790478944518246938426595384670289944 {
        Some(ComponentKey::Mk25ReboundPDT)
    } else if n == 5708997831684251209990575978641007276309086234 {
        Some(ComponentKey::Mk29StonewallPDT)
    } else if n == 20338286171497438646537628786996499441208262679 {
        Some(ComponentKey::Mk550Railgun)
    } else if n == 19624661389367949673427711231874721251382525975 {
        Some(ComponentKey::Mk600BeamCannon)
    } else if n == 20695097158897419584221425718185214640524361751 {
        Some(ComponentKey::Mk610BeamTurret)
    } else if n == 8251848695909042054148867176447137021969 {
        Some(ComponentKey::Mk61Cannon)
    } else if n == 8251848695909042054158090548483991797777 {
        Some(ComponentKey::Mk62Cannon)
    } else if n == 8251848695909042054176537292557701349393 {
        Some(ComponentKey::Mk64Cannon)
    } else if n == 8251848695909042054185760664594556125201 {
        Some(ComponentKey::Mk65Cannon)
    } else if n == 8251848695909042054194984036631410901009 {
        Some(ComponentKey::Mk66Cannon)
    } else if n == 8251848695909042054213430780705120452625 {
        Some(ComponentKey::Mk68Cannon)
    } else if n == 8251848695909042054148867176447141216274 {
        Some(ComponentKey::Mk81Railgun)
    } else if n == 14986106303002339292646349111866643888161685527 {
        Some(ComponentKey::Mk90AuroraPDT)
    } else if n == 12131612448861070674752862804270247242627022872 {
        Some(ComponentKey::Mk95SarissaPDT)
    } else if n == 6040016718367832826932644481794314338321 {
        Some(ComponentKey::MountGyros)
    } else if n == 7145932950526192115135860713923484319757 {
        Some(ComponentKey::P11PavisePDT)
    } else if n == 8251850237371069391171533543198498488338 {
        Some(ComponentKey::P20BastionPDT)
    } else if n == 9783121131904285091829219700275652067347 {
        Some(ComponentKey::P60GrazerPDT)
    } else if n == 19624661474441299811387767109858943481520586778 {
        Some(ComponentKey::PlantControlCenter)
    } else if n == 8251848695907978199418382952726760783888 {
        Some(ComponentKey::R400BloodhoundLRTRadar)
    } else if n == 19624664026555644272548974311427344918829334558 {
        Some(ComponentKey::R550EarlyWarningRadar)
    } else if n == 5708994088578904680878317870092552920513904668 {
        Some(ComponentKey::RF101BullseyeRadar)
    } else if n == 14629295655884725275185331558840697639411908635 {
        Some(ComponentKey::RF44PinpointRadar)
    } else if n == 8251848695908442427006901946624688259091 {
        Some(ComponentKey::RL18Launcher)
    } else if n == 8251848695908442426988455202550982901779 {
        Some(ComponentKey::RL36Launcher)
    } else if n == 14629295655884725275320731213744047959561994267 {
        Some(ComponentKey::RM50ParallaxRadar)
    } else if n == 5708996725766558716476342171048049362790776860 {
        Some(ComponentKey::RS35FrontlineRadar)
    } else if n == 14629295911096500466140635699181379971012624411 {
        Some(ComponentKey::RS41SpyglassRadar)
    } else if n == 19267849551264160803803107773673977262486061080 {
        Some(ComponentKey::RapidCycleCradle)
    } else if n == 5784804294139750863051949444779261034517 {
        Some(ComponentKey::RapidDCLocker)
    } else if n == 20338287872911788269904742622614934007473766433 {
        Some(ComponentKey::RedundantReactorFailsafes)
    } else if n == 9698051594860258978786011322485041004564 {
        Some(ComponentKey::ReinforcedCIC)
    } else if n == 17662199895287848388355267657948824797777494042 {
        Some(ComponentKey::ReinforcedDCLocker)
    } else if n == 18732635664817318299148982135035946150064554009 {
        Some(ComponentKey::ReinforcedMagazine)
    } else if n == 20695101242288013135604125343029001962590830625 {
        Some(ComponentKey::ReinforcedThrusterNozzles)
    } else if n == 19267853804793625621231021706861563592744894489 {
        Some(ComponentKey::SignatureScrambler)
    } else if n == 5784804618658536635263712357245404577813 {
        Some(ComponentKey::SmallDCLocker)
    } else if n == 20873503375699873649248683432754875472944300060 {
        Some(ComponentKey::SmallEnergyRegulator)
    } else if n == 19803068712088096231504975211635228273903927323 {
        Some(ComponentKey::SmallReactorBooster)
    } else if n == 7401145861532994336714741742546303582228 {
        Some(ComponentKey::SmallWorkshop)
    } else if n == 11953202148675689809269801448266286589232021532 {
        Some(ComponentKey::StrikePlanningCenter)
    } else if n == 20338282343322839027114365844054671686086164503 {
        Some(ComponentKey::StrobeCorrelator)
    } else if n == 14272486965394047369920274501558685112901566489 {
        Some(ComponentKey::SundriveRacingPro)
    } else if n == 17840605431523378111539202923224933307626029092 {
        Some(ComponentKey::SupplementaryRadioAmplifiers)
    } else if n == 9357767808169661775517478491260423503888 {
        Some(ComponentKey::T20Cannon)
    } else if n == 9357767808169681118330592325327218802704 {
        Some(ComponentKey::T30Cannon)
    } else if n == 19624664026557591383928953163555602261746909207 {
        Some(ComponentKey::T81PlasmaCannon)
    } else if n == 8251848695908307027287435000842656153622 {
        Some(ComponentKey::TE45MassDriver)
    } else if n == 9442839779104929352034724612554486710292 {
        Some(ComponentKey::TLS3Launcher)
    } else if n == 5699733986363579526077086683893289975830 {
        Some(ComponentKey::TrackCorrelator)
    } else if n == 20338283874591502494422580432242954388264452119 {
        Some(ComponentKey::VLS123Launcher)
    } else if n == 20338284044732685954891812163930258104148557847 {
        Some(ComponentKey::VLS146Launcher)
    } else if n == 6465366999740261225182863444895806259220 {
        Some(ComponentKey::VLS2Launcher)
    } else if n == 6465367040305080432486204292790308831252 {
        Some(ComponentKey::VLS3Launcher)
    } else {
        None
    }
}

proof fn lemma_component_key_save_key_fingerprint(k: ComponentKey)
    ensures
        component_key_from_save_key_fingerprint(component_key_save_key_fingerprint(k.spec_save_key())) == Some(k),
{
    match k {
        ComponentKey::ActivelyCooledAmplifiers => {
            reveal_strlit("Stock/Actively Cooled Amplifiers");
        },
        ComponentKey::AdaptiveRadarReceiver => {
            reveal_strlit("Stock/Adaptive Radar Receiver");
        },
        ComponentKey::AmmunitionElevators => {
            reveal_strlit("Stock/Ammunition Elevators");
        },
        ComponentKey::AnalysisAnnex => {
            reveal_strlit("Stock/Analysis Annex");
        },
        ComponentKey::AuxiliarySteering => {
            reveal_strlit("Stock/Auxiliary Steering");
        },
        ComponentKey::BW1500Drive => {
            reveal_strlit("Stock/BW1500 Drive");
        },
        ComponentKey::BW1500RDrive => {
            reveal_strlit("Stock/BW1500-R Drive");
        },
        ComponentKey::BW2000Drive => {
            reveal_strlit("Stock/BW2000 Drive");
        },
        ComponentKey::BW800Drive => {
            reveal_strlit("Stock/BW800 Drive");
        },
        ComponentKey::BW800RDrive => {
            reveal_strlit("Stock/BW800-R Drive");
        },
        ComponentKey::BasicCIC => {
            reveal_strlit("Stock/Basic CIC");
        },
        ComponentKey::BattleDressingStation => {
            reveal_strlit("Stock/Battle Dressing Station");
        },
        ComponentKey::Berthing => {
            reveal_strlit("Stock/Berthing");
        },
        ComponentKey::BoostedReactor => {
            reveal_strlit("Stock/Boosted Reactor");
        },
        ComponentKey::BulkMagazine => {
            reveal_strlit("Stock/Bulk Magazine");
        },
        ComponentKey::BulwarkHuntress => {
            reveal_strlit("Stock/Bulwark Huntress");
        },
        ComponentKey::C30Cannon => {
            reveal_strlit("Stock/C30 Cannon");
        },
        ComponentKey::C53Cannon => {
            reveal_strlit("Stock/C53 Cannon");
        },
        ComponentKey::C56Cannon => {
            reveal_strlit("Stock/C54 Cannon");
        },
        ComponentKey::C65Cannon => {
            reveal_strlit("Stock/C65 Cannon");
        },
        ComponentKey::C81PlasmaCannon => {
            reveal_strlit("Stock/C81 Plasma Cannon");
        },
        ComponentKey::C90Cannon => {
            reveal_strlit("Stock/C90 Cannon");
        },
        ComponentKey::CHI7700Drive => {
            reveal_strlit("Stock/CHI-7700 Drive");
        },
        ComponentKey::CHI777YardDrive => {
            reveal_strlit("Stock/CHI-777 Yard Drive");
        },
        ComponentKey::CHI9100LongHaulDrive => {
            reveal_strlit("Stock/CHI-9100 Long Haul Drive");
        },
        ComponentKey::CLS3Launcher => {
            reveal_strlit("Stock/CLS-3 Launcher");
        },
        ComponentKey::CR10Antenna => {
            reveal_strlit("Stock/CR10 Antenna");
        },
        ComponentKey::CR70Antenna => {
            reveal_strlit("Stock/CR70 Antenna");
        },
        ComponentKey::CitadelCIC => {
            reveal_strlit("Stock/Citadel CIC");
        },
        ComponentKey::CitadelMagazine => {
            reveal_strlit("Stock/Citadel Magazine");
        },
        ComponentKey::CivilianReactor => {
            reveal_strlit("Stock/Civilian Reactor");
        },
        ComponentKey::ContainerBankLauncher => {
            reveal_strlit("Stock/Container Bank Launcher");
        },
        ComponentKey::ContainerStackLauncher => {
            reveal_strlit("Stock/Container Stack Launcher");
        },
        ComponentKey::DamageControlCentral => {
            reveal_strlit("Stock/Damage Control Central");
        },
        ComponentKey::DamageControlComplex => {
            reveal_strlit("Stock/Damage Control Complex");
        },
        ComponentKey::E15MasqueradeDeceptionModule => {
            reveal_strlit("Stock/E15 'Masquerade' Signature Booster");
        },
        ComponentKey::E20LighthouseIlluminator => {
            reveal_strlit("Stock/E20 'Lighthouse' Illuminator");
        },
        ComponentKey::E55SpotlightIlluminator => {
            reveal_strlit("Stock/E55 'Spotlight' Illuminator");
        },
        ComponentKey::E57FloodlightIlluminator => {
            reveal_strlit("Stock/E57 'Floodlight' Illuminator");
        },
        ComponentKey::E70InterruptionJammer => {
            reveal_strlit("Stock/E70 'Interruption' Jammer");
        },
        ComponentKey::E71HangupJammer => {
            reveal_strlit("Stock/E71 'Hangup' Jammer");
        },
        ComponentKey::E90BlanketJammer => {
            reveal_strlit("Stock/E90 'Blanket' Jammer");
        },
        ComponentKey::ES22PinardElectronicSupportModule => {
            reveal_strlit("Stock/ES22 'Pinard' Electronic Support Module");
        },
        ComponentKey::ES32ScryerMissileIDSystem => {
            reveal_strlit("Stock/ES32 'Scryer' Missile ID System");
        },
        ComponentKey::EnergyRegulator => {
            reveal_strlit("Stock/Energy Regulator");
        },
        ComponentKey::FM200Drive => {
            reveal_strlit("Stock/FM200 Drive");
        },
        ComponentKey::FM200RDrive => {
            reveal_strlit("Stock/FM200R Drive");
        },
        ComponentKey::FM230WhiplashDrive => {
            reveal_strlit("Stock/FM230 'Whiplash' Drive");
        },
        ComponentKey::FM240DragonflyDrive => {
            reveal_strlit("Stock/FM240 'Dragonfly' Drive");
        },
        ComponentKey::FM280RaiderDrive => {
            reveal_strlit("Stock/FM280 'Raider' Drive");
        },
        ComponentKey::FM30XProwlerDrive => {
            reveal_strlit("Stock/FM30X 'Prowler' Drive");
        },
        ComponentKey::FM500Drive => {
            reveal_strlit("Stock/FM500 Drive");
        },
        ComponentKey::FM500RDrive => {
            reveal_strlit("Stock/FM500R Drive");
        },
        ComponentKey::FM530WhiplashDrive => {
            reveal_strlit("Stock/FM530 'Whiplash' Drive");
        },
        ComponentKey::FM540DragonflyDrive => {
            reveal_strlit("Stock/FM540 'Dragonfly' Drive");
        },
        ComponentKey::FM580RaiderDrive => {
            reveal_strlit("Stock/FM580 'Raider' Drive");
        },
        ComponentKey::FR3300MicroReactor => {
            reveal_strlit("Stock/FR3300 Micro Reactor");
        },
        ComponentKey::FR4800Reactor => {
            reveal_strlit("Stock/FR4800 Reactor");
        },
        ComponentKey::FocusedParticleAccelerator => {
            reveal_strlit("Stock/Focused Particle Accelerator");
        },
        ComponentKey::GunPlottingCenter => {
            reveal_strlit("Stock/Gun Plotting Center");
        },
        ComponentKey::IntelligenceCenter => {
            reveal_strlit("Stock/Intelligence Center");
        },
        ComponentKey::IthacaBridgemaster => {
            reveal_strlit("Stock/Ithaca Bridgemaster");
        },
        ComponentKey::J15BellbirdJammer => {
            reveal_strlit("Stock/J15 Jammer");
        },
        ComponentKey::J360LyrebirdJammer => {
            reveal_strlit("Stock/J360 Jammer");
        },
        ComponentKey::JuryRiggedReactor => {
            reveal_strlit("Stock/Jury-Rigged Reactor");
        },
        ComponentKey::L50BlackjackLaserDazzler => {
            reveal_strlit("Stock/L50 Laser Dazzler");
        },
        ComponentKey::LargeDCLocker => {
            reveal_strlit("Stock/Large DC Locker");
        },
        ComponentKey::LargeDCStorage => {
            reveal_strlit("Stock/Large DC Storage");
        },
        ComponentKey::LauncherDelugeSystem => {
            reveal_strlit("Stock/Launcher Deluge System");
        },
        ComponentKey::LightCivilianReactor => {
            reveal_strlit("Stock/Light Civilian Reactor");
        },
        ComponentKey::ML9MineLauncher => {
            reveal_strlit("Stock/ML-9 Mine Launcher");
        },
        ComponentKey::MLS2Launcher => {
            reveal_strlit("Stock/MLS-2 Launcher");
        },
        ComponentKey::MLS3Launcher => {
            reveal_strlit("Stock/MLS-3 Launcher");
        },
        ComponentKey::MagazineSprinklers => {
            reveal_strlit("Stock/Magazine Sprinklers");
        },
        ComponentKey::MissileParallelInterface => {
            reveal_strlit("Stock/Missile Parallel Interface");
        },
        ComponentKey::MissileProgrammingBus => {
            reveal_strlit("Stock/Missile Programming Bus");
        },
        ComponentKey::MissileProgrammingBusArray => {
            reveal_strlit("Stock/Missile Programming Bus Array");
        },
        ComponentKey::Mk20DefenderPDT => {
            reveal_strlit("Stock/Mk20 'Defender' PDT");
        },
        ComponentKey::Mk25ReboundPDT => {
            reveal_strlit("Stock/Mk25 'Rebound' PDT");
        },
        ComponentKey::Mk29StonewallPDT => {
            reveal_strlit("Stock/Mk29 'Stonewall' PDT");
        },
        ComponentKey::Mk550Railgun => {
            reveal_strlit("Stock/Mk550 Mass Driver");
        },
        ComponentKey::Mk600BeamCannon => {
            reveal_strlit("Stock/Mk600 Beam Cannon");
        },
        ComponentKey::Mk610BeamTurret => {
            reveal_strlit("Stock/Mk610 Beam Turret");
        },
        ComponentKey::Mk61Cannon => {
            reveal_strlit("Stock/Mk61 Cannon");
        },
        ComponentKey::Mk62Cannon => {
            reveal_strlit("Stock/Mk62 Cannon");
        },
        ComponentKey::Mk64Cannon => {
            reveal_strlit("Stock/Mk64 Cannon");
        },
        ComponentKey::Mk65Cannon => {
            reveal_strlit("Stock/Mk65 Cannon");
        },
        ComponentKey::Mk66Cannon => {
            reveal_strlit("Stock/Mk66 Cannon");
        },
        ComponentKey::Mk68Cannon => {
            reveal_strlit("Stock/Mk68 Cannon");
        },
        ComponentKey::Mk81Railgun => {
            reveal_strlit("Stock/Mk81 Railgun");
        },
        ComponentKey::Mk90AuroraPDT => {
            reveal_strlit("Stock/Mk90 'Aurora' PDT");
        },
        ComponentKey::Mk95SarissaPDT => {
            reveal_strlit("Stock/Mk95 'Sarissa' PDT");
        },
        ComponentKey::MountGyros => {
            reveal_strlit("Stock/Mount Gyros");
        },
        ComponentKey::P11PavisePDT => {
            reveal_strlit("Stock/P11 PDT");
        },
        ComponentKey::P20BastionPDT => {
            reveal_strlit("Stock/P20 Flak PDT");
        },
        ComponentKey::P60GrazerPDT => {
            reveal_strlit("Stock/P60 Laser PDT");
        },
        ComponentKey::PlantControlCenter => {
            reveal_strlit("Stock/Plant Control Center");
        },
        ComponentKey::R400BloodhoundLRTRadar => {
            reveal_strlit("Stock/R400 Radar");
        },
        ComponentKey::R550EarlyWarningRadar => {
            reveal_strlit("Stock/R550 Early Warning Radar");
        },
        ComponentKey::RF101BullseyeRadar => {
            reveal_strlit("Stock/RF101 'Bullseye' Radar");
        },
        ComponentKey::RF44PinpointRadar => {
            reveal_strlit("Stock/RF44 'Pinpoint' Radar");
        },
        ComponentKey::RL18Launcher => {
            reveal_strlit("Stock/RL18 Launcher");
        },
        ComponentKey::RL36Launcher => {
            reveal_strlit("Stock/RL36 Launcher");
        },
        ComponentKey::RM50ParallaxRadar => {
            reveal_strlit("Stock/RM50 'Parallax' Radar");
        },
        ComponentKey::RS35FrontlineRadar => {
            reveal_strlit("Stock/RS35 'Frontline' Radar");
        },
        ComponentKey::RS41SpyglassRadar => {
            reveal_strlit("Stock/RS41 'Spyglass' Radar");
        },
        ComponentKey::RapidCycleCradle => {
            reveal_strlit("Stock/Rapid-Cycle Cradle");
        },
        ComponentKey::RapidDCLocker => {
            reveal_strlit("Stock/Rapid DC Locker");
        },
        ComponentKey::RedundantReactorFailsafes => {
            reveal_strlit("Stock/Redundant Reactor Failsafes");
        },
        ComponentKey::ReinforcedCIC => {
            reveal_strlit("Stock/Reinforced CIC");
        },
        ComponentKey::ReinforcedDCLocker => {
            reveal_strlit("Stock/Reinforced DC Locker");
        },
        ComponentKey::ReinforcedMagazine => {
            reveal_strlit("Stock/Reinforced Magazine");
        },
        ComponentKey::ReinforcedThrusterNozzles => {
            reveal_strlit("Stock/Reinforced Thruster Nozzles");
        },
        ComponentKey::SignatureScrambler => {
            reveal_strlit("Stock/Signature Scrambler");
        },
        ComponentKey::SmallDCLocker => {
            reveal_strlit("Stock/Small DC Locker");
        },
        ComponentKey::SmallEnergyRegulator => {
            reveal_strlit("Stock/Small Energy Regulator");
        },
        ComponentKey::SmallReactorBooster => {
            reveal_strlit("Stock/Small Reactor Booster");
        },
        ComponentKey::SmallWorkshop => {
            reveal_strlit("Stock/Small Workshop");
        },
        ComponentKey::StrikePlanningCenter => {
            reveal_strlit("Stock/Strike Planning Center");
        },
        ComponentKey::StrobeCorrelator => {
            reveal_strlit("Stock/Strobe Correlator");
        },
        ComponentKey::SundriveRacingPro => {
            reveal_strlit("Stock/Sundrive Racing Pro");
        },
        ComponentKey::SupplementaryRadioAmplifiers => {
            reveal_strlit("Stock/Supplementary Radio Amplifiers");
        },
        ComponentKey::T20Cannon => {
            reveal_strlit("Stock/T20 Cannon");
        },
        ComponentKey::T30Cannon => {
            reveal_strlit("Stock/T30 Cannon");
        },
        ComponentKey::T81PlasmaCannon => {
            reveal_strlit("Stock/T81 Plasma Cannon");
        },
        ComponentKey::TE45MassDriver => {
            reveal_strlit("Stock/TE45 Mass Driver");
        },
        ComponentKey::TLS3Launcher => {
            reveal_strlit("Stock/Torpedo Turret");
        },
        ComponentKey::TrackCorrelator => {
            reveal_strlit("Stock/Track Correlator");
        },
        ComponentKey::VLS123Launcher => {
            reveal_strlit("Stock/VLS-1-23 Launcher");
        },
        ComponentKey::VLS146Launcher => {
            reveal_strlit("Stock/VLS-1-46 Launcher");
        },
        ComponentKey::VLS2Launcher => {
            reveal_strlit("Stock/VLS-2 Launcher");
        },
        ComponentKey::VLS3Launcher => {
            reveal_strlit("Stock/VLS-3 Launcher");
        },
    }
}

/// No two `ComponentKey` values share a `save_key`.
pub proof fn lemma_component_key_save_key_injective()
    ensures
        forall|a: ComponentKey, b: ComponentKey| a.spec_save_key() == b.spec_save_key() ==> a == b,
{
    assert forall|a: ComponentKey, b: ComponentKey| a.spec_save_key() == b.spec_save_key() implies a == b by {
        lemma_component_key_save_key_fingerprint(a);
        lemma_component_key_save_key_fingerprint(b);
    }
}

/// Parsing the text of a `ComponentKey` gives that `ComponentKey` back.
pub proof fn lemma_component_key_round_trip(k: ComponentKey)
    ensures
        ComponentKey::spec_from_str(k.spec_save_key()) == Ok::<ComponentKey, InvalidKey>(k),
{
    lemma_component_key_save_key_injective();
}

} // verus!

verus! {

/// Where a component is installed on a hull.
#[derive(Debug, Clone, Copy, PartialEq, Eq, Structural, PartialOrd, Ord, Hash)]
pub enum ComponentKind {
    Mount,
    Compartment,
    Module,
}

/// The kind of signature a sensor or jammer works with.
#[derive(Debug, Clone, Copy, PartialEq, Eq, Structural, PartialOrd, Ord, Hash)]
pub enum SigType {
    ElectroOptical,
    Radar,
    Comms,
}

/// The rule by which a launcher's mount size sets its cell groups.
#[derive(Debug, Clone, Copy, PartialEq, Eq, Structural, Hash)]
pub enum CellGroups {
    /// The CLS-3 launcher.
    Cls3,
    /// The VLS-2 launcher.
    Vls2,
    /// The VLS-3 launcher.
    Vls3,
}

impl CellGroups {
    /// The groups of cells (along x, along z) that fit a mount of `size`, if
    /// the launcher fits it at all.
    pub open spec fn spec_groups(self, size: Size) -> Option<(usize, usize)> {
        if size.y < 4 {
            None
        } else if size.x == 3 && size.z == 3 && self != CellGroups::Cls3 {
            Some((1, 2))
        } else if size.x == 3 && size.z == 5 {
            Some((1, 3))
        } else if size.x == 6 && size.z == 6 {
            Some((2, 4))
        } else if size.x == 8 && size.z == 8 {
            Some((2, 5))
        } else {
            None
        }
    }

    /// The groups of cells (along x, along z) that fit a mount of `size`, if
    /// the launcher fits it at all.
    pub fn groups(self, size: Size) -> (r: Option<[usize; 2]>)
        ensures
            match self.spec_groups(size) {
                Some((a, b)) => r matches Some(g) && g@ == seq![a, b],
                None => r is None,
            },
    {
        if size.y < 4 {
            None
        } else if size.x == 3 && size.z == 3 && self != CellGroups::Cls3 {
            Some([1, 2])
        } else if size.x == 3 && size.z == 5 {
            Some([1, 3])
        } else if size.x == 6 && size.z == 6 {
            Some([2, 4])
        } else if size.x == 8 && size.z == 8 {
            Some([2, 5])
        } else {
            None
        }
    }
}

/// How many cells a missile launcher has.
#[derive(Debug, Clone, Copy, PartialEq, Eq, Structural, Hash)]
pub enum MissileLauncherCells {
    /// A fixed number of cells.
    Constant { count: usize },
    /// Groups of cells tiling along x and z from the launcher's base size.
    Tiling {
        count_per_group: usize,
        /// Whether each group of cells must hold a single missile type.
        separated_groups: bool,
    },
    /// Groups of cells set by the mount size.
    Function { count_per_group: usize, groups: CellGroups },
}

/// The number of whole copies of `item` that fit in `container` when laid
/// side by side along every axis: the volume of `container.div(item)`.
pub open spec fn spec_tiling_quantity(container: Size, item: Size) -> int {
    (container.x / item.x) * (container.y / item.y) * (container.z / item.z)
}

/// The number of whole copies of `item` that fit in `container`, each axis
/// divided on its own.
pub fn tiling_quantity(container: Size, item: Size) -> (r: usize)
    requires
        item.x > 0,
        item.y > 0,
        item.z > 0,
        (container.x / item.x) * (container.y / item.y) <= usize::MAX,
        spec_tiling_quantity(container, item) <= usize::MAX,
    ensures
        r == spec_tiling_quantity(container, item),
{
    Size::div(container, item).volume()
}

/// Whether `item` fits inside `container` along every axis.
pub fn can_fit_in(container: Size, item: Size) -> (r: bool)
    ensures
        r == (container.x >= item.x && container.y >= item.y && container.z >= item.z),
{
    container.x >= item.x && container.y >= item.y && container.z >= item.z
}

} // verus!
