use vstd::prelude::*;
use crate::data::missiles::{AuxiliaryKey, AvionicsKey, WarheadKey, Maneuvers};
use crate::data::missiles::seekers::{SeekerKey, SeekerMode};
use crate::format::{DefensiveDoctrine, MissileComponentKey};
use crate::format::missile::{BalanceValues, MissileComponent, MissileComponentSettings, MissileSocket, SettingsView, component_view};
use crate::format::template::{MissileTemplate, SocketView};
use crate::data::missiles::bodies::MissileBodyKey;

verus! {

/// Why a missile could not be read as a loadout.
#[derive(Debug, Clone, Copy, PartialEq, Eq, Structural)]
pub enum MissileLoadoutError {
    InvalidMissileComponent,
}

/// A seeker with its settings.
#[derive(Debug, Clone, Copy, PartialEq, Eq, Structural, PartialOrd, Ord)]
pub enum SeekerConfigured {
    Command,
    FixedActiveRadar { detect_pd_targets: bool },
    SteerableActiveRadar { detect_pd_targets: bool },
    SteerableExtendedActiveRadar { detect_pd_targets: bool },
    FixedSemiActiveRadar { detect_pd_targets: bool },
    FixedAntiRadiation,
    FixedHomeOnJam,
    ElectroOptical { detect_pd_targets: bool },
    WakeHoming { detect_pd_targets: bool },
}

impl SeekerConfigured {
    pub open spec fn spec_seeker_key(self) -> SeekerKey {
        match self {
            SeekerConfigured::Command => SeekerKey::Command,
            SeekerConfigured::FixedActiveRadar { .. } => SeekerKey::FixedActiveRadar,
            SeekerConfigured::SteerableActiveRadar { .. } => SeekerKey::SteerableActiveRadar,
            SeekerConfigured::SteerableExtendedActiveRadar { .. } => SeekerKey::SteerableExtendedActiveRadar,
            SeekerConfigured::FixedSemiActiveRadar { .. } => SeekerKey::FixedSemiActiveRadar,
            SeekerConfigured::FixedAntiRadiation => SeekerKey::FixedAntiRadiation,
            SeekerConfigured::FixedHomeOnJam => SeekerKey::FixedHomeOnJam,
            SeekerConfigured::ElectroOptical { .. } => SeekerKey::ElectroOptical,
            SeekerConfigured::WakeHoming { .. } => SeekerKey::WakeHoming,
        }
    }

    /// The seeker, without its settings.
    pub fn into_seeker_key(self) -> (r: SeekerKey)
        ensures
            r == self.spec_seeker_key(),
    {
        match self {
            SeekerConfigured::Command => SeekerKey::Command,
            SeekerConfigured::FixedActiveRadar { .. } => SeekerKey::FixedActiveRadar,
            SeekerConfigured::SteerableActiveRadar { .. } => SeekerKey::SteerableActiveRadar,
            SeekerConfigured::SteerableExtendedActiveRadar { .. } => SeekerKey::SteerableExtendedActiveRadar,
            SeekerConfigured::FixedSemiActiveRadar { .. } => SeekerKey::FixedSemiActiveRadar,
            SeekerConfigured::FixedAntiRadiation => SeekerKey::FixedAntiRadiation,
            SeekerConfigured::FixedHomeOnJam => SeekerKey::FixedHomeOnJam,
            SeekerConfigured::ElectroOptical { .. } => SeekerKey::ElectroOptical,
            SeekerConfigured::WakeHoming { .. } => SeekerKey::WakeHoming,
        }
    }
}

/// A configured seeker with the mode it works in.
#[derive(Debug, Clone, Copy, PartialEq, Eq, Structural, PartialOrd, Ord)]
pub enum SeekerWithMode {
    Targeting { seeker: SeekerConfigured },
    Validation { seeker: SeekerConfigured, reject_unvalidated: bool },
}

impl SeekerWithMode {
    pub open spec fn spec_new(seeker: SeekerConfigured, mode: SeekerMode, reject_unvalidated: bool) -> SeekerWithMode {
        match mode {
            SeekerMode::Targeting => SeekerWithMode::Targeting { seeker },
            SeekerMode::Validation => SeekerWithMode::Validation { seeker, reject_unvalidated },
        }
    }

    pub open spec fn spec_into_parts(self) -> (SeekerConfigured, SeekerMode, bool) {
        match self {
            SeekerWithMode::Targeting { seeker } => (seeker, SeekerMode::Targeting, false),
            SeekerWithMode::Validation { seeker, reject_unvalidated } => (seeker, SeekerMode::Validation, reject_unvalidated),
        }
    }

    /// `seeker` in `mode`; `reject_unvalidated` only matters to validating
    /// seekers.
    pub fn new(seeker: SeekerConfigured, mode: SeekerMode, reject_unvalidated: bool) -> (r: SeekerWithMode)
        ensures
            r == Self::spec_new(seeker, mode, reject_unvalidated),
    {
        match mode {
            SeekerMode::Targeting => SeekerWithMode::Targeting { seeker },
            SeekerMode::Validation => SeekerWithMode::Validation { seeker, reject_unvalidated },
        }
    }

    /// The seeker, its mode, and whether it rejects unvalidated targets
    /// (never for a targeting seeker).
    pub fn into_parts(self) -> (r: (SeekerConfigured, SeekerMode, bool))
        ensures
            r == self.spec_into_parts(),
    {
        match self {
            SeekerWithMode::Targeting { seeker } => (seeker, SeekerMode::Targeting, false),
            SeekerWithMode::Validation { seeker, reject_unvalidated } => (seeker, SeekerMode::Validation, reject_unvalidated),
        }
    }

    /// The configured seeker.
    pub fn seeker(self) -> (r: SeekerConfigured)
        ensures
            r == self.spec_into_parts().0,
    {
        match self {
            SeekerWithMode::Targeting { seeker } => seeker,
            SeekerWithMode::Validation { seeker, .. } => seeker,
        }
    }

    /// The mode the seeker works in.
    pub fn mode(self) -> (r: SeekerMode)
        ensures
            r == self.spec_into_parts().1,
    {
        match self {
            SeekerWithMode::Targeting { .. } => SeekerMode::Targeting,
            SeekerWithMode::Validation { .. } => SeekerMode::Validation,
        }
    }
}

/// Building a seeker with a mode and taking it apart gives back the seeker and
/// mode, and the rejection flag for a validating seeker.
pub proof fn lemma_seeker_with_mode_parts(seeker: SeekerConfigured, mode: SeekerMode, reject_unvalidated: bool)
    ensures
        SeekerWithMode::spec_new(seeker, mode, reject_unvalidated).spec_into_parts()
            == (seeker, mode, mode == SeekerMode::Validation && reject_unvalidated),
{
}

/// Taking a seeker with a mode apart and building it again gives it back.
pub proof fn lemma_seeker_with_mode_rebuild(s: SeekerWithMode)
    ensures
        SeekerWithMode::spec_new(s.spec_into_parts().0, s.spec_into_parts().1, s.spec_into_parts().2) == s,
{
}

/// A guidance package with its settings.
#[derive(Debug, Clone, Copy, PartialEq, Eq, Structural)]
pub enum AvionicsConfigured {
    DirectGuidance {
        hot_launch: bool,
        self_destruct_on_lost: bool,
        maneuvers: Maneuvers,
        defensive_doctrine: Option<DefensiveDoctrine>,
        approach_angle_control: bool,
    },
    CruiseGuidance {
        hot_launch: bool,
        self_destruct_on_lost: bool,
        maneuvers: Maneuvers,
        defensive_doctrine: Option<DefensiveDoctrine>,
    },
}

impl AvionicsConfigured {
    /// Whether the missile is launched hot.
    pub open spec fn spec_hot_launch(self) -> bool {
        match self {
            AvionicsConfigured::DirectGuidance { hot_launch, .. } => hot_launch,
            AvionicsConfigured::CruiseGuidance { hot_launch, .. } => hot_launch,
        }
    }

    /// Whether the missile destroys itself when it loses its target.
    pub open spec fn spec_self_destruct_on_lost(self) -> bool {
        match self {
            AvionicsConfigured::DirectGuidance { self_destruct_on_lost, .. } => self_destruct_on_lost,
            AvionicsConfigured::CruiseGuidance { self_destruct_on_lost, .. } => self_destruct_on_lost,
        }
    }

    /// The evasive maneuvers the missile flies.
    pub open spec fn spec_maneuvers(self) -> Maneuvers {
        match self {
            AvionicsConfigured::DirectGuidance { maneuvers, .. } => maneuvers,
            AvionicsConfigured::CruiseGuidance { maneuvers, .. } => maneuvers,
        }
    }

    /// The missile's defensive doctrine, if it has one.
    pub open spec fn spec_defensive_doctrine(self) -> Option<DefensiveDoctrine> {
        match self {
            AvionicsConfigured::DirectGuidance { defensive_doctrine, .. } => defensive_doctrine,
            AvionicsConfigured::CruiseGuidance { defensive_doctrine, .. } => defensive_doctrine,
        }
    }

    /// The guidance package these settings are for.
    pub open spec fn spec_into_avionics_key(self) -> AvionicsKey {
        match self {
            AvionicsConfigured::DirectGuidance { .. } => AvionicsKey::DirectGuidance,
            AvionicsConfigured::CruiseGuidance { .. } => AvionicsKey::CruiseGuidance,
        }
    }

    /// The guidance package these settings are for.
    pub fn into_avionics_key(self) -> (r: AvionicsKey)
        ensures
            r == self.spec_into_avionics_key(),
    {
        match self {
            AvionicsConfigured::DirectGuidance { .. } => AvionicsKey::DirectGuidance,
            AvionicsConfigured::CruiseGuidance { .. } => AvionicsKey::CruiseGuidance,
        }
    }

    /// Whether the missile is launched hot.
    pub fn hot_launch(self) -> (r: bool)
        ensures
            r == self.spec_hot_launch(),
    {
        match self {
            AvionicsConfigured::DirectGuidance { hot_launch, .. } => hot_launch,
            AvionicsConfigured::CruiseGuidance { hot_launch, .. } => hot_launch,
        }
    }

    /// Whether the missile destroys itself when it loses its target.
    pub fn self_destruct_on_lost(self) -> (r: bool)
        ensures
            r == self.spec_self_destruct_on_lost(),
    {
        match self {
            AvionicsConfigured::DirectGuidance { self_destruct_on_lost, .. } => self_destruct_on_lost,
            AvionicsConfigured::CruiseGuidance { self_destruct_on_lost, .. } => self_destruct_on_lost,
        }
    }

    /// The evasive maneuvers the missile flies.
    pub fn maneuvers(self) -> (r: Maneuvers)
        ensures
            r == self.spec_maneuvers(),
    {
        match self {
            AvionicsConfigured::DirectGuidance { maneuvers, .. } => maneuvers,
            AvionicsConfigured::CruiseGuidance { maneuvers, .. } => maneuvers,
        }
    }

    /// The missile's defensive doctrine, if it has one.
    pub fn defensive_doctrine(self) -> (r: Option<DefensiveDoctrine>)
        ensures
            r == self.spec_defensive_doctrine(),
    {
        match self {
            AvionicsConfigured::DirectGuidance { defensive_doctrine, .. } => defensive_doctrine,
            AvionicsConfigured::CruiseGuidance { defensive_doctrine, .. } => defensive_doctrine,
        }
    }
}

/// The kind of component in a missile socket, for a loadout.
#[derive(Debug, Clone, Copy, PartialEq, Eq, Structural, PartialOrd, Ord)]
pub enum MissileLoadoutComponentKey {
    CommandReceiver,
    FixedActiveRadarSeeker,
    SteerableActiveRadarSeeker,
    SteerableExtendedActiveRadarSeeker,
    FixedSemiActiveRadarSeeker,
    FixedAntiRadiationSeeker,
    ElectroOpticalSeeker,
    WakeHomingSeeker,
    Auxiliary(AuxiliaryKey),
    Avionics(AvionicsKey),
    Warhead(WarheadKey),
}

impl MissileLoadoutComponentKey {
    /// The loadout kind of a missile component: a seeker stands for itself,
    /// the others for their auxiliary, avionics or warhead key.
    pub open spec fn spec_from_missile_component_key(k: MissileComponentKey) -> MissileLoadoutComponentKey {
        match k {
            MissileComponentKey::CommandReceiver => MissileLoadoutComponentKey::CommandReceiver,
            MissileComponentKey::FixedActiveRadarSeeker => MissileLoadoutComponentKey::FixedActiveRadarSeeker,
            MissileComponentKey::SteerableActiveRadarSeeker => MissileLoadoutComponentKey::SteerableActiveRadarSeeker,
            MissileComponentKey::SteerableExtendedActiveRadarSeeker => MissileLoadoutComponentKey::SteerableExtendedActiveRadarSeeker,
            MissileComponentKey::FixedSemiActiveRadarSeeker => MissileLoadoutComponentKey::FixedSemiActiveRadarSeeker,
            MissileComponentKey::FixedAntiRadiationSeeker => MissileLoadoutComponentKey::FixedAntiRadiationSeeker,
            MissileComponentKey::ElectroOpticalSeeker => MissileLoadoutComponentKey::ElectroOpticalSeeker,
            MissileComponentKey::WakeHomingSeeker => MissileLoadoutComponentKey::WakeHomingSeeker,
            _ => match k.spec_to_auxiliary_key() {
                Some(a) => MissileLoadoutComponentKey::Auxiliary(a),
                None => match k.spec_to_avionics_key() {
                    Some(a) => MissileLoadoutComponentKey::Avionics(a),
                    None => MissileLoadoutComponentKey::Warhead(k.spec_to_warhead_key()->Some_0),
                },
            },
        }
    }

    /// The loadout kind of a missile component.
    pub fn from_missile_component_key(k: MissileComponentKey) -> (r: MissileLoadoutComponentKey)
        ensures
            r == Self::spec_from_missile_component_key(k),
    {
        match k {
            MissileComponentKey::CommandReceiver => MissileLoadoutComponentKey::CommandReceiver,
            MissileComponentKey::FixedActiveRadarSeeker => MissileLoadoutComponentKey::FixedActiveRadarSeeker,
            MissileComponentKey::SteerableActiveRadarSeeker => MissileLoadoutComponentKey::SteerableActiveRadarSeeker,
            MissileComponentKey::SteerableExtendedActiveRadarSeeker => MissileLoadoutComponentKey::SteerableExtendedActiveRadarSeeker,
            MissileComponentKey::FixedSemiActiveRadarSeeker => MissileLoadoutComponentKey::FixedSemiActiveRadarSeeker,
            MissileComponentKey::FixedAntiRadiationSeeker => MissileLoadoutComponentKey::FixedAntiRadiationSeeker,
            MissileComponentKey::ElectroOpticalSeeker => MissileLoadoutComponentKey::ElectroOpticalSeeker,
            MissileComponentKey::WakeHomingSeeker => MissileLoadoutComponentKey::WakeHomingSeeker,
            MissileComponentKey::ColdGasBottle => MissileLoadoutComponentKey::Auxiliary(AuxiliaryKey::ColdGasBottle),
            MissileComponentKey::DecoyLauncher => MissileLoadoutComponentKey::Auxiliary(AuxiliaryKey::DecoyLauncher),
            MissileComponentKey::ClusterDecoyLauncher => MissileLoadoutComponentKey::Auxiliary(AuxiliaryKey::ClusterDecoyLauncher),
            MissileComponentKey::FastStartupModule => MissileLoadoutComponentKey::Auxiliary(AuxiliaryKey::FastStartupModule),
            MissileComponentKey::HardenedSkin => MissileLoadoutComponentKey::Auxiliary(AuxiliaryKey::HardenedSkin),
            MissileComponentKey::RadarAbsorbentCoating => MissileLoadoutComponentKey::Auxiliary(AuxiliaryKey::RadarAbsorbentCoating),
            MissileComponentKey::SelfScreeningJammer => MissileLoadoutComponentKey::Auxiliary(AuxiliaryKey::SelfScreeningJammer),
            MissileComponentKey::BoostedSelfScreeningJammer => MissileLoadoutComponentKey::Auxiliary(AuxiliaryKey::BoostedSelfScreeningJammer),
            MissileComponentKey::DirectGuidance => MissileLoadoutComponentKey::Avionics(AvionicsKey::DirectGuidance),
            MissileComponentKey::CruiseGuidance => MissileLoadoutComponentKey::Avionics(AvionicsKey::CruiseGuidance),
            MissileComponentKey::HEImpact => MissileLoadoutComponentKey::Warhead(WarheadKey::HEImpact),
            MissileComponentKey::HEKineticPenetrator => MissileLoadoutComponentKey::Warhead(WarheadKey::HEKineticPenetrator),
            MissileComponentKey::BlastFragmentation => MissileLoadoutComponentKey::Warhead(WarheadKey::BlastFragmentation),
            MissileComponentKey::BlastFragmentationEL => MissileLoadoutComponentKey::Warhead(WarheadKey::BlastFragmentationEL),
        }
    }
}

/// A component of a missile loadout, with its settings.
#[derive(Debug, Clone, PartialEq, Eq)]
pub enum MissileLoadoutComponent {
    Seeker(SeekerWithMode),
    Avionics(AvionicsConfigured),
    Auxiliary(AuxiliaryKey),
    Warhead(WarheadKey),
    Engine(BalanceValues),
}

/// A loadout component as plain values.
pub enum LoadoutComponentView {
    Seeker(SeekerWithMode),
    Avionics(AvionicsConfigured),
    Auxiliary(AuxiliaryKey),
    Warhead(WarheadKey),
    Engine(Seq<char>, Seq<char>, Seq<char>),
}

/// The loadout component `c` as plain values.
pub open spec fn loadout_component_view(c: MissileLoadoutComponent) -> LoadoutComponentView {
    match c {
        MissileLoadoutComponent::Seeker(s) => LoadoutComponentView::Seeker(s),
        MissileLoadoutComponent::Avionics(a) => LoadoutComponentView::Avionics(a),
        MissileLoadoutComponent::Auxiliary(a) => LoadoutComponentView::Auxiliary(a),
        MissileLoadoutComponent::Warhead(w) => LoadoutComponentView::Warhead(w),
        MissileLoadoutComponent::Engine(b) => LoadoutComponentView::Engine(b.a@, b.b@, b.c@),
    }
}

/// The configured seeker that a seeker component `key` with the
/// settings `s` is, where the settings are of the seeker's kind.
pub open spec fn spec_configured_seeker(key: MissileLoadoutComponentKey, s: SettingsView) -> Option<SeekerWithMode> {
    match (key, s) {
        (MissileLoadoutComponentKey::CommandReceiver, SettingsView::CommandSeeker(mode)) =>
            Some(SeekerWithMode::spec_new(SeekerConfigured::Command, mode, false)),
        (MissileLoadoutComponentKey::FixedActiveRadarSeeker, SettingsView::ActiveSeeker(mode, reject, detect)) =>
            Some(SeekerWithMode::spec_new(SeekerConfigured::FixedActiveRadar { detect_pd_targets: detect }, mode, reject)),
        (MissileLoadoutComponentKey::SteerableActiveRadarSeeker, SettingsView::ActiveSeeker(mode, reject, detect)) =>
            Some(SeekerWithMode::spec_new(SeekerConfigured::SteerableActiveRadar { detect_pd_targets: detect }, mode, reject)),
        (MissileLoadoutComponentKey::SteerableExtendedActiveRadarSeeker, SettingsView::ActiveSeeker(mode, reject, detect)) =>
            Some(SeekerWithMode::spec_new(SeekerConfigured::SteerableExtendedActiveRadar { detect_pd_targets: detect }, mode, reject)),
        (MissileLoadoutComponentKey::FixedSemiActiveRadarSeeker, SettingsView::ActiveSeeker(mode, reject, detect)) =>
            Some(SeekerWithMode::spec_new(SeekerConfigured::FixedSemiActiveRadar { detect_pd_targets: detect }, mode, reject)),
        (MissileLoadoutComponentKey::FixedAntiRadiationSeeker, SettingsView::PassiveARHSeeker(mode, reject, home_on_jam)) =>
            Some(SeekerWithMode::spec_new(
                if home_on_jam { SeekerConfigured::FixedHomeOnJam } else { SeekerConfigured::FixedAntiRadiation }, mode, reject)),
        (MissileLoadoutComponentKey::ElectroOpticalSeeker, SettingsView::PassiveSeeker(mode, reject, detect)) =>
            Some(SeekerWithMode::spec_new(SeekerConfigured::ElectroOptical { detect_pd_targets: detect }, mode, reject)),
        (MissileLoadoutComponentKey::WakeHomingSeeker, SettingsView::PassiveSeeker(mode, reject, detect)) =>
            Some(SeekerWithMode::spec_new(SeekerConfigured::WakeHoming { detect_pd_targets: detect }, mode, reject)),
        _ => None,
    }
}

/// The loadout component that a missile component with the key `key` and
/// the settings `settings` is: a seeker with settings of its kind, a
/// guidance package with its own settings, an auxiliary component or a
/// warhead without settings, or an engine (no key) with its balance; none
/// for any other pairing.
pub open spec fn spec_loadout_component(key: Option<MissileComponentKey>, settings: Option<SettingsView>) -> Option<LoadoutComponentView> {
    match key {
        None => match settings {
            Some(SettingsView::MissileEngine(a, b, c)) => Some(LoadoutComponentView::Engine(a, b, c)),
            _ => None,
        },
        Some(k) => {
            let lk = MissileLoadoutComponentKey::spec_from_missile_component_key(k);
            match settings {
                None => match lk {
                    MissileLoadoutComponentKey::Auxiliary(a) => Some(LoadoutComponentView::Auxiliary(a)),
                    MissileLoadoutComponentKey::Warhead(w) => Some(LoadoutComponentView::Warhead(w)),
                    _ => None,
                },
                Some(s) => match (lk, s) {
                    (MissileLoadoutComponentKey::Avionics(AvionicsKey::DirectGuidance), SettingsView::DirectGuidance(h, sd, m, d, a)) =>
                        Some(LoadoutComponentView::Avionics(AvionicsConfigured::DirectGuidance {
                            hot_launch: h, self_destruct_on_lost: sd, maneuvers: m, defensive_doctrine: d, approach_angle_control: a,
                        })),
                    (MissileLoadoutComponentKey::Avionics(AvionicsKey::CruiseGuidance), SettingsView::CruiseGuidance(h, sd, m, d)) =>
                        Some(LoadoutComponentView::Avionics(AvionicsConfigured::CruiseGuidance {
                            hot_launch: h, self_destruct_on_lost: sd, maneuvers: m, defensive_doctrine: d,
                        })),
                    _ => match spec_configured_seeker(lk, s) {
                        Some(seeker) => Some(LoadoutComponentView::Seeker(seeker)),
                        None => None,
                    },
                },
            }
        },
    }
}

impl MissileLoadoutComponent {
    /// The loadout component that `missile_component` is; see
    /// [`spec_loadout_component`]. Any other pairing of key and settings is
    /// `InvalidMissileComponent`.
    pub fn from_missile_component(missile_component: MissileComponent) -> (r: Result<MissileLoadoutComponent, MissileLoadoutError>)
        ensures
            match spec_loadout_component(component_view(missile_component).0, component_view(missile_component).1) {
                Some(v) => r matches Ok(c) && loadout_component_view(c) == v,
                None => r == Err::<MissileLoadoutComponent, MissileLoadoutError>(MissileLoadoutError::InvalidMissileComponent),
            },
    {
        let MissileComponent { component_key, settings } = missile_component;
        let key = match component_key {
            None => {
                return match settings {
                    Some(MissileComponentSettings::MissileEngineSettings { balance_values }) => Ok(MissileLoadoutComponent::Engine(balance_values)),
                    _ => Err(MissileLoadoutError::InvalidMissileComponent),
                };
            },
            Some(k) => MissileLoadoutComponentKey::from_missile_component_key(k),
        };
        let settings = match settings {
            None => {
                return match key {
                    MissileLoadoutComponentKey::Auxiliary(a) => Ok(MissileLoadoutComponent::Auxiliary(a)),
                    MissileLoadoutComponentKey::Warhead(w) => Ok(MissileLoadoutComponent::Warhead(w)),
                    _ => Err(MissileLoadoutError::InvalidMissileComponent),
                };
            },
            Some(s) => s,
        };
        match (key, settings) {
            (MissileLoadoutComponentKey::CommandReceiver, MissileComponentSettings::CommandSeekerSettings { mode }) =>
                Ok(MissileLoadoutComponent::Seeker(SeekerWithMode::new(SeekerConfigured::Command, mode, false))),
            (MissileLoadoutComponentKey::FixedActiveRadarSeeker, MissileComponentSettings::ActiveSeekerSettings { mode, reject_unvalidated, detect_pd_targets }) =>
                Ok(MissileLoadoutComponent::Seeker(SeekerWithMode::new(SeekerConfigured::FixedActiveRadar { detect_pd_targets }, mode, reject_unvalidated))),
            (MissileLoadoutComponentKey::SteerableActiveRadarSeeker, MissileComponentSettings::ActiveSeekerSettings { mode, reject_unvalidated, detect_pd_targets }) =>
                Ok(MissileLoadoutComponent::Seeker(SeekerWithMode::new(SeekerConfigured::SteerableActiveRadar { detect_pd_targets }, mode, reject_unvalidated))),
            (MissileLoadoutComponentKey::SteerableExtendedActiveRadarSeeker, MissileComponentSettings::ActiveSeekerSettings { mode, reject_unvalidated, detect_pd_targets }) =>
                Ok(MissileLoadoutComponent::Seeker(SeekerWithMode::new(SeekerConfigured::SteerableExtendedActiveRadar { detect_pd_targets }, mode, reject_unvalidated))),
            (MissileLoadoutComponentKey::FixedSemiActiveRadarSeeker, MissileComponentSettings::ActiveSeekerSettings { mode, reject_unvalidated, detect_pd_targets }) =>
                Ok(MissileLoadoutComponent::Seeker(SeekerWithMode::new(SeekerConfigured::FixedSemiActiveRadar { detect_pd_targets }, mode, reject_unvalidated))),
            (MissileLoadoutComponentKey::FixedAntiRadiationSeeker, MissileComponentSettings::PassiveARHSeekerSettings { mode, reject_unvalidated, home_on_jam }) => {
                let seeker = if home_on_jam { SeekerConfigured::FixedHomeOnJam } else { SeekerConfigured::FixedAntiRadiation };
                Ok(MissileLoadoutComponent::Seeker(SeekerWithMode::new(seeker, mode, reject_unvalidated)))
            },
            (MissileLoadoutComponentKey::ElectroOpticalSeeker, MissileComponentSettings::PassiveSeekerSettings { mode, reject_unvalidated, detect_pd_targets }) =>
                Ok(MissileLoadoutComponent::Seeker(SeekerWithMode::new(SeekerConfigured::ElectroOptical { detect_pd_targets }, mode, reject_unvalidated))),
            (MissileLoadoutComponentKey::WakeHomingSeeker, MissileComponentSettings::PassiveSeekerSettings { mode, reject_unvalidated, detect_pd_targets }) =>
                Ok(MissileLoadoutComponent::Seeker(SeekerWithMode::new(SeekerConfigured::WakeHoming { detect_pd_targets }, mode, reject_unvalidated))),
            (MissileLoadoutComponentKey::Avionics(AvionicsKey::DirectGuidance), MissileComponentSettings::DirectGuidanceSettings {
                hot_launch, self_destruct_on_lost, maneuvers, defensive_doctrine, approach_angle_control,
            }) => Ok(MissileLoadoutComponent::Avionics(AvionicsConfigured::DirectGuidance {
                hot_launch, self_destruct_on_lost, maneuvers, defensive_doctrine, approach_angle_control,
            })),
            (MissileLoadoutComponentKey::Avionics(AvionicsKey::CruiseGuidance), MissileComponentSettings::CruiseGuidanceSettings {
                hot_launch, self_destruct_on_lost, maneuvers, defensive_doctrine,
            }) => Ok(MissileLoadoutComponent::Avionics(AvionicsConfigured::CruiseGuidance {
                hot_launch, self_destruct_on_lost, maneuvers, defensive_doctrine,
            })),
            _ => Err(MissileLoadoutError::InvalidMissileComponent),
        }
    }
}

/// A socket of a missile loadout: its component, if any, and its size.
#[derive(Debug, Clone, PartialEq, Eq)]
pub struct MissileLoadoutSocket {
    pub component: Option<MissileLoadoutComponent>,
    pub size: usize,
}

impl MissileLoadoutSocket {
    /// The loadout socket that `missile_socket` is: the same size, and the
    /// loadout component its installed component is (see
    /// [`MissileLoadoutComponent::from_missile_component`]).
    pub fn from_missile_socket(missile_socket: MissileSocket) -> (r: Result<MissileLoadoutSocket, MissileLoadoutError>)
        ensures
            match missile_socket.installed_component {
                None => r matches Ok(s) && s.component is None && s.size == missile_socket.size,
                Some(c) => match spec_loadout_component(component_view(c).0, component_view(c).1) {
                    Some(v) => r matches Ok(s) && s.size == missile_socket.size
                        && (s.component matches Some(x) && loadout_component_view(x) == v),
                    None => r == Err::<MissileLoadoutSocket, MissileLoadoutError>(MissileLoadoutError::InvalidMissileComponent),
                },
            },
    {
        let MissileSocket { size, installed_component } = missile_socket;
        match installed_component {
            None => Ok(MissileLoadoutSocket { component: None, size }),
            Some(c) => match MissileLoadoutComponent::from_missile_component(c) {
                Ok(component) => Ok(MissileLoadoutSocket { component: Some(component), size }),
                Err(e) => Err(e),
            },
        }
    }
}

/// The loadout socket that a socket with the plain values `s` is: its
/// loadout component, if it has a component, and its size; none when its
/// component is no valid loadout component.
pub open spec fn spec_loadout_socket(s: SocketView) -> Option<(Option<LoadoutComponentView>, usize)> {
    match s.1 {
        None => Some((None, s.0)),
        Some(c) => match spec_loadout_component(c.0, c.1) {
            Some(v) => Some((Some(v), s.0)),
            None => None,
        },
    }
}

/// The loadout socket `s` as plain values.
pub open spec fn loadout_socket_view(s: MissileLoadoutSocket) -> (Option<LoadoutComponentView>, usize) {
    (match s.component {
        Some(c) => Some(loadout_component_view(c)),
        None => None,
    }, s.size)
}

/// A missile's body with the loadout of each of its sockets.
#[derive(Debug, Clone, PartialEq, Eq)]
pub struct MissileLoadout {
    pub body_key: MissileBodyKey,
    pub sockets: Vec<MissileLoadoutSocket>,
}

impl MissileLoadout {
    /// The loadout of the missile `missile_template`: its body, and the
    /// loadout socket of each of its sockets in order. Fails with
    /// `InvalidMissileComponent` when some socket's component is not a valid
    /// loadout component.
    pub fn from_missile_template(missile_template: MissileTemplate) -> (r: Result<MissileLoadout, MissileLoadoutError>)
        ensures
            (forall|i: int| 0 <= i < missile_template.sockets@.len()
                ==> (#[trigger] spec_loadout_socket(crate::format::missile::socket_view(missile_template.sockets@[i]))) is Some)
                <==> r is Ok,
            r is Err ==> r == Err::<MissileLoadout, MissileLoadoutError>(MissileLoadoutError::InvalidMissileComponent),
            r matches Ok(l) ==> l.body_key == missile_template.body_key
                && l.sockets@.len() == missile_template.sockets@.len()
                && forall|i: int| 0 <= i < l.sockets@.len() ==> Some(loadout_socket_view(#[trigger] l.sockets@[i]))
                    == spec_loadout_socket(crate::format::missile::socket_view(missile_template.sockets@[i])),
    {
        let MissileTemplate { body_key, sockets, .. } = missile_template;
        let ghost all = sockets@;
        let mut out: Vec<MissileLoadoutSocket> = Vec::new();
        for s in it: sockets
            invariant
                it.seq() == all,
                all == missile_template.sockets@,
                out@.len() == it.index(),
                forall|j: int| 0 <= j < it.index() ==> Some(loadout_socket_view(#[trigger] out@[j]))
                    == spec_loadout_socket(crate::format::missile::socket_view(all[j])),
        {
            let ghost i = it.index() as int;
            let ghost sv = crate::format::missile::socket_view(s);
            match MissileLoadoutSocket::from_missile_socket(s) {
                Ok(l) => out.push(l),
                Err(e) => {
                    assert(spec_loadout_socket(crate::format::missile::socket_view(all[i])) is None);
                    return Err(e);
                },
            }
        }
        assert forall|i: int| 0 <= i < all.len()
            implies (#[trigger] spec_loadout_socket(crate::format::missile::socket_view(all[i]))) is Some by {
            assert(Some(loadout_socket_view(out@[i])) == spec_loadout_socket(crate::format::missile::socket_view(all[i])));
        }
        Ok(MissileLoadout { body_key, sockets: out })
    }
}

/// The seekers among the loadout sockets `sockets`, in order, each with
/// its mode.
pub open spec fn spec_seekers(sockets: Seq<MissileLoadoutSocket>) -> Seq<(SeekerKey, SeekerMode)>
    decreases sockets.len(),
{
    if sockets.len() == 0 {
        Seq::empty()
    } else {
        let rest = spec_seekers(sockets.drop_last());
        match sockets.last().component {
            Some(MissileLoadoutComponent::Seeker(seeker)) =>
                rest.push((seeker.spec_into_parts().0.spec_seeker_key(), seeker.spec_into_parts().1)),
            _ => rest,
        }
    }
}

/// The total size of the loadout sockets `sockets`.
pub open spec fn spec_total_size(sockets: Seq<MissileLoadoutSocket>) -> int
    decreases sockets.len(),
{
    if sockets.len() == 0 {
        0
    } else {
        spec_total_size(sockets.drop_last()) + sockets.last().size
    }
}

impl MissileLoadout {
    /// The seekers of this loadout, in the order of their sockets, each with
    /// its mode.
    pub fn iter_seekers(&self) -> (r: Vec<(SeekerKey, SeekerMode)>)
        ensures
            r@ == spec_seekers(self.sockets@),
    {
        let mut out: Vec<(SeekerKey, SeekerMode)> = Vec::new();
        let mut i: usize = 0;
        while i < self.sockets.len()
            invariant
                i <= self.sockets@.len(),
                out@ == spec_seekers(self.sockets@.take(i as int)),
            decreases self.sockets.len() - i,
        {
            proof {
                assert(self.sockets@.take(i as int + 1).drop_last() == self.sockets@.take(i as int));
            }
            match &self.sockets[i].component {
                Some(MissileLoadoutComponent::Seeker(seeker)) => {
                    let (configured, mode, _) = seeker.into_parts();
                    out.push((configured.into_seeker_key(), mode));
                },
                _ => {},
            }
            i = i + 1;
        }
        proof {
            assert(self.sockets@.take(i as int) == self.sockets@);
        }
        out
    }

    /// The total size of this loadout's sockets.
    pub fn len(&self) -> (r: usize)
        requires
            spec_total_size(self.sockets@) <= usize::MAX,
        ensures
            r == spec_total_size(self.sockets@),
    {
        let mut total: usize = 0;
        let mut i: usize = 0;
        while i < self.sockets.len()
            invariant
                i <= self.sockets@.len(),
                total == spec_total_size(self.sockets@.take(i as int)),
                spec_total_size(self.sockets@) <= usize::MAX,
            decreases self.sockets.len() - i,
        {
            proof {
                assert(self.sockets@.take(i as int + 1).drop_last() == self.sockets@.take(i as int));
                lemma_total_size_prefix(self.sockets@, i as int + 1);
            }
            total = total + self.sockets[i].size;
            i = i + 1;
        }
        proof {
            assert(self.sockets@.take(i as int) == self.sockets@);
        }
        total
    }
}

/// The sizes of a prefix of the sockets add up to no more than those of all.
proof fn lemma_total_size_prefix(sockets: Seq<MissileLoadoutSocket>, m: int)
    requires
        0 <= m <= sockets.len(),
    ensures
        spec_total_size(sockets.take(m)) <= spec_total_size(sockets),
    decreases sockets.len(),
{
    if m == sockets.len() {
        assert(sockets.take(m) == sockets);
    } else {
        assert(sockets.take(m) == sockets.drop_last().take(m));
        lemma_total_size_prefix(sockets.drop_last(), m);
    }
}

/// The missile component a configured seeker with its mode is saved as.
pub open spec fn spec_seeker_component(s: SeekerWithMode) -> (Option<MissileComponentKey>, Option<SettingsView>) {
    let (seeker, mode, reject) = s.spec_into_parts();
    let (key, settings) = match seeker {
        SeekerConfigured::Command => (MissileComponentKey::CommandReceiver, SettingsView::CommandSeeker(mode)),
        SeekerConfigured::FixedActiveRadar { detect_pd_targets } =>
            (MissileComponentKey::FixedActiveRadarSeeker, SettingsView::ActiveSeeker(mode, reject, detect_pd_targets)),
        SeekerConfigured::SteerableActiveRadar { detect_pd_targets } =>
            (MissileComponentKey::SteerableActiveRadarSeeker, SettingsView::ActiveSeeker(mode, reject, detect_pd_targets)),
        SeekerConfigured::SteerableExtendedActiveRadar { detect_pd_targets } =>
            (MissileComponentKey::SteerableExtendedActiveRadarSeeker, SettingsView::ActiveSeeker(mode, reject, detect_pd_targets)),
        SeekerConfigured::FixedSemiActiveRadar { detect_pd_targets } =>
            (MissileComponentKey::FixedSemiActiveRadarSeeker, SettingsView::ActiveSeeker(mode, reject, detect_pd_targets)),
        SeekerConfigured::FixedAntiRadiation =>
            (MissileComponentKey::FixedAntiRadiationSeeker, SettingsView::PassiveARHSeeker(mode, reject, false)),
        SeekerConfigured::FixedHomeOnJam =>
            (MissileComponentKey::FixedAntiRadiationSeeker, SettingsView::PassiveARHSeeker(mode, reject, true)),
        SeekerConfigured::ElectroOptical { detect_pd_targets } =>
            (MissileComponentKey::ElectroOpticalSeeker, SettingsView::PassiveSeeker(mode, reject, detect_pd_targets)),
        SeekerConfigured::WakeHoming { detect_pd_targets } =>
            (MissileComponentKey::WakeHomingSeeker, SettingsView::PassiveSeeker(mode, reject, detect_pd_targets)),
    };
    (Some(key), Some(settings))
}

impl SeekerWithMode {
    /// The missile component this seeker is saved as: its component key, and
    /// the settings of its kind with its mode and flags.
    pub fn into_missile_component(self) -> (r: MissileComponent)
        ensures
            component_view(r) == spec_seeker_component(self),
    {
        let (seeker, mode, reject_unvalidated) = self.into_parts();
        let (component_key, settings) = match seeker {
            SeekerConfigured::Command => (MissileComponentKey::CommandReceiver, MissileComponentSettings::CommandSeekerSettings { mode }),
            SeekerConfigured::FixedActiveRadar { detect_pd_targets } => (MissileComponentKey::FixedActiveRadarSeeker,
                MissileComponentSettings::ActiveSeekerSettings { mode, reject_unvalidated, detect_pd_targets }),
            SeekerConfigured::SteerableActiveRadar { detect_pd_targets } => (MissileComponentKey::SteerableActiveRadarSeeker,
                MissileComponentSettings::ActiveSeekerSettings { mode, reject_unvalidated, detect_pd_targets }),
            SeekerConfigured::SteerableExtendedActiveRadar { detect_pd_targets } => (MissileComponentKey::SteerableExtendedActiveRadarSeeker,
                MissileComponentSettings::ActiveSeekerSettings { mode, reject_unvalidated, detect_pd_targets }),
            SeekerConfigured::FixedSemiActiveRadar { detect_pd_targets } => (MissileComponentKey::FixedSemiActiveRadarSeeker,
                MissileComponentSettings::ActiveSeekerSettings { mode, reject_unvalidated, detect_pd_targets }),
            SeekerConfigured::FixedAntiRadiation => (MissileComponentKey::FixedAntiRadiationSeeker,
                MissileComponentSettings::PassiveARHSeekerSettings { mode, reject_unvalidated, home_on_jam: false }),
            SeekerConfigured::FixedHomeOnJam => (MissileComponentKey::FixedAntiRadiationSeeker,
                MissileComponentSettings::PassiveARHSeekerSettings { mode, reject_unvalidated, home_on_jam: true }),
            SeekerConfigured::ElectroOptical { detect_pd_targets } => (MissileComponentKey::ElectroOpticalSeeker,
                MissileComponentSettings::PassiveSeekerSettings { mode, reject_unvalidated, detect_pd_targets }),
            SeekerConfigured::WakeHoming { detect_pd_targets } => (MissileComponentKey::WakeHomingSeeker,
                MissileComponentSettings::PassiveSeekerSettings { mode, reject_unvalidated, detect_pd_targets }),
        };
        MissileComponent { component_key: Some(component_key), settings: Some(settings) }
    }
}

/// The missile component a guidance package with its settings is saved as.
pub open spec fn spec_avionics_component(a: AvionicsConfigured) -> (Option<MissileComponentKey>, Option<SettingsView>) {
    match a {
        AvionicsConfigured::DirectGuidance { hot_launch, self_destruct_on_lost, maneuvers, defensive_doctrine, approach_angle_control } =>
            (Some(MissileComponentKey::DirectGuidance), Some(SettingsView::DirectGuidance(
                hot_launch, self_destruct_on_lost, maneuvers, defensive_doctrine, approach_angle_control))),
        AvionicsConfigured::CruiseGuidance { hot_launch, self_destruct_on_lost, maneuvers, defensive_doctrine } =>
            (Some(MissileComponentKey::CruiseGuidance), Some(SettingsView::CruiseGuidance(
                hot_launch, self_destruct_on_lost, maneuvers, defensive_doctrine))),
    }
}

impl AvionicsConfigured {
    /// The missile component this guidance package is saved as.
    pub fn into_missile_component(self) -> (r: MissileComponent)
        ensures
            component_view(r) == spec_avionics_component(self),
    {
        let (component_key, settings) = match self {
            AvionicsConfigured::DirectGuidance { hot_launch, self_destruct_on_lost, maneuvers, defensive_doctrine, approach_angle_control } =>
                (MissileComponentKey::DirectGuidance, MissileComponentSettings::DirectGuidanceSettings {
                    hot_launch, self_destruct_on_lost, maneuvers, defensive_doctrine, approach_angle_control,
                }),
            AvionicsConfigured::CruiseGuidance { hot_launch, self_destruct_on_lost, maneuvers, defensive_doctrine } =>
                (MissileComponentKey::CruiseGuidance, MissileComponentSettings::CruiseGuidanceSettings {
                    hot_launch, self_destruct_on_lost, maneuvers, defensive_doctrine,
                }),
        };
        MissileComponent { component_key: Some(component_key), settings: Some(settings) }
    }
}

/// A seeker saved as a missile component reads back as that seeker; a
/// validating command receiver is saved without its reject flag, so it
/// reads back only when that flag is off.
pub proof fn lemma_seeker_component_round_trip(s: SeekerWithMode)
    requires
        !(s matches SeekerWithMode::Validation { seeker: SeekerConfigured::Command, reject_unvalidated: true }),
    ensures
        spec_loadout_component(spec_seeker_component(s).0, spec_seeker_component(s).1)
            == Some(LoadoutComponentView::Seeker(s)),
{
    match s {
        SeekerWithMode::Targeting { seeker } | SeekerWithMode::Validation { seeker, .. } => match seeker {
            SeekerConfigured::Command => {},
            SeekerConfigured::FixedActiveRadar { .. } => {},
            SeekerConfigured::SteerableActiveRadar { .. } => {},
            SeekerConfigured::SteerableExtendedActiveRadar { .. } => {},
            SeekerConfigured::FixedSemiActiveRadar { .. } => {},
            SeekerConfigured::FixedAntiRadiation => {},
            SeekerConfigured::FixedHomeOnJam => {},
            SeekerConfigured::ElectroOptical { .. } => {},
            SeekerConfigured::WakeHoming { .. } => {},
        },
    }
}

/// A guidance package saved as a missile component reads back as that
/// guidance package.
pub proof fn lemma_avionics_component_round_trip(a: AvionicsConfigured)
    ensures
        spec_loadout_component(spec_avionics_component(a).0, spec_avionics_component(a).1)
            == Some(LoadoutComponentView::Avionics(a)),
{
}

} // verus!
