use nebulous_data::format::template::MissileTemplateContents;
use nebulous_data::data::missiles::AvionicsKey;
use nebulous_data::data::missiles::seekers::strategy::SeekerStrategy;
use nebulous_data::data::missiles::bodies::MissileBodyKey;
use nebulous_data::data::missiles::seekers::{SeekerKey, SeekerMode};
use nebulous_data::data::missiles::{AuxiliaryKey, Maneuvers, WarheadKey};
use nebulous_data::format::missile::{BalanceValues, MissileComponent, MissileComponentSettings, MissileSocket};
use nebulous_data::format::template::{Color, MissileTemplate};
use nebulous_data::format::{FormatError, MissileComponentKey};
use nebulous_data::loadout::{AvionicsConfigured, MissileLoadout, MissileLoadoutComponent, MissileLoadoutError,
    MissileLoadoutSocket, SeekerConfigured, SeekerWithMode};
use nebulous_data::xml::{Element, Error, Node, Nodes};

fn color(v: &str) -> Color {
    Color { r: v.to_string(), g: v.to_string(), b: v.to_string(), a: "1".to_string() }
}

fn seeker(mode: SeekerMode) -> MissileComponent {
    MissileComponent { component_key: Some(MissileComponentKey::FixedActiveRadarSeeker), settings: Some(
        MissileComponentSettings::ActiveSeekerSettings { mode, reject_unvalidated: true, detect_pd_targets: false }) }
}

fn engine() -> MissileComponent {
    MissileComponent { component_key: None, settings: Some(MissileComponentSettings::MissileEngineSettings {
        balance_values: BalanceValues { a: "0.5".to_string(), b: "0.25".to_string(), c: "0.25".to_string() } }) }
}

fn template(sockets: Vec<MissileSocket>) -> MissileTemplate {
    MissileTemplate {
        associated_template_name: Some("Home/Hammer".to_string()),
        designation: "SGM-2".to_string(),
        nickname: "Hammer".to_string(),
        description: "".to_string(),
        long_description: "A missile.".to_string(),
        cost: 25,
        body_key: MissileBodyKey::SGM2Tempest,
        template_key: "7a6c4d3e-1111-4222-8333-944455556666".to_string(),
        base_color: color("0.5"),
        stripe_color: color("0.25"),
        sockets,
    }
}

fn sockets() -> Vec<MissileSocket> {
    vec![
        MissileSocket { size: 1, installed_component: Some(seeker(SeekerMode::Targeting)) },
        MissileSocket { size: 1, installed_component: Some(MissileComponent {
            component_key: Some(MissileComponentKey::ElectroOpticalSeeker), settings: Some(
                MissileComponentSettings::PassiveSeekerSettings { mode: SeekerMode::Validation, reject_unvalidated: false, detect_pd_targets: true }) }) },
        MissileSocket { size: 1, installed_component: Some(MissileComponent {
            component_key: Some(MissileComponentKey::CruiseGuidance), settings: Some(
                MissileComponentSettings::CruiseGuidanceSettings { hot_launch: true, self_destruct_on_lost: false,
                    maneuvers: Maneuvers::Weave, defensive_doctrine: None }) }) },
        MissileSocket { size: 2, installed_component: Some(MissileComponent {
            component_key: Some(MissileComponentKey::HEImpact), settings: None }) },
        MissileSocket { size: 1, installed_component: Some(MissileComponent {
            component_key: Some(MissileComponentKey::ColdGasBottle), settings: None }) },
        MissileSocket { size: 3, installed_component: Some(engine()) },
        MissileSocket { size: 1, installed_component: None },
    ]
}

#[test]
fn template_round_trips() {
    let t = template(sockets());
    assert_eq!(t.calculate_cost(), 25);
    let e = t.clone().serialize_element();
    assert_eq!(e.name, "MissileTemplate");
    assert_eq!(e.children.nodes.len(), 11);
    assert_eq!(MissileTemplate::deserialize_element(e), Ok(t.clone()));
    let mut unnamed = t;
    unnamed.associated_template_name = None;
    let e = unnamed.clone().serialize_element();
    assert_eq!(e.children.nodes.len(), 10);
    assert_eq!(MissileTemplate::deserialize_element(e), Ok(unnamed));
}

#[test]
fn template_errors() {
    let mut e = template(vec![]).serialize_element();
    e.children.nodes.pop();
    assert_eq!(MissileTemplate::deserialize_element(e), Err(FormatError::XmlError(Error::MissingElement("Sockets".to_string()))));
    let zero = Element::new("MissileSocket".to_string(), Nodes { nodes: vec![
        Node::Element(Element::new("Size".to_string(), Nodes { nodes: vec![Node::Text("0".to_string())] })),
    ] });
    assert_eq!(MissileSocket::deserialize_element(zero), Err(FormatError::XmlError(Error::ParseError("0".to_string()))));
    let socket = MissileSocket { size: 4, installed_component: Some(engine()) };
    assert_eq!(MissileSocket::deserialize_element(socket.clone().serialize_element()), Ok(socket));
}

#[test]
fn loadout_from_template() {
    let loadout = MissileLoadout::from_missile_template(template(sockets())).unwrap();
    assert_eq!(loadout.body_key, MissileBodyKey::SGM2Tempest);
    assert_eq!(loadout.sockets.len(), 7);
    assert_eq!(loadout.len(), 10);
    assert_eq!(loadout.iter_seekers(), vec![(SeekerKey::FixedActiveRadar, SeekerMode::Targeting), (SeekerKey::ElectroOptical, SeekerMode::Validation)]);
    assert_eq!(loadout.sockets[0].component, Some(MissileLoadoutComponent::Seeker(
        SeekerWithMode::Targeting { seeker: SeekerConfigured::FixedActiveRadar { detect_pd_targets: false } })));
    assert_eq!(loadout.sockets[2].component, Some(MissileLoadoutComponent::Avionics(AvionicsConfigured::CruiseGuidance {
        hot_launch: true, self_destruct_on_lost: false, maneuvers: Maneuvers::Weave, defensive_doctrine: None })));
    assert_eq!(loadout.sockets[3], MissileLoadoutSocket { component: Some(MissileLoadoutComponent::Warhead(WarheadKey::HEImpact)), size: 2 });
    assert_eq!(loadout.sockets[4].component, Some(MissileLoadoutComponent::Auxiliary(AuxiliaryKey::ColdGasBottle)));
    assert!(matches!(loadout.sockets[5].component, Some(MissileLoadoutComponent::Engine(_))));
    assert_eq!(loadout.sockets[6].component, None);
}

#[test]
fn loadout_refuses_mismatched_components() {
    // a seeker with guidance settings
    let wrong = MissileComponent { component_key: Some(MissileComponentKey::CommandReceiver), settings: Some(
        MissileComponentSettings::ActiveSeekerSettings { mode: SeekerMode::Targeting, reject_unvalidated: false, detect_pd_targets: false }) };
    assert_eq!(MissileLoadoutComponent::from_missile_component(wrong.clone()), Err(MissileLoadoutError::InvalidMissileComponent));
    // a warhead with settings, an engine with a key
    let warhead = MissileComponent { component_key: Some(MissileComponentKey::HEImpact), settings: Some(
        MissileComponentSettings::CommandSeekerSettings { mode: SeekerMode::Targeting }) };
    assert_eq!(MissileLoadoutComponent::from_missile_component(warhead), Err(MissileLoadoutError::InvalidMissileComponent));
    let mut keyed_engine = engine();
    keyed_engine.component_key = Some(MissileComponentKey::HEImpact);
    assert_eq!(MissileLoadoutComponent::from_missile_component(keyed_engine), Err(MissileLoadoutError::InvalidMissileComponent));
    // a home-on-jam anti-radiation seeker
    let arh = MissileComponent { component_key: Some(MissileComponentKey::FixedAntiRadiationSeeker), settings: Some(
        MissileComponentSettings::PassiveARHSeekerSettings { mode: SeekerMode::Validation, reject_unvalidated: true, home_on_jam: true }) };
    assert_eq!(MissileLoadoutComponent::from_missile_component(arh), Ok(MissileLoadoutComponent::Seeker(
        SeekerWithMode::Validation { seeker: SeekerConfigured::FixedHomeOnJam, reject_unvalidated: true })));
    let with_wrong = template(vec![MissileSocket { size: 1, installed_component: Some(wrong) }]);
    assert_eq!(MissileLoadout::from_missile_template(with_wrong), Err(MissileLoadoutError::InvalidMissileComponent));
}

#[test]
fn loadout_components_round_trip() {
    let seekers = [
        SeekerWithMode::Targeting { seeker: SeekerConfigured::Command },
        SeekerWithMode::Validation { seeker: SeekerConfigured::Command, reject_unvalidated: false },
        SeekerWithMode::Targeting { seeker: SeekerConfigured::SteerableActiveRadar { detect_pd_targets: true } },
        SeekerWithMode::Validation { seeker: SeekerConfigured::FixedSemiActiveRadar { detect_pd_targets: false }, reject_unvalidated: true },
        SeekerWithMode::Targeting { seeker: SeekerConfigured::FixedHomeOnJam },
        SeekerWithMode::Validation { seeker: SeekerConfigured::FixedAntiRadiation, reject_unvalidated: true },
        SeekerWithMode::Validation { seeker: SeekerConfigured::WakeHoming { detect_pd_targets: true }, reject_unvalidated: false },
    ];
    for s in seekers {
        assert_eq!(MissileLoadoutComponent::from_missile_component(s.into_missile_component()), Ok(MissileLoadoutComponent::Seeker(s)));
    }
    let c = SeekerWithMode::Targeting { seeker: SeekerConfigured::FixedHomeOnJam }.into_missile_component();
    assert_eq!(c, MissileComponent { component_key: Some(MissileComponentKey::FixedAntiRadiationSeeker), settings: Some(
        MissileComponentSettings::PassiveARHSeekerSettings { mode: SeekerMode::Targeting, reject_unvalidated: false, home_on_jam: true }) });
    // the reject flag of a validating command receiver is not saved
    let command = SeekerWithMode::Validation { seeker: SeekerConfigured::Command, reject_unvalidated: true };
    assert_eq!(MissileLoadoutComponent::from_missile_component(command.into_missile_component()), Ok(MissileLoadoutComponent::Seeker(
        SeekerWithMode::Validation { seeker: SeekerConfigured::Command, reject_unvalidated: false })));
    let guidance = AvionicsConfigured::DirectGuidance { hot_launch: false, self_destruct_on_lost: true,
        maneuvers: Maneuvers::Corkscrew, defensive_doctrine: None, approach_angle_control: true };
    assert_eq!(MissileLoadoutComponent::from_missile_component(guidance.into_missile_component()), Ok(MissileLoadoutComponent::Avionics(guidance)));
}

#[test]
fn template_contents() {
    let mut all = sockets();
    all.push(MissileSocket { size: 1, installed_component: Some(MissileComponent {
        component_key: Some(MissileComponentKey::FixedAntiRadiationSeeker), settings: Some(
            MissileComponentSettings::PassiveARHSeekerSettings { mode: SeekerMode::Targeting, reject_unvalidated: false, home_on_jam: true }) }) });
    let contents = template(all).contents();
    assert_eq!(contents, MissileTemplateContents {
        body_key: MissileBodyKey::SGM2Tempest,
        seekers: Some(SeekerStrategy::new(SeekerKey::FixedActiveRadar, vec![
            (SeekerKey::ElectroOptical, SeekerMode::Validation),
            (SeekerKey::FixedHomeOnJam, SeekerMode::Targeting),
        ])),
        warheads: vec![(WarheadKey::HEImpact, 2)],
        avionics: Some((AvionicsKey::CruiseGuidance, Maneuvers::Weave, None)),
        auxiliary_components: vec![AuxiliaryKey::ColdGasBottle],
        engine_settings: vec![(BalanceValues { a: "0.5".to_string(), b: "0.25".to_string(), c: "0.25".to_string() }, 3)],
    });
    // a template without seekers has none, and does not fail
    let bare = template(vec![MissileSocket { size: 3, installed_component: Some(engine()) }]).contents();
    assert_eq!(bare.seekers, None);
    assert_eq!(bare.engine_settings.len(), 1);
    assert!(bare.warheads.is_empty() && bare.auxiliary_components.is_empty() && bare.avionics.is_none());
}
