use nebulous_data::data::missiles::seekers::SeekerMode;
use nebulous_data::data::missiles::Maneuvers;
use nebulous_data::format::missile::{BalanceValues, MissileComponent, MissileComponentSettings, serialize_settings};
use nebulous_data::format::{DefensiveDoctrine, DefensiveTargetType, FormatError, MissileComponentKey, MissileSizeMask, SizeOrdering};
use nebulous_data::xml::{Attributes, Element, Error, Node, Nodes};

fn text(s: &str) -> Node {
    Node::Text(s.to_string())
}

fn el(name: &str, children: Vec<Node>) -> Node {
    Node::Element(Element::new(name.to_string(), Nodes { nodes: children }))
}

fn typed(tag: &str, children: Vec<Node>) -> Element {
    let attributes = Attributes { list: vec![("xsi:type".to_string(), tag.to_string())] };
    Element::with_attributes("InstalledComponent".to_string(), attributes, Nodes { nodes: children })
}

fn round_trip(c: MissileComponent) {
    let e = c.clone().serialize_element();
    assert_eq!(MissileComponent::deserialize_element(e), Ok(c));
}

#[test]
fn missile_component_round_trips() {
    let doctrine = DefensiveDoctrine {
        target_size_mask: MissileSizeMask { size1: true, size2: false, size3: true },
        target_type: DefensiveTargetType::Hybrid,
        target_size_ordering: SizeOrdering::Ascending,
        salvo_size: 2,
        farthest_first: true,
    };
    let all = vec![
        MissileComponent { component_key: Some(MissileComponentKey::FixedActiveRadarSeeker), settings: Some(
            MissileComponentSettings::ActiveSeekerSettings { mode: SeekerMode::Targeting, reject_unvalidated: true, detect_pd_targets: false }) },
        MissileComponent { component_key: Some(MissileComponentKey::CommandReceiver), settings: Some(
            MissileComponentSettings::CommandSeekerSettings { mode: SeekerMode::Validation }) },
        MissileComponent { component_key: Some(MissileComponentKey::DirectGuidance), settings: Some(
            MissileComponentSettings::DirectGuidanceSettings { hot_launch: true, self_destruct_on_lost: false,
                maneuvers: Maneuvers::Weave, defensive_doctrine: Some(doctrine), approach_angle_control: true }) },
        MissileComponent { component_key: Some(MissileComponentKey::CruiseGuidance), settings: Some(
            MissileComponentSettings::CruiseGuidanceSettings { hot_launch: false, self_destruct_on_lost: true,
                maneuvers: Maneuvers::Corkscrew, defensive_doctrine: None }) },
        MissileComponent { component_key: None, settings: Some(MissileComponentSettings::MissileEngineSettings {
            balance_values: BalanceValues { a: "0.5".to_string(), b: "0.25".to_string(), c: "0.25".to_string() } }) },
        MissileComponent { component_key: Some(MissileComponentKey::FixedAntiRadiationSeeker), settings: Some(
            MissileComponentSettings::PassiveARHSeekerSettings { mode: SeekerMode::Targeting, reject_unvalidated: false, home_on_jam: true }) },
        MissileComponent { component_key: Some(MissileComponentKey::ElectroOpticalSeeker), settings: Some(
            MissileComponentSettings::PassiveSeekerSettings { mode: SeekerMode::Validation, reject_unvalidated: false, detect_pd_targets: true }) },
        MissileComponent { component_key: Some(MissileComponentKey::HEImpact), settings: None },
    ];
    for c in all {
        round_trip(c);
    }
}

#[test]
fn missile_component_saved_form() {
    let c = MissileComponent { component_key: Some(MissileComponentKey::FixedAntiRadiationSeeker), settings: Some(
        MissileComponentSettings::PassiveARHSeekerSettings { mode: SeekerMode::Targeting, reject_unvalidated: false, home_on_jam: true }) };
    assert_eq!(c.serialize_element(), typed("PassiveARHSeekerSettings", vec![
        el("ComponentKey", vec![text("Stock/Fixed Anti-Radiation Seeker")]),
        el("Mode", vec![text("Targeting")]),
        el("RejectUnvalidated", vec![text("false")]),
        el("TargetType", vec![text("JammingOnly")]),
    ]));
    let (tag, nodes) = serialize_settings(MissileComponentSettings::CruiseGuidanceSettings {
        hot_launch: false, self_destruct_on_lost: true, maneuvers: Maneuvers::NoManeuvers, defensive_doctrine: None });
    assert_eq!(tag, "CruiseGuidanceSettings");
    assert_eq!(nodes.len(), 5);
    assert_eq!(nodes[0], el("Role", vec![text("Offensive")]));
    assert_eq!(nodes[4], Node::Element(DefensiveDoctrine::default().serialize_element()));
}

#[test]
fn missile_component_reading() {
    // an empty key is no key, and the reject flag defaults to false
    let e = typed("ActiveSeekerSettings", vec![
        el("ComponentKey", vec![]),
        el("Mode", vec![text("Targeting")]),
        el("DetectPDTargets", vec![text("true")]),
    ]);
    assert_eq!(MissileComponent::deserialize_element(e), Ok(MissileComponent { component_key: None, settings: Some(
        MissileComponentSettings::ActiveSeekerSettings { mode: SeekerMode::Targeting, reject_unvalidated: false, detect_pd_targets: true }) }));
    // an offensive guidance package ignores its doctrine
    let e = typed("CruiseGuidanceSettings", vec![
        el("Role", vec![text("Offensive")]),
        el("HotLaunch", vec![text("true")]),
        el("SelfDestructOnLost", vec![text("true")]),
        el("Maneuvers", vec![text("Weave")]),
    ]);
    assert_eq!(MissileComponent::deserialize_element(e), Ok(MissileComponent { component_key: None, settings: Some(
        MissileComponentSettings::CruiseGuidanceSettings { hot_launch: true, self_destruct_on_lost: true,
            maneuvers: Maneuvers::Weave, defensive_doctrine: None }) }));
    // errors
    let unknown = typed("WarpSettings", vec![]);
    assert_eq!(MissileComponent::deserialize_element(unknown), Err(FormatError::UnknownMissileSettingsType("WarpSettings".to_string())));
    let defensive = typed("CruiseGuidanceSettings", vec![
        el("Role", vec![text("Defensive")]),
        el("HotLaunch", vec![text("true")]),
        el("SelfDestructOnLost", vec![text("true")]),
        el("Maneuvers", vec![text("Weave")]),
    ]);
    assert!(MissileComponent::deserialize_element(defensive).is_err());
    let bad_flag = typed("CommandSeekerSettings", vec![el("Mode", vec![text("Targeting")]), el("RejectUnvalidated", vec![text("yes")])]);
    assert!(MissileComponent::deserialize_element(bad_flag).is_err());
    let misnamed = Element::new("Component".to_string(), Nodes { nodes: vec![] });
    assert!(MissileComponent::deserialize_element(misnamed).is_err());
}

#[test]
fn missile_component_errors() {
    let missing = typed("ActiveSeekerSettings", vec![el("DetectPDTargets", vec![text("true")])]);
    assert_eq!(MissileComponent::deserialize_element(missing),
        Err(FormatError::XmlError(Error::MissingElement("Mode".to_string()))));
    let bad = typed("ActiveSeekerSettings", vec![el("Mode", vec![text("Sideways")]), el("DetectPDTargets", vec![text("true")])]);
    assert_eq!(MissileComponent::deserialize_element(bad),
        Err(FormatError::XmlError(Error::ParseError("Sideways".to_string()))));
    let bad_detect = typed("PassiveSeekerSettings", vec![el("Mode", vec![text("Targeting")]), el("DetectPDTargets", vec![text("maybe")])]);
    assert_eq!(MissileComponent::deserialize_element(bad_detect),
        Err(FormatError::XmlError(Error::ParseError("maybe".to_string()))));
    let engine = typed("MissileEngineSettings", vec![]);
    assert_eq!(MissileComponent::deserialize_element(engine),
        Err(FormatError::XmlError(Error::MissingElement("BalanceValues".to_string()))));
    let nested = typed("CommandSeekerSettings", vec![el("Mode", vec![el("Inner", vec![])])]);
    assert!(matches!(MissileComponent::deserialize_element(nested),
        Err(FormatError::XmlError(Error::UnexpectedElementExpectedText(x))) if x.name == "Inner"));
    let key = typed("CommandSeekerSettings", vec![el("ComponentKey", vec![text("Stock/Nothing")]), el("Mode", vec![text("Targeting")])]);
    assert_eq!(MissileComponent::deserialize_element(key),
        Err(FormatError::XmlError(Error::ParseError("Stock/Nothing".to_string()))));
    let misnamed = Element::new("Component".to_string(), Nodes { nodes: vec![] });
    assert!(matches!(MissileComponent::deserialize_element(misnamed),
        Err(FormatError::XmlError(Error::UnexpectedElementExpectedElement(_, n))) if n == "InstalledComponent"));
}
