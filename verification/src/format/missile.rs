use vstd::prelude::*;
use crate::xml::{Node, Element, Nodes, Attributes, Error, spec_find_elements, spec_find_attributes, names_view,
    lemma_find_elements_len, lemma_find_attributes_len};
use crate::format::{FormatError, DefensiveDoctrine, MissileComponentKey, MissileRole, AntiRadiationTargetType};
use crate::format::codec::{spec_text, spec_field_text, is_text_element, text_element, spec_parse_bool,
    spec_bool_text, bool_text, parse_bool, spec_doctrine_from_element, is_doctrine_element, field_text, is_first_element,
    lemma_single_text, lemma_name_index_of_distinct, lemma_find_fields_in_order, lemma_doctrine_round_trip};
use crate::format::{lemma_missile_component_key_round_trip, lemma_missile_role_round_trip,
    lemma_anti_radiation_target_type_round_trip};
use crate::data::missiles::lemma_maneuvers_round_trip;
use crate::data::missiles::seekers::lemma_seeker_mode_round_trip;
use crate::data::missiles::Maneuvers;
use crate::text::{parse_usize, spec_parse_usize, spec_decimal, usize_to_decimal, lemma_parse_decimal_round_trip};
use crate::data::missiles::seekers::SeekerMode;

verus! {

/// The three balance values of a missile engine, held as the text they are
/// saved as (the game reads them as floating-point numbers).
#[derive(Debug, Clone, PartialEq, Eq)]
pub struct BalanceValues {
    pub a: String,
    pub b: String,
    pub c: String,
}

/// The settings of a component installed in a missile, by the kind of
/// component.
#[derive(Debug, Clone, PartialEq, Eq)]
pub enum MissileComponentSettings {
    ActiveSeekerSettings { mode: SeekerMode, reject_unvalidated: bool, detect_pd_targets: bool },
    CommandSeekerSettings { mode: SeekerMode },
    DirectGuidanceSettings {
        hot_launch: bool,
        self_destruct_on_lost: bool,
        maneuvers: Maneuvers,
        defensive_doctrine: Option<DefensiveDoctrine>,
        approach_angle_control: bool,
    },
    CruiseGuidanceSettings {
        hot_launch: bool,
        self_destruct_on_lost: bool,
        maneuvers: Maneuvers,
        defensive_doctrine: Option<DefensiveDoctrine>,
    },
    MissileEngineSettings { balance_values: BalanceValues },
    PassiveARHSeekerSettings { mode: SeekerMode, reject_unvalidated: bool, home_on_jam: bool },
    PassiveSeekerSettings { mode: SeekerMode, reject_unvalidated: bool, detect_pd_targets: bool },
}

/// A component installed in a missile socket.
#[derive(Debug, Clone, PartialEq, Eq)]
pub struct MissileComponent {
    /// Only `None` when this component is an engine.
    pub component_key: Option<MissileComponentKey>,
    pub settings: Option<MissileComponentSettings>,
}

/// Missile component settings as plain values.
pub enum SettingsView {
    ActiveSeeker(SeekerMode, bool, bool),
    CommandSeeker(SeekerMode),
    DirectGuidance(bool, bool, Maneuvers, Option<DefensiveDoctrine>, bool),
    CruiseGuidance(bool, bool, Maneuvers, Option<DefensiveDoctrine>),
    MissileEngine(Seq<char>, Seq<char>, Seq<char>),
    PassiveARHSeeker(SeekerMode, bool, bool),
    PassiveSeeker(SeekerMode, bool, bool),
}

/// The settings `s` as plain values.
pub open spec fn settings_view(s: MissileComponentSettings) -> SettingsView {
    match s {
        MissileComponentSettings::ActiveSeekerSettings { mode, reject_unvalidated, detect_pd_targets } =>
            SettingsView::ActiveSeeker(mode, reject_unvalidated, detect_pd_targets),
        MissileComponentSettings::CommandSeekerSettings { mode } => SettingsView::CommandSeeker(mode),
        MissileComponentSettings::DirectGuidanceSettings { hot_launch, self_destruct_on_lost, maneuvers, defensive_doctrine, approach_angle_control } =>
            SettingsView::DirectGuidance(hot_launch, self_destruct_on_lost, maneuvers, defensive_doctrine, approach_angle_control),
        MissileComponentSettings::CruiseGuidanceSettings { hot_launch, self_destruct_on_lost, maneuvers, defensive_doctrine } =>
            SettingsView::CruiseGuidance(hot_launch, self_destruct_on_lost, maneuvers, defensive_doctrine),
        MissileComponentSettings::MissileEngineSettings { balance_values } =>
            SettingsView::MissileEngine(balance_values.a@, balance_values.b@, balance_values.c@),
        MissileComponentSettings::PassiveARHSeekerSettings { mode, reject_unvalidated, home_on_jam } =>
            SettingsView::PassiveARHSeeker(mode, reject_unvalidated, home_on_jam),
        MissileComponentSettings::PassiveSeekerSettings { mode, reject_unvalidated, detect_pd_targets } =>
            SettingsView::PassiveSeeker(mode, reject_unvalidated, detect_pd_targets),
    }
}

/// The component `c` as plain values.
pub open spec fn component_view(c: MissileComponent) -> (Option<MissileComponentKey>, Option<SettingsView>) {
    (c.component_key, match c.settings {
        Some(s) => Some(settings_view(s)),
        None => None,
    })
}

/// The `xsi:type` each kind of settings is saved under.
pub open spec fn settings_tag(s: SettingsView) -> Seq<char> {
    match s {
        SettingsView::ActiveSeeker(..) => "ActiveSeekerSettings"@,
        SettingsView::CommandSeeker(..) => "CommandSeekerSettings"@,
        SettingsView::DirectGuidance(..) => "DirectGuidanceSettings"@,
        SettingsView::CruiseGuidance(..) => "CruiseGuidanceSettings"@,
        SettingsView::MissileEngine(..) => "MissileEngineSettings"@,
        SettingsView::PassiveARHSeeker(..) => "PassiveARHSeekerSettings"@,
        SettingsView::PassiveSeeker(..) => "PassiveSeekerSettings"@,
    }
}

/// The role a guidance package is saved with: defensive exactly when it
/// carries a defensive doctrine.
pub open spec fn role_of(doctrine: Option<DefensiveDoctrine>) -> MissileRole {
    if doctrine is Some { MissileRole::Defensive } else { MissileRole::Offensive }
}

/// The doctrine element saved for a guidance package: its doctrine, or the
/// default one when it has none.
pub open spec fn saved_doctrine(doctrine: Option<DefensiveDoctrine>) -> DefensiveDoctrine {
    match doctrine {
        Some(d) => d,
        None => DefensiveDoctrine::spec_default(),
    }
}

/// The target type an anti-radiation seeker is saved with.
pub open spec fn target_type_of(home_on_jam: bool) -> AntiRadiationTargetType {
    if home_on_jam { AntiRadiationTargetType::JammingOnly } else { AntiRadiationTargetType::All }
}

/// Whether `nodes` are the field elements the settings `s` are saved as.
pub open spec fn is_settings_nodes(nodes: Seq<Node>, s: SettingsView) -> bool {
    match s {
        SettingsView::ActiveSeeker(mode, reject, detect) | SettingsView::PassiveSeeker(mode, reject, detect) => {
            &&& nodes.len() == 3
            &&& is_text_element(nodes[0], "Mode"@, mode.spec_to_str())
            &&& is_text_element(nodes[1], "RejectUnvalidated"@, spec_bool_text(reject))
            &&& is_text_element(nodes[2], "DetectPDTargets"@, spec_bool_text(detect))
        },
        SettingsView::CommandSeeker(mode) => {
            &&& nodes.len() == 1
            &&& is_text_element(nodes[0], "Mode"@, mode.spec_to_str())
        },
        SettingsView::DirectGuidance(hot, destruct, maneuvers, doctrine, approach) => {
            &&& nodes.len() == 6
            &&& is_text_element(nodes[0], "Role"@, role_of(doctrine).spec_to_str())
            &&& is_text_element(nodes[1], "HotLaunch"@, spec_bool_text(hot))
            &&& is_text_element(nodes[2], "SelfDestructOnLost"@, spec_bool_text(destruct))
            &&& is_text_element(nodes[3], "Maneuvers"@, maneuvers.spec_to_str())
            &&& nodes[4] is Element
            &&& is_doctrine_element(nodes[4]->Element_0, saved_doctrine(doctrine))
            &&& is_text_element(nodes[5], "ApproachAngleControl"@, spec_bool_text(approach))
        },
        SettingsView::CruiseGuidance(hot, destruct, maneuvers, doctrine) => {
            &&& nodes.len() == 5
            &&& is_text_element(nodes[0], "Role"@, role_of(doctrine).spec_to_str())
            &&& is_text_element(nodes[1], "HotLaunch"@, spec_bool_text(hot))
            &&& is_text_element(nodes[2], "SelfDestructOnLost"@, spec_bool_text(destruct))
            &&& is_text_element(nodes[3], "Maneuvers"@, maneuvers.spec_to_str())
            &&& nodes[4] is Element
            &&& is_doctrine_element(nodes[4]->Element_0, saved_doctrine(doctrine))
        },
        SettingsView::MissileEngine(a, b, c) => {
            &&& nodes.len() == 1
            &&& nodes[0] is Element
            &&& nodes[0]->Element_0.name@ == "BalanceValues"@
            &&& nodes[0]->Element_0.attributes.list@.len() == 0
            &&& nodes[0]->Element_0.children.nodes@.len() == 3
            &&& is_text_element(nodes[0]->Element_0.children.nodes@[0], "A"@, a)
            &&& is_text_element(nodes[0]->Element_0.children.nodes@[1], "B"@, b)
            &&& is_text_element(nodes[0]->Element_0.children.nodes@[2], "C"@, c)
        },
        SettingsView::PassiveARHSeeker(mode, reject, home_on_jam) => {
            &&& nodes.len() == 3
            &&& is_text_element(nodes[0], "Mode"@, mode.spec_to_str())
            &&& is_text_element(nodes[1], "RejectUnvalidated"@, spec_bool_text(reject))
            &&& is_text_element(nodes[2], "TargetType"@, target_type_of(home_on_jam).spec_to_str())
        },
    }
}

/// The `xsi:type` and the field elements that the settings `settings` are
/// saved as.
pub fn serialize_settings(settings: MissileComponentSettings) -> (r: (&'static str, Vec<Node>))
    ensures
        r.0@ == settings_tag(settings_view(settings)),
        is_settings_nodes(r.1@, settings_view(settings)),
{
    match settings {
        MissileComponentSettings::ActiveSeekerSettings { mode, reject_unvalidated, detect_pd_targets } => {
            let mode = text_element("Mode", mode.to_str().to_owned());
            let reject = text_element("RejectUnvalidated", bool_text(reject_unvalidated));
            let detect = text_element("DetectPDTargets", bool_text(detect_pd_targets));
            ("ActiveSeekerSettings", vec![mode, reject, detect])
        },
        MissileComponentSettings::CommandSeekerSettings { mode } => {
            let mode = text_element("Mode", mode.to_str().to_owned());
            ("CommandSeekerSettings", vec![mode])
        },
        MissileComponentSettings::DirectGuidanceSettings { hot_launch, self_destruct_on_lost, maneuvers, defensive_doctrine, approach_angle_control } => {
            let role = if defensive_doctrine.is_some() { MissileRole::Defensive } else { MissileRole::Offensive };
            let role = text_element("Role", role.to_str().to_owned());
            let hot = text_element("HotLaunch", bool_text(hot_launch));
            let destruct = text_element("SelfDestructOnLost", bool_text(self_destruct_on_lost));
            let maneuvers = text_element("Maneuvers", maneuvers.to_str().to_owned());
            let doctrine = match defensive_doctrine {
                Some(d) => d,
                None => DefensiveDoctrine::default(),
            };
            let doctrine = Node::Element(doctrine.serialize_element());
            let approach = text_element("ApproachAngleControl", bool_text(approach_angle_control));
            ("DirectGuidanceSettings", vec![role, hot, destruct, maneuvers, doctrine, approach])
        },
        MissileComponentSettings::CruiseGuidanceSettings { hot_launch, self_destruct_on_lost, maneuvers, defensive_doctrine } => {
            let role = if defensive_doctrine.is_some() { MissileRole::Defensive } else { MissileRole::Offensive };
            let role = text_element("Role", role.to_str().to_owned());
            let hot = text_element("HotLaunch", bool_text(hot_launch));
            let destruct = text_element("SelfDestructOnLost", bool_text(self_destruct_on_lost));
            let maneuvers = text_element("Maneuvers", maneuvers.to_str().to_owned());
            let doctrine = match defensive_doctrine {
                Some(d) => d,
                None => DefensiveDoctrine::default(),
            };
            let doctrine = Node::Element(doctrine.serialize_element());
            ("CruiseGuidanceSettings", vec![role, hot, destruct, maneuvers, doctrine])
        },
        MissileComponentSettings::MissileEngineSettings { balance_values } => {
            let BalanceValues { a, b, c } = balance_values;
            let values = vec![text_element("A", a), text_element("B", b), text_element("C", c)];
            let values = Node::Element(Element::new("BalanceValues".to_owned(), Nodes { nodes: values }));
            ("MissileEngineSettings", vec![values])
        },
        MissileComponentSettings::PassiveARHSeekerSettings { mode, reject_unvalidated, home_on_jam } => {
            let mode = text_element("Mode", mode.to_str().to_owned());
            let reject = text_element("RejectUnvalidated", bool_text(reject_unvalidated));
            let target_type = if home_on_jam { AntiRadiationTargetType::JammingOnly } else { AntiRadiationTargetType::All };
            let target_type = text_element("TargetType", target_type.to_str().to_owned());
            ("PassiveARHSeekerSettings", vec![mode, reject, target_type])
        },
        MissileComponentSettings::PassiveSeekerSettings { mode, reject_unvalidated, detect_pd_targets } => {
            let mode = text_element("Mode", mode.to_str().to_owned());
            let reject = text_element("RejectUnvalidated", bool_text(reject_unvalidated));
            let detect = text_element("DetectPDTargets", bool_text(detect_pd_targets));
            ("PassiveSeekerSettings", vec![mode, reject, detect])
        },
    }
}

/// Whether `e` is the `InstalledComponent` element that a component with
/// the plain values `v` is saved as: its key first, then the fields of its
/// settings, whose kind the `xsi:type` attribute names.
pub open spec fn is_missile_component_element(e: Element, v: (Option<MissileComponentKey>, Option<SettingsView>)) -> bool {
    let k: int = if v.0 is Some { 1 } else { 0 };
    &&& e.name@ == "InstalledComponent"@
    &&& match v.1 {
        Some(s) => e.attributes.list@.len() == 1 && e.attributes.list@[0].0@ == "xsi:type"@
            && e.attributes.list@[0].1@ == settings_tag(s),
        None => e.attributes.list@.len() == 0,
    }
    &&& e.children.nodes@.len() >= k
    &&& (v.0 matches Some(key) ==> is_text_element(e.children.nodes@[0], "ComponentKey"@, key.spec_save_key()))
    &&& match v.1 {
        Some(s) => is_settings_nodes(e.children.nodes@.skip(k), s),
        None => e.children.nodes@.len() == k,
    }
}

impl MissileComponent {
    /// The `InstalledComponent` element this component is saved as.
    pub fn serialize_element(self) -> (r: Element)
        ensures
            is_missile_component_element(r, component_view(self)),
    {
        let mut nodes: Vec<Node> = Vec::new();
        match self.component_key {
            Some(k) => nodes.push(text_element("ComponentKey", k.save_key().to_owned())),
            None => {},
        }
        let ghost head = nodes@;
        match self.settings {
            Some(s) => {
                let (tag, mut fields) = serialize_settings(s);
                let ghost gf = fields@;
                nodes.append(&mut fields);
                assert(nodes@.skip(head.len() as int) =~= gf);
                let attributes = Attributes { list: vec![("xsi:type".to_owned(), tag.to_owned())] };
                Element::with_attributes("InstalledComponent".to_owned(), attributes, Nodes { nodes })
            },
            None => Element::new("InstalledComponent".to_owned(), Nodes { nodes }),
        }
    }
}

/// The names of the fields an `InstalledComponent` element may hold.
pub open spec fn component_field_names() -> Seq<Seq<char>> {
    seq!["ComponentKey"@, "Mode"@, "RejectUnvalidated"@, "TargetType"@, "DetectPDTargets"@, "Role"@,
        "HotLaunch"@, "SelfDestructOnLost"@, "Maneuvers"@, "DefensiveDoctrine"@, "ApproachAngleControl"@,
        "BalanceValues"@]
}

/// The seeker mode a field holds, when it is there and reads as one.
pub open spec fn spec_mode_field(slot: Option<Element>) -> Option<SeekerMode> {
    match spec_field_text(slot) {
        Some(t) => match SeekerMode::spec_from_str(t) {
            Ok(m) => Some(m),
            Err(_) => None,
        },
        None => None,
    }
}

/// The flag a field holds, when it is there and reads as `true` or `false`.
pub open spec fn spec_bool_field(slot: Option<Element>) -> Option<bool> {
    match spec_field_text(slot) {
        Some(t) => spec_parse_bool(t),
        None => None,
    }
}

/// The role a field holds, when it is there and reads as one.
pub open spec fn spec_role_field(slot: Option<Element>) -> Option<MissileRole> {
    match spec_field_text(slot) {
        Some(t) => match MissileRole::spec_from_str(t) {
            Ok(m) => Some(m),
            Err(_) => None,
        },
        None => None,
    }
}

/// The anti-radiation target type a field holds, when it is there and reads
/// as one.
pub open spec fn spec_target_type_field(slot: Option<Element>) -> Option<AntiRadiationTargetType> {
    match spec_field_text(slot) {
        Some(t) => match AntiRadiationTargetType::spec_from_str(t) {
            Ok(m) => Some(m),
            Err(_) => None,
        },
        None => None,
    }
}

/// The maneuvers a field holds, when it is there and reads as them.
pub open spec fn spec_maneuvers_field(slot: Option<Element>) -> Option<Maneuvers> {
    match spec_field_text(slot) {
        Some(t) => match Maneuvers::spec_from_str(t) {
            Ok(m) => Some(m),
            Err(_) => None,
        },
        None => None,
    }
}

/// The texts of the `A`, `B` and `C` fields of a `BalanceValues` field.
pub open spec fn spec_balance_field(slot: Option<Element>) -> Option<(Seq<char>, Seq<char>, Seq<char>)> {
    match slot {
        Some(e) => match spec_find_elements(e.children.nodes@, seq!["A"@, "B"@, "C"@]) {
            Ok(abc) => match (spec_field_text(abc[0]), spec_field_text(abc[1]), spec_field_text(abc[2])) {
                (Some(a), Some(b), Some(c)) => Some((a, b, c)),
                _ => None,
            },
            Err(_) => None,
        },
        None => None,
    }
}

/// The optional `RejectUnvalidated` flag: `false` when absent.
pub open spec fn spec_reject_field(slot: Option<Element>) -> Option<bool> {
    match slot {
        None => Some(false),
        Some(_) => spec_bool_field(slot),
    }
}

/// The optional component key: none when the field is absent or empty.
pub open spec fn spec_key_field(slot: Option<Element>) -> Option<Option<MissileComponentKey>> {
    match slot {
        None => Some(None),
        Some(e) => if e.children.nodes@.len() == 0 {
            Some(None)
        } else {
            match spec_text(e.children.nodes@) {
                Some(t) => match MissileComponentKey::spec_from_str(t) {
                    Ok(k) => Some(Some(k)),
                    Err(_) => None,
                },
                None => None,
            }
        },
    }
}

/// The doctrine of a guidance package whose role field reads as `role`: the
/// `DefensiveDoctrine` field for a defensive one, none for an offensive one.
pub open spec fn spec_guidance_doctrine(role: MissileRole, slot: Option<Element>) -> Option<Option<DefensiveDoctrine>> {
    if role == MissileRole::Defensive {
        match slot {
            Some(e) => match spec_doctrine_from_element(e) {
                Some(d) => Some(Some(d)),
                None => None,
            },
            None => None,
        }
    } else {
        Some(None)
    }
}

/// The settings of the kind named `tag`, read from the field slots `slots`
/// (in the order of [`component_field_names`]) with the flag `reject`; none
/// when a field they need is missing or does not read, or `tag` names no
/// kind.
pub open spec fn spec_settings_from_slots(tag: Seq<char>, slots: Seq<Option<Element>>, reject: bool) -> Option<SettingsView> {
    if tag == "ActiveSeekerSettings"@ || tag == "PassiveSeekerSettings"@ {
        match (spec_mode_field(slots[1]), spec_bool_field(slots[4])) {
            (Some(m), Some(d)) => Some(if tag == "ActiveSeekerSettings"@ {
                SettingsView::ActiveSeeker(m, reject, d)
            } else {
                SettingsView::PassiveSeeker(m, reject, d)
            }),
            _ => None,
        }
    } else if tag == "CommandSeekerSettings"@ {
        match spec_mode_field(slots[1]) {
            Some(m) => Some(SettingsView::CommandSeeker(m)),
            None => None,
        }
    } else if tag == "DirectGuidanceSettings"@ || tag == "CruiseGuidanceSettings"@ {
        match (spec_bool_field(slots[6]), spec_bool_field(slots[7]), spec_maneuvers_field(slots[8]), spec_role_field(slots[5])) {
            (Some(h), Some(sd), Some(man), Some(role)) => match spec_guidance_doctrine(role, slots[9]) {
                Some(doc) => if tag == "DirectGuidanceSettings"@ {
                    match spec_bool_field(slots[10]) {
                        Some(a) => Some(SettingsView::DirectGuidance(h, sd, man, doc, a)),
                        None => None,
                    }
                } else {
                    Some(SettingsView::CruiseGuidance(h, sd, man, doc))
                },
                None => None,
            },
            _ => None,
        }
    } else if tag == "MissileEngineSettings"@ {
        match spec_balance_field(slots[11]) {
            Some((a, b, c)) => Some(SettingsView::MissileEngine(a, b, c)),
            None => None,
        }
    } else if tag == "PassiveARHSeekerSettings"@ {
        match (spec_mode_field(slots[1]), spec_target_type_field(slots[3])) {
            (Some(m), Some(t)) => Some(SettingsView::PassiveARHSeeker(m, reject, t == AntiRadiationTargetType::JammingOnly)),
            _ => None,
        }
    } else {
        None
    }
}

/// What an `InstalledComponent` element reads as: its key (none where the
/// `ComponentKey` field is absent or empty) and, where it has an `xsi:type`
/// attribute, the settings of that kind. None when the element is named
/// otherwise, an attribute or a field appears twice, the optional
/// `RejectUnvalidated` flag or the key does not read, or the settings do
/// not read.
pub open spec fn spec_missile_component_from_element(e: Element) -> Option<(Option<MissileComponentKey>, Option<SettingsView>)> {
    if e.name@ != "InstalledComponent"@ {
        None
    } else {
        match spec_find_attributes(e.attributes.list@, seq!["xsi:type"@]) {
            Err(_) => None,
            Ok(attrs) => match spec_find_elements(e.children.nodes@, component_field_names()) {
                Err(_) => None,
                Ok(slots) => match (spec_reject_field(slots[2]), spec_key_field(slots[0])) {
                    (Some(reject), Some(key)) => match attrs[0] {
                        None => Some((key, None)),
                        Some(t) => match spec_settings_from_slots(t@, slots, reject) {
                            Some(s) => Some((key, Some(s))),
                            None => None,
                        },
                    },
                    _ => None,
                },
            },
        }
    }
}

/// Why a missile component's element does not read, as plain values.
pub enum ReadError {
    /// The element is not named `InstalledComponent`.
    Named,
    /// An attribute is given twice (its name and its first value).
    DuplicateAttribute(String, String),
    /// A field is given twice (the one found first).
    DuplicateField(Element),
    /// A field is missing.
    Missing(Seq<char>),
    /// A field holds an element among these nodes where text was expected.
    NotText(Seq<Node>),
    /// A field's text does not read as its value.
    Parse(Seq<char>),
    /// The `xsi:type` names no kind of settings.
    UnknownSettings(Seq<char>),
    /// The defensive doctrine does not read (see
    /// [`DefensiveDoctrine::deserialize_element`]).
    Doctrine(Element),
}

/// Whether the error `e` is the one `r` describes.
pub open spec fn error_is(e: FormatError, r: ReadError) -> bool {
    match r {
        ReadError::Named => e matches FormatError::XmlError(Error::UnexpectedElementExpectedElement(_, n))
            && n@ == "InstalledComponent"@,
        ReadError::DuplicateAttribute(n, v) => e == FormatError::XmlError(Error::UnexpectedAttributeDuplicate(n, v)),
        ReadError::DuplicateField(x) => e == FormatError::XmlError(Error::UnexpectedElementDuplicate(x)),
        ReadError::Missing(n) => e matches FormatError::XmlError(Error::MissingElement(m)) && m@ == n,
        ReadError::NotText(nodes) => e matches FormatError::XmlError(Error::UnexpectedElementExpectedText(x))
            && is_first_element(nodes, x),
        ReadError::Parse(t) => e matches FormatError::XmlError(Error::ParseError(u)) && u@ == t,
        ReadError::UnknownSettings(t) => e matches FormatError::UnknownMissileSettingsType(u) && u@ == t,
        ReadError::Doctrine(d) => spec_doctrine_from_element(d) is None,
    }
}

/// The error of a field named `name` in `slot` that should hold a word:
/// missing, holding an element, or, when it holds text, that text not
/// reading.
pub open spec fn spec_word_error(slot: Option<Element>, name: Seq<char>) -> ReadError {
    match slot {
        None => ReadError::Missing(name),
        Some(e) => match spec_text(e.children.nodes@) {
            Some(t) => ReadError::Parse(t),
            None => ReadError::NotText(e.children.nodes@),
        },
    }
}

/// The error of the `BalanceValues` field in `slot`.
pub open spec fn spec_balance_error(slot: Option<Element>) -> ReadError {
    match slot {
        None => ReadError::Missing("BalanceValues"@),
        Some(e) => match spec_find_elements(e.children.nodes@, seq!["A"@, "B"@, "C"@]) {
            Err(x) => ReadError::DuplicateField(x),
            Ok(abc) => if spec_field_text(abc[0]) is None {
                spec_word_error(abc[0], "A"@)
            } else if spec_field_text(abc[1]) is None {
                spec_word_error(abc[1], "B"@)
            } else {
                spec_word_error(abc[2], "C"@)
            },
        },
    }
}

/// The error of a guidance package's `DefensiveDoctrine` field in `slot`.
pub open spec fn spec_doctrine_error(slot: Option<Element>) -> ReadError {
    match slot {
        None => ReadError::Missing("DefensiveDoctrine"@),
        Some(d) => ReadError::Doctrine(d),
    }
}

/// The error of settings of the kind named `tag` that do not read: the
/// first of their fields, in the order they are read, that does not read;
/// or the kind unknown.
pub open spec fn spec_settings_error(tag: Seq<char>, slots: Seq<Option<Element>>, reject: bool) -> ReadError {
    if tag == "ActiveSeekerSettings"@ || tag == "PassiveSeekerSettings"@ {
        if spec_mode_field(slots[1]) is None { spec_word_error(slots[1], "Mode"@) } else { spec_word_error(slots[4], "DetectPDTargets"@) }
    } else if tag == "CommandSeekerSettings"@ {
        spec_word_error(slots[1], "Mode"@)
    } else if tag == "DirectGuidanceSettings"@ || tag == "CruiseGuidanceSettings"@ {
        if spec_bool_field(slots[6]) is None {
            spec_word_error(slots[6], "HotLaunch"@)
        } else if spec_bool_field(slots[7]) is None {
            spec_word_error(slots[7], "SelfDestructOnLost"@)
        } else if spec_maneuvers_field(slots[8]) is None {
            spec_word_error(slots[8], "Maneuvers"@)
        } else if spec_role_field(slots[5]) is None {
            spec_word_error(slots[5], "Role"@)
        } else if spec_guidance_doctrine(spec_role_field(slots[5])->Some_0, slots[9]) is None {
            spec_doctrine_error(slots[9])
        } else {
            spec_word_error(slots[10], "ApproachAngleControl"@)
        }
    } else if tag == "MissileEngineSettings"@ {
        spec_balance_error(slots[11])
    } else if tag == "PassiveARHSeekerSettings"@ {
        if spec_mode_field(slots[1]) is None { spec_word_error(slots[1], "Mode"@) } else { spec_word_error(slots[3], "TargetType"@) }
    } else {
        ReadError::UnknownSettings(tag)
    }
}

/// The error of an `InstalledComponent` element that does not read (see
/// [`spec_missile_component_from_element`]): in the order the element is
/// read, its name, a repeated attribute or field, the optional
/// `RejectUnvalidated` flag, the key, then the settings.
pub open spec fn spec_missile_component_error(e: Element) -> ReadError {
    if e.name@ != "InstalledComponent"@ {
        ReadError::Named
    } else {
        match spec_find_attributes(e.attributes.list@, seq!["xsi:type"@]) {
            Err((n, v)) => ReadError::DuplicateAttribute(n, v),
            Ok(attrs) => match spec_find_elements(e.children.nodes@, component_field_names()) {
                Err(x) => ReadError::DuplicateField(x),
                Ok(slots) => if spec_reject_field(slots[2]) is None {
                    spec_word_error(slots[2], "RejectUnvalidated"@)
                } else if spec_key_field(slots[0]) is None {
                    spec_word_error(slots[0], "ComponentKey"@)
                } else {
                    spec_settings_error(attrs[0]->Some_0@, slots, spec_reject_field(slots[2])->Some_0)
                },
            },
        }
    }
}

fn read_mode(slot: Option<Element>, name: &str) -> (r: Result<SeekerMode, FormatError>)
    ensures
        match spec_mode_field(slot) {
            Some(m) => r == Ok::<SeekerMode, FormatError>(m),
            None => r is Err,
        },
        spec_mode_field(slot) is None ==> (r matches Err(e) && error_is(e, spec_word_error(slot, name@))),
{
    let text = match field_text(slot, name) {
        Ok(t) => t,
        Err(e) => return Err(FormatError::XmlError(e)),
    };
    match SeekerMode::from_str(text.as_str()) {
        Ok(m) => Ok(m),
        Err(_) => Err(FormatError::XmlError(Error::ParseError(text))),
    }
}

fn read_bool(slot: Option<Element>, name: &str) -> (r: Result<bool, FormatError>)
    ensures
        match spec_bool_field(slot) {
            Some(m) => r == Ok::<bool, FormatError>(m),
            None => r is Err,
        },
        spec_bool_field(slot) is None ==> (r matches Err(e) && error_is(e, spec_word_error(slot, name@))),
{
    let text = match field_text(slot, name) {
        Ok(t) => t,
        Err(e) => return Err(FormatError::XmlError(e)),
    };
    match parse_bool(text.as_str()) {
        Some(b) => Ok(b),
        None => Err(FormatError::XmlError(Error::ParseError(text))),
    }
}

fn read_role(slot: Option<Element>) -> (r: Result<MissileRole, FormatError>)
    ensures
        match spec_role_field(slot) {
            Some(m) => r == Ok::<MissileRole, FormatError>(m),
            None => r is Err,
        },
        spec_role_field(slot) is None ==> (r matches Err(e) && error_is(e, spec_word_error(slot, "Role"@))),
{
    let text = match field_text(slot, "Role") {
        Ok(t) => t,
        Err(e) => return Err(FormatError::XmlError(e)),
    };
    match MissileRole::from_str(text.as_str()) {
        Ok(m) => Ok(m),
        Err(_) => Err(FormatError::XmlError(Error::ParseError(text))),
    }
}

fn read_target_type(slot: Option<Element>) -> (r: Result<AntiRadiationTargetType, FormatError>)
    ensures
        match spec_target_type_field(slot) {
            Some(m) => r == Ok::<AntiRadiationTargetType, FormatError>(m),
            None => r is Err,
        },
        spec_target_type_field(slot) is None ==> (r matches Err(e) && error_is(e, spec_word_error(slot, "TargetType"@))),
{
    let text = match field_text(slot, "TargetType") {
        Ok(t) => t,
        Err(e) => return Err(FormatError::XmlError(e)),
    };
    match AntiRadiationTargetType::from_str(text.as_str()) {
        Ok(m) => Ok(m),
        Err(_) => Err(FormatError::XmlError(Error::ParseError(text))),
    }
}

fn read_maneuvers(slot: Option<Element>) -> (r: Result<Maneuvers, FormatError>)
    ensures
        match spec_maneuvers_field(slot) {
            Some(m) => r == Ok::<Maneuvers, FormatError>(m),
            None => r is Err,
        },
        spec_maneuvers_field(slot) is None ==> (r matches Err(e) && error_is(e, spec_word_error(slot, "Maneuvers"@))),
{
    let text = match field_text(slot, "Maneuvers") {
        Ok(t) => t,
        Err(e) => return Err(FormatError::XmlError(e)),
    };
    match Maneuvers::from_str(text.as_str()) {
        Ok(m) => Ok(m),
        Err(_) => Err(FormatError::XmlError(Error::ParseError(text))),
    }
}

fn read_balance(slot: Option<Element>) -> (r: Result<BalanceValues, FormatError>)
    ensures
        match spec_balance_field(slot) {
            Some((a, b, c)) => r matches Ok(v) && v.a@ == a && v.b@ == b && v.c@ == c,
            None => r is Err,
        },
        spec_balance_field(slot) is None ==> (r matches Err(e) && error_is(e, spec_balance_error(slot))),
{
    let e = match slot {
        Some(e) => e,
        None => return Err(FormatError::XmlError(Error::MissingElement("BalanceValues".to_owned()))),
    };
    let names: [&str; 3] = ["A", "B", "C"];
    proof {
        assert(names_view(names@) == seq!["A"@, "B"@, "C"@]);
        lemma_find_elements_len(e.children.nodes@, seq!["A"@, "B"@, "C"@]);
    }
    let mut abc = match e.children.find_elements(names.as_slice()) {
        Ok(s) => s,
        Err(err) => return Err(FormatError::XmlError(err)),
    };
    let ghost g = abc@;
    let c = abc.pop().unwrap();
    let b = abc.pop().unwrap();
    let a = abc.pop().unwrap();
    assert(a == g[0] && b == g[1] && c == g[2]);
    let a = match field_text(a, "A") {
        Ok(t) => t,
        Err(err) => return Err(FormatError::XmlError(err)),
    };
    let b = match field_text(b, "B") {
        Ok(t) => t,
        Err(err) => return Err(FormatError::XmlError(err)),
    };
    let c = match field_text(c, "C") {
        Ok(t) => t,
        Err(err) => return Err(FormatError::XmlError(err)),
    };
    Ok(BalanceValues { a, b, c })
}

fn read_key(slot: Option<Element>) -> (r: Result<Option<MissileComponentKey>, FormatError>)
    ensures
        match spec_key_field(slot) {
            Some(k) => r == Ok::<Option<MissileComponentKey>, FormatError>(k),
            None => r is Err,
        },
        spec_key_field(slot) is None ==> (r matches Err(e) && error_is(e, spec_word_error(slot, "ComponentKey"@))),
{
    match slot {
        None => Ok(None),
        Some(e) => {
            if e.children.nodes.len() == 0 {
                return Ok(None);
            }
            let text = match field_text(Some(e), "ComponentKey") {
                Ok(t) => t,
                Err(err) => return Err(FormatError::XmlError(err)),
            };
            match MissileComponentKey::from_str(text.as_str()) {
                Ok(k) => Ok(Some(k)),
                Err(_) => Err(FormatError::XmlError(Error::ParseError(text))),
            }
        },
    }
}

fn read_doctrine(role: MissileRole, slot: Option<Element>) -> (r: Result<Option<DefensiveDoctrine>, FormatError>)
    ensures
        match spec_guidance_doctrine(role, slot) {
            Some(d) => r == Ok::<Option<DefensiveDoctrine>, FormatError>(d),
            None => r is Err,
        },
        spec_guidance_doctrine(role, slot) is None ==> (r matches Err(e) && error_is(e, spec_doctrine_error(slot))),
{
    if role == MissileRole::Defensive {
        match slot {
            Some(e) => match DefensiveDoctrine::deserialize_element(e) {
                Ok(d) => Ok(Some(d)),
                Err(err) => Err(err),
            },
            None => Err(FormatError::XmlError(Error::MissingElement("DefensiveDoctrine".to_owned()))),
        }
    } else {
        Ok(None)
    }
}

/// The settings of the kind named `tag`, read from the field slots; see
/// [`spec_settings_from_slots`].
#[verifier::rlimit(40)]
fn read_settings(
    tag: String,
    mode: Option<Element>,
    target_type: Option<Element>,
    detect: Option<Element>,
    role: Option<Element>,
    hot: Option<Element>,
    destruct: Option<Element>,
    maneuvers: Option<Element>,
    doctrine: Option<Element>,
    approach: Option<Element>,
    balance: Option<Element>,
    reject: bool,
    slots: Ghost<Seq<Option<Element>>>,
) -> (r: Result<MissileComponentSettings, FormatError>)
    requires
        slots@.len() == 12,
        mode == slots@[1] && target_type == slots@[3] && detect == slots@[4] && role == slots@[5],
        hot == slots@[6] && destruct == slots@[7] && maneuvers == slots@[8] && doctrine == slots@[9],
        approach == slots@[10] && balance == slots@[11],
    ensures
        match spec_settings_from_slots(tag@, slots@, reject) {
            Some(v) => r matches Ok(st) && settings_view(st) == v,
            None => r is Err,
        },
        !is_settings_tag(tag@) ==> r == Err::<MissileComponentSettings, FormatError>(FormatError::UnknownMissileSettingsType(tag)),
        spec_settings_from_slots(tag@, slots@, reject) is None
            ==> (r matches Err(e) && error_is(e, spec_settings_error(tag@, slots@, reject))),
{
    let settings = if crate::text::str_eq(tag.as_str(), "ActiveSeekerSettings") {
        let mode = match read_mode(mode, "Mode") {
            Ok(v) => v,
            Err(e) => return Err(e),
        };
        let detect_pd_targets = match read_bool(detect, "DetectPDTargets") {
            Ok(v) => v,
            Err(e) => return Err(e),
        };
        MissileComponentSettings::ActiveSeekerSettings { mode, reject_unvalidated: reject, detect_pd_targets }
    } else if crate::text::str_eq(tag.as_str(), "PassiveSeekerSettings") {
        let mode = match read_mode(mode, "Mode") {
            Ok(v) => v,
            Err(e) => return Err(e),
        };
        let detect_pd_targets = match read_bool(detect, "DetectPDTargets") {
            Ok(v) => v,
            Err(e) => return Err(e),
        };
        MissileComponentSettings::PassiveSeekerSettings { mode, reject_unvalidated: reject, detect_pd_targets }
    } else if crate::text::str_eq(tag.as_str(), "CommandSeekerSettings") {
        let mode = match read_mode(mode, "Mode") {
            Ok(v) => v,
            Err(e) => return Err(e),
        };
        MissileComponentSettings::CommandSeekerSettings { mode }
    } else if crate::text::str_eq(tag.as_str(), "DirectGuidanceSettings") {
        let hot_launch = match read_bool(hot, "HotLaunch") {
            Ok(v) => v,
            Err(e) => return Err(e),
        };
        let self_destruct_on_lost = match read_bool(destruct, "SelfDestructOnLost") {
            Ok(v) => v,
            Err(e) => return Err(e),
        };
        let maneuvers = match read_maneuvers(maneuvers) {
            Ok(v) => v,
            Err(e) => return Err(e),
        };
        let role = match read_role(role) {
            Ok(v) => v,
            Err(e) => return Err(e),
        };
        let defensive_doctrine = match read_doctrine(role, doctrine) {
            Ok(v) => v,
            Err(e) => return Err(e),
        };
        let approach_angle_control = match read_bool(approach, "ApproachAngleControl") {
            Ok(v) => v,
            Err(e) => return Err(e),
        };
        MissileComponentSettings::DirectGuidanceSettings {
            hot_launch, self_destruct_on_lost, maneuvers, defensive_doctrine, approach_angle_control,
        }
    } else if crate::text::str_eq(tag.as_str(), "CruiseGuidanceSettings") {
        let hot_launch = match read_bool(hot, "HotLaunch") {
            Ok(v) => v,
            Err(e) => return Err(e),
        };
        let self_destruct_on_lost = match read_bool(destruct, "SelfDestructOnLost") {
            Ok(v) => v,
            Err(e) => return Err(e),
        };
        let maneuvers = match read_maneuvers(maneuvers) {
            Ok(v) => v,
            Err(e) => return Err(e),
        };
        let role = match read_role(role) {
            Ok(v) => v,
            Err(e) => return Err(e),
        };
        let defensive_doctrine = match read_doctrine(role, doctrine) {
            Ok(v) => v,
            Err(e) => return Err(e),
        };
        MissileComponentSettings::CruiseGuidanceSettings { hot_launch, self_destruct_on_lost, maneuvers, defensive_doctrine }
    } else if crate::text::str_eq(tag.as_str(), "MissileEngineSettings") {
        let balance_values = match read_balance(balance) {
            Ok(v) => v,
            Err(e) => return Err(e),
        };
        MissileComponentSettings::MissileEngineSettings { balance_values }
    } else if crate::text::str_eq(tag.as_str(), "PassiveARHSeekerSettings") {
        let mode = match read_mode(mode, "Mode") {
            Ok(v) => v,
            Err(e) => return Err(e),
        };
        let target_type = match read_target_type(target_type) {
            Ok(v) => v,
            Err(e) => return Err(e),
        };
        MissileComponentSettings::PassiveARHSeekerSettings {
            mode,
            reject_unvalidated: reject,
            home_on_jam: target_type == AntiRadiationTargetType::JammingOnly,
        }
    } else {
        return Err(FormatError::UnknownMissileSettingsType(tag));
    };
    Ok(settings)
}

/// Whether `tag` names a kind of settings.
pub open spec fn is_settings_tag(tag: Seq<char>) -> bool {
    ||| tag == "ActiveSeekerSettings"@
    ||| tag == "PassiveSeekerSettings"@
    ||| tag == "CommandSeekerSettings"@
    ||| tag == "DirectGuidanceSettings"@
    ||| tag == "CruiseGuidanceSettings"@
    ||| tag == "MissileEngineSettings"@
    ||| tag == "PassiveARHSeekerSettings"@
}

/// The `xsi:type` of an `InstalledComponent` element that names no kind of
/// settings, where everything read before the settings reads.
pub open spec fn spec_unknown_settings_tag(e: Element) -> Option<String> {
    if e.name@ != "InstalledComponent"@ {
        None
    } else {
        match spec_find_attributes(e.attributes.list@, seq!["xsi:type"@]) {
            Err(_) => None,
            Ok(attrs) => match spec_find_elements(e.children.nodes@, component_field_names()) {
                Err(_) => None,
                Ok(slots) => match (spec_reject_field(slots[2]), spec_key_field(slots[0]), attrs[0]) {
                    (Some(_), Some(_), Some(t)) => if is_settings_tag(t@) { None } else { Some(t) },
                    _ => None,
                },
            },
        }
    }
}

impl MissileComponent {
    /// Reads a component from its `InstalledComponent` element; see
    /// [`spec_missile_component_from_element`]. An `xsi:type` that names no
    /// kind of settings is the error `UnknownMissileSettingsType`.
    pub fn deserialize_element(element: Element) -> (r: Result<MissileComponent, FormatError>)
        ensures
            match spec_missile_component_from_element(element) {
                Some(v) => r matches Ok(c) && component_view(c) == v,
                None => r is Err,
            },
            spec_unknown_settings_tag(element) matches Some(t)
                ==> r == Err::<MissileComponent, FormatError>(FormatError::UnknownMissileSettingsType(t)),
            spec_missile_component_from_element(element) is None
                ==> (r matches Err(e) && error_is(e, spec_missile_component_error(element))),
    {
        if let Err(e) = element.expect_named("InstalledComponent") {
            return Err(FormatError::XmlError(e));
        }
        let Element { name: _, attributes, children } = element;
        let attr_names: [&str; 1] = ["xsi:type"];
        proof {
            assert(names_view(attr_names@) == seq!["xsi:type"@]);
            lemma_find_attributes_len(attributes.list@, seq!["xsi:type"@]);
        }
        let mut attrs = match attributes.find_attributes(attr_names.as_slice()) {
            Ok(a) => a,
            Err(e) => return Err(FormatError::XmlError(e)),
        };
        let ghost ga = attrs@;
        let tag = attrs.pop().unwrap();
        assert(tag == ga[0]);
        let names: [&str; 12] = ["ComponentKey", "Mode", "RejectUnvalidated", "TargetType", "DetectPDTargets", "Role",
            "HotLaunch", "SelfDestructOnLost", "Maneuvers", "DefensiveDoctrine", "ApproachAngleControl", "BalanceValues"];
        proof {
            assert(names_view(names@) == component_field_names());
            lemma_find_elements_len(children.nodes@, component_field_names());
        }
        let mut slots = match children.find_elements(names.as_slice()) {
            Ok(s) => s,
            Err(e) => return Err(FormatError::XmlError(e)),
        };
        let ghost g = slots@;
        let balance = slots.pop().unwrap();
        let approach = slots.pop().unwrap();
        let doctrine = slots.pop().unwrap();
        let maneuvers = slots.pop().unwrap();
        let destruct = slots.pop().unwrap();
        let hot = slots.pop().unwrap();
        let role = slots.pop().unwrap();
        let detect = slots.pop().unwrap();
        let target_type = slots.pop().unwrap();
        let reject = slots.pop().unwrap();
        let mode = slots.pop().unwrap();
        let key = slots.pop().unwrap();
        assert(key == g[0] && mode == g[1] && reject == g[2] && target_type == g[3] && detect == g[4] && role == g[5]);
        assert(hot == g[6] && destruct == g[7] && maneuvers == g[8] && doctrine == g[9] && approach == g[10] && balance == g[11]);
        let reject = match reject {
            None => false,
            Some(e) => match read_bool(Some(e), "RejectUnvalidated") {
                Ok(b) => b,
                Err(err) => return Err(err),
            },
        };
        let component_key = match read_key(key) {
            Ok(k) => k,
            Err(err) => return Err(err),
        };
        let tag = match tag {
            None => return Ok(MissileComponent { component_key, settings: None }),
            Some(t) => t,
        };
        let settings = match read_settings(tag, mode, target_type, detect, role, hot, destruct, maneuvers, doctrine,
            approach, balance, reject, Ghost(g)) {
            Ok(st) => st,
            Err(err) => return Err(err),
        };
        Ok(MissileComponent { component_key, settings: Some(settings) })
    }
}

/// Elements that carry names of the distinct `names` at the rising
/// positions `pos` fill exactly those slots, each with its element.
pub proof fn lemma_find_fields_at(nodes: Seq<Node>, names: Seq<Seq<char>>, pos: Seq<int>)
    requires
        names.no_duplicates(),
        pos.len() == nodes.len(),
        forall|i: int| 0 <= i < pos.len() ==> 0 <= #[trigger] pos[i] < names.len(),
        forall|i: int, j: int| 0 <= i < j < pos.len() ==> pos[i] < pos[j],
        forall|i: int| 0 <= i < nodes.len() ==> (#[trigger] nodes[i]) is Element && nodes[i]->Element_0.name@ == names[pos[i]],
    ensures
        spec_find_elements(nodes, names) is Ok,
        spec_find_elements(nodes, names)->Ok_0.len() == names.len(),
        forall|i: int| 0 <= i < pos.len() ==> spec_find_elements(nodes, names)->Ok_0[#[trigger] pos[i]] == Some(nodes[i]->Element_0),
        forall|j: int| 0 <= j < names.len() && !pos.contains(j) ==> (#[trigger] spec_find_elements(nodes, names)->Ok_0[j]) is None,
    decreases nodes.len(),
{
    if nodes.len() > 0 {
        let last = nodes.len() - 1;
        let front = nodes.drop_last();
        let fpos = pos.drop_last();
        assert forall|i: int| 0 <= i < front.len() implies (#[trigger] front[i]) is Element && front[i]->Element_0.name@ == names[fpos[i]] by {
            assert(front[i] == nodes[i]);
        }
        lemma_find_fields_at(front, names, fpos);
        let slots = spec_find_elements(front, names)->Ok_0;
        lemma_name_index_of_distinct(names, pos[last]);
        assert(!fpos.contains(pos[last])) by {
            if fpos.contains(pos[last]) {
                let i = choose|i: int| 0 <= i < fpos.len() && fpos[i] == pos[last];
                assert(pos[i] < pos[last]);
            }
        }
        assert(slots[pos[last]] is None);
        assert(nodes.last() == nodes[last]);
        let full = slots.update(pos[last], Some(nodes[last]->Element_0));
        assert(spec_find_elements(nodes, names) == Ok::<Seq<Option<Element>>, Element>(full));
        assert forall|i: int| 0 <= i < pos.len() implies full[#[trigger] pos[i]] == Some(nodes[i]->Element_0) by {
            if i < last {
                assert(fpos[i] == pos[i]);
                assert(front[i] == nodes[i]);
            }
        }
        assert forall|j: int| 0 <= j < names.len() && !pos.contains(j) implies (#[trigger] full[j]) is None by {
            if fpos.contains(j) {
                let i = choose|i: int| 0 <= i < fpos.len() && fpos[i] == j;
                assert(pos[i] == j);
            }
            if j == pos[last] {
                assert(pos.contains(j));
            }
        }
    }
}

/// No name of [`component_field_names`] appears twice.
pub proof fn lemma_component_field_names_distinct()
    ensures
        component_field_names().no_duplicates(),
{
    let names = component_field_names();
    reveal_strlit("ComponentKey");
    reveal_strlit("Mode");
    reveal_strlit("RejectUnvalidated");
    reveal_strlit("TargetType");
    reveal_strlit("DetectPDTargets");
    reveal_strlit("Role");
    reveal_strlit("HotLaunch");
    reveal_strlit("SelfDestructOnLost");
    reveal_strlit("Maneuvers");
    reveal_strlit("DefensiveDoctrine");
    reveal_strlit("ApproachAngleControl");
    reveal_strlit("BalanceValues");
    assert("Mode"@[0] != "Role"@[0]);
    assert("RejectUnvalidated"@[0] != "DefensiveDoctrine"@[0]);
    assert("HotLaunch"@[0] != "Maneuvers"@[0]);
    let lens = seq![12int, 4, 17, 10, 15, 4, 9, 18, 9, 17, 20, 13];
    assert forall|i: int| 0 <= i < 12 implies (#[trigger] names[i]).len() == lens[i] by {}
    assert forall|i: int, j: int| 0 <= i < names.len() && 0 <= j < names.len() && i != j implies names[i] != names[j] by {
        if lens[i] != lens[j] {
            assert(names[i].len() != names[j].len());
        } else {
            assert(names[i][0] != names[j][0]);
        }
    }
}

/// The positions among [`component_field_names`] of the fields that the
/// settings `s` are saved with, in the order they are saved.
pub open spec fn settings_positions(s: SettingsView) -> Seq<int> {
    match s {
        SettingsView::ActiveSeeker(..) | SettingsView::PassiveSeeker(..) => seq![1int, 2, 4],
        SettingsView::CommandSeeker(..) => seq![1int],
        SettingsView::DirectGuidance(..) => seq![5int, 6, 7, 8, 9, 10],
        SettingsView::CruiseGuidance(..) => seq![5int, 6, 7, 8, 9],
        SettingsView::MissileEngine(..) => seq![11int],
        SettingsView::PassiveARHSeeker(..) => seq![1int, 2, 3],
    }
}

/// The reject flag that settings `s` carry, `false` for kinds without one.
pub open spec fn settings_reject(s: SettingsView) -> bool {
    match s {
        SettingsView::ActiveSeeker(_, r, _) | SettingsView::PassiveSeeker(_, r, _) | SettingsView::PassiveARHSeeker(_, r, _) => r,
        _ => false,
    }
}

/// A text field reads back as its text.
pub proof fn lemma_text_field(n: Node, name: Seq<char>, text: Seq<char>)
    requires
        is_text_element(n, name, text),
    ensures
        spec_field_text(Some(n->Element_0)) == Some(text),
{
    lemma_single_text(n->Element_0.children.nodes@, n->Element_0.children.nodes@[0]->Text_0);
}

/// A saved flag reads back as the flag.
proof fn lemma_bool_text_round_trip(b: bool)
    ensures
        spec_parse_bool(spec_bool_text(b)) == Some(b),
{
    reveal_strlit("true");
    reveal_strlit("false");
    assert("true"@.len() != "false"@.len());
}

/// The fields of settings, found at their positions, read back as the
/// settings.
proof fn lemma_settings_round_trip(nodes: Seq<Node>, s: SettingsView, slots: Seq<Option<Element>>)
    requires
        is_settings_nodes(nodes, s),
        slots.len() == 12,
        forall|i: int| 0 <= i < settings_positions(s).len()
            ==> slots[#[trigger] settings_positions(s)[i]] == Some(nodes[i]->Element_0),
        forall|j: int| 1 <= j < 12 && !settings_positions(s).contains(j) ==> (#[trigger] slots[j]) is None,
    ensures
        spec_reject_field(slots[2]) == Some(settings_reject(s)),
        spec_settings_from_slots(settings_tag(s), slots, settings_reject(s)) == Some(s),
{
    let pos = settings_positions(s);
    reveal_strlit("ActiveSeekerSettings");
    reveal_strlit("PassiveSeekerSettings");
    reveal_strlit("CommandSeekerSettings");
    reveal_strlit("DirectGuidanceSettings");
    reveal_strlit("CruiseGuidanceSettings");
    reveal_strlit("MissileEngineSettings");
    reveal_strlit("PassiveARHSeekerSettings");
    assert("ActiveSeekerSettings"@.len() != "PassiveSeekerSettings"@.len());
    assert("ActiveSeekerSettings"@.len() != "CommandSeekerSettings"@.len());
    assert("ActiveSeekerSettings"@[0] != "DirectGuidanceSettings"@[0]);
    assert("ActiveSeekerSettings"@[0] != "CruiseGuidanceSettings"@[0]);
    assert("PassiveSeekerSettings"@[0] != "CommandSeekerSettings"@[0]);
    assert("PassiveSeekerSettings"@[0] != "DirectGuidanceSettings"@[0]);
    assert("PassiveSeekerSettings"@[0] != "CruiseGuidanceSettings"@[0]);
    assert("CommandSeekerSettings"@[0] != "DirectGuidanceSettings"@[0]);
    assert("CommandSeekerSettings"@[1] != "CruiseGuidanceSettings"@[1]);
    assert("DirectGuidanceSettings"@[0] != "CruiseGuidanceSettings"@[0]);
    assert("MissileEngineSettings"@[0] != "ActiveSeekerSettings"@[0]);
    assert("MissileEngineSettings"@[0] != "PassiveSeekerSettings"@[0]);
    assert("MissileEngineSettings"@[0] != "CommandSeekerSettings"@[0]);
    assert("MissileEngineSettings"@[0] != "DirectGuidanceSettings"@[0]);
    assert("MissileEngineSettings"@[0] != "CruiseGuidanceSettings"@[0]);
    assert("PassiveARHSeekerSettings"@[0] != "ActiveSeekerSettings"@[0]);
    assert("PassiveARHSeekerSettings"@[7] != "PassiveSeekerSettings"@[7]);
    assert("PassiveARHSeekerSettings"@[0] != "CommandSeekerSettings"@[0]);
    assert("PassiveARHSeekerSettings"@[0] != "DirectGuidanceSettings"@[0]);
    assert("PassiveARHSeekerSettings"@[0] != "CruiseGuidanceSettings"@[0]);
    assert("PassiveARHSeekerSettings"@[0] != "MissileEngineSettings"@[0]);
    match s {
        SettingsView::ActiveSeeker(m, r, d) | SettingsView::PassiveSeeker(m, r, d) => {
            assert(slots[pos[0]] == Some(nodes[0]->Element_0));
            assert(slots[pos[1]] == Some(nodes[1]->Element_0));
            assert(slots[pos[2]] == Some(nodes[2]->Element_0));
            lemma_text_field(nodes[0], "Mode"@, m.spec_to_str());
            lemma_text_field(nodes[1], "RejectUnvalidated"@, spec_bool_text(r));
            lemma_text_field(nodes[2], "DetectPDTargets"@, spec_bool_text(d));
            lemma_seeker_mode_round_trip(m);
            lemma_bool_text_round_trip(r);
            lemma_bool_text_round_trip(d);
        },
        SettingsView::CommandSeeker(m) => {
            assert(slots[pos[0]] == Some(nodes[0]->Element_0));
            assert(!pos.contains(2));
            lemma_text_field(nodes[0], "Mode"@, m.spec_to_str());
            lemma_seeker_mode_round_trip(m);
        },
        SettingsView::DirectGuidance(h, sd, man, doc, a) => {
            assert(slots[pos[0]] == Some(nodes[0]->Element_0));
            assert(slots[pos[1]] == Some(nodes[1]->Element_0));
            assert(slots[pos[2]] == Some(nodes[2]->Element_0));
            assert(slots[pos[3]] == Some(nodes[3]->Element_0));
            assert(slots[pos[4]] == Some(nodes[4]->Element_0));
            assert(slots[pos[5]] == Some(nodes[5]->Element_0));
            assert(!pos.contains(2));
            lemma_text_field(nodes[0], "Role"@, role_of(doc).spec_to_str());
            lemma_text_field(nodes[1], "HotLaunch"@, spec_bool_text(h));
            lemma_text_field(nodes[2], "SelfDestructOnLost"@, spec_bool_text(sd));
            lemma_text_field(nodes[3], "Maneuvers"@, man.spec_to_str());
            lemma_text_field(nodes[5], "ApproachAngleControl"@, spec_bool_text(a));
            lemma_missile_role_round_trip(role_of(doc));
            lemma_maneuvers_round_trip(man);
            lemma_bool_text_round_trip(h);
            lemma_bool_text_round_trip(sd);
            lemma_bool_text_round_trip(a);
            lemma_doctrine_round_trip(nodes[4]->Element_0, saved_doctrine(doc));
        },
        SettingsView::CruiseGuidance(h, sd, man, doc) => {
            assert(slots[pos[0]] == Some(nodes[0]->Element_0));
            assert(slots[pos[1]] == Some(nodes[1]->Element_0));
            assert(slots[pos[2]] == Some(nodes[2]->Element_0));
            assert(slots[pos[3]] == Some(nodes[3]->Element_0));
            assert(slots[pos[4]] == Some(nodes[4]->Element_0));
            assert(!pos.contains(2));
            lemma_text_field(nodes[0], "Role"@, role_of(doc).spec_to_str());
            lemma_text_field(nodes[1], "HotLaunch"@, spec_bool_text(h));
            lemma_text_field(nodes[2], "SelfDestructOnLost"@, spec_bool_text(sd));
            lemma_text_field(nodes[3], "Maneuvers"@, man.spec_to_str());
            lemma_missile_role_round_trip(role_of(doc));
            lemma_maneuvers_round_trip(man);
            lemma_bool_text_round_trip(h);
            lemma_bool_text_round_trip(sd);
            lemma_doctrine_round_trip(nodes[4]->Element_0, saved_doctrine(doc));
        },
        SettingsView::MissileEngine(a, b, c) => {
            assert(slots[pos[0]] == Some(nodes[0]->Element_0));
            assert(!pos.contains(2));
            let inner = nodes[0]->Element_0.children.nodes@;
            reveal_strlit("A");
            reveal_strlit("B");
            reveal_strlit("C");
            assert(seq!["A"@, "B"@, "C"@].no_duplicates()) by {
                assert("A"@[0] != "B"@[0]);
                assert("A"@[0] != "C"@[0]);
                assert("B"@[0] != "C"@[0]);
            }
            lemma_find_fields_in_order(inner, seq!["A"@, "B"@, "C"@], 3);
            assert(inner.take(3) == inner);
            lemma_text_field(inner[0], "A"@, a);
            lemma_text_field(inner[1], "B"@, b);
            lemma_text_field(inner[2], "C"@, c);
        },
        SettingsView::PassiveARHSeeker(m, r, hoj) => {
            assert(slots[pos[0]] == Some(nodes[0]->Element_0));
            assert(slots[pos[1]] == Some(nodes[1]->Element_0));
            assert(slots[pos[2]] == Some(nodes[2]->Element_0));
            lemma_text_field(nodes[0], "Mode"@, m.spec_to_str());
            lemma_text_field(nodes[1], "RejectUnvalidated"@, spec_bool_text(r));
            lemma_text_field(nodes[2], "TargetType"@, target_type_of(hoj).spec_to_str());
            lemma_seeker_mode_round_trip(m);
            lemma_bool_text_round_trip(r);
            lemma_anti_radiation_target_type_round_trip(target_type_of(hoj));
        },
    }
}

/// A component read back from the element it is saved as has its values:
/// what [`MissileComponent::serialize_element`] writes,
/// [`MissileComponent::deserialize_element`] reads back unchanged.
pub proof fn lemma_missile_component_round_trip(e: Element, v: (Option<MissileComponentKey>, Option<SettingsView>))
    requires
        is_missile_component_element(e, v),
    ensures
        spec_missile_component_from_element(e) == Some(v),
{
    let nodes = e.children.nodes@;
    let names = component_field_names();
    lemma_component_field_names_distinct();
    let k: int = if v.0 is Some { 1 } else { 0 };
    let head: Seq<int> = if v.0 is Some { seq![0int] } else { Seq::empty() };
    let tail: Seq<int> = match v.1 {
        Some(s) => settings_positions(s),
        None => Seq::empty(),
    };
    let pos = head + tail;
    let rest = nodes.skip(k);
    assert(rest.len() == tail.len());
    assert forall|i: int| 0 <= i < tail.len() implies 1 <= #[trigger] tail[i] < 12 by {}
    assert forall|i: int, j: int| 0 <= i < j < tail.len() implies tail[i] < tail[j] by {}
    assert forall|i: int| 0 <= i < tail.len() implies (#[trigger] rest[i]) is Element && rest[i]->Element_0.name@ == names[tail[i]] by {
        reveal_strlit("ComponentKey");
        reveal_strlit("Mode");
        reveal_strlit("RejectUnvalidated");
        reveal_strlit("TargetType");
        reveal_strlit("DetectPDTargets");
        reveal_strlit("Role");
        reveal_strlit("HotLaunch");
        reveal_strlit("SelfDestructOnLost");
        reveal_strlit("Maneuvers");
        reveal_strlit("DefensiveDoctrine");
        reveal_strlit("ApproachAngleControl");
        reveal_strlit("BalanceValues");
    }
    assert(pos.len() == nodes.len());
    assert forall|i: int| 0 <= i < pos.len() implies 0 <= #[trigger] pos[i] < names.len() by {
        if i >= k {
            assert(pos[i] == tail[i - k]);
        }
    }
    assert forall|i: int, j: int| 0 <= i < j < pos.len() implies pos[i] < pos[j] by {
        if i >= k {
            assert(pos[i] == tail[i - k]);
        }
        assert(pos[j] == tail[j - k]);
    }
    assert forall|i: int| 0 <= i < nodes.len() implies (#[trigger] nodes[i]) is Element && nodes[i]->Element_0.name@ == names[pos[i]] by {
        if i >= k {
            assert(nodes[i] == rest[i - k]);
            assert(pos[i] == tail[i - k]);
        }
    }
    lemma_find_fields_at(nodes, names, pos);
    let slots = spec_find_elements(nodes, names)->Ok_0;
    assert forall|i: int| 0 <= i < tail.len() implies slots[#[trigger] tail[i]] == Some(rest[i]->Element_0) by {
        assert(pos[i + k] == tail[i]);
        assert(nodes[i + k] == rest[i]);
    }
    assert forall|j: int| 1 <= j < 12 && !tail.contains(j) implies (#[trigger] slots[j]) is None by {
        if pos.contains(j) {
            let i = choose|i: int| 0 <= i < pos.len() && pos[i] == j;
            if i >= k {
                assert(tail[i - k] == j);
            }
        }
    }
    // the key
    match v.0 {
        Some(key) => {
            assert(slots[pos[0]] == Some(nodes[0]->Element_0));
            lemma_text_field(nodes[0], "ComponentKey"@, key.spec_save_key());
            lemma_missile_component_key_round_trip(key);
        },
        None => {
            assert(!pos.contains(0));
        },
    }
    // the settings
    let list = e.attributes.list@;
    match v.1 {
        Some(s) => {
            lemma_settings_round_trip(rest, s, slots);
            assert(list.drop_last() == Seq::<(String, String)>::empty());
            assert(list.last() == list[0]);
            reveal_strlit("xsi:type");
            assert(crate::xml::spec_name_index(seq!["xsi:type"@], list[0].0@) == 0);
            let empty_slots = Seq::new(1, |i: int| None::<String>);
            assert(spec_find_attributes(list.drop_last(), seq!["xsi:type"@]) == Ok::<Seq<Option<String>>, (String, String)>(empty_slots));
            assert(spec_find_attributes(list, seq!["xsi:type"@])
                == Ok::<Seq<Option<String>>, (String, String)>(empty_slots.update(0, Some(list[0].1))));
        },
        None => {
            assert(!pos.contains(2));
            assert(spec_find_attributes(list, seq!["xsi:type"@])
                == Ok::<Seq<Option<String>>, (String, String)>(Seq::new(1, |i: int| None::<String>)));
        },
    }
}

/// A socket of a missile body: its size (never 0) and the component
/// installed in it, if any.
#[derive(Debug, Clone, PartialEq, Eq)]
pub struct MissileSocket {
    pub size: usize,
    pub installed_component: Option<MissileComponent>,
}

/// The socket `s` as plain values.
pub open spec fn socket_view(s: MissileSocket) -> (usize, Option<(Option<MissileComponentKey>, Option<SettingsView>)>) {
    (s.size, match s.installed_component {
        Some(c) => Some(component_view(c)),
        None => None,
    })
}

/// What a `MissileSocket` element reads as: its size, from a `Size` field
/// holding a decimal number other than 0, and its installed component,
/// from an optional `InstalledComponent` field.
pub open spec fn spec_missile_socket_from_element(e: Element) -> Option<(usize, Option<(Option<MissileComponentKey>, Option<SettingsView>)>)> {
    if e.name@ != "MissileSocket"@ {
        None
    } else {
        match spec_find_elements(e.children.nodes@, seq!["Size"@, "InstalledComponent"@]) {
            Err(_) => None,
            Ok(slots) => match spec_field_text(slots[0]) {
                Some(t) => match spec_parse_usize(t) {
                    Some(n) => if n == 0 {
                        None
                    } else {
                        match slots[1] {
                            None => Some((n, None)),
                            Some(c) => match spec_missile_component_from_element(c) {
                                Some(v) => Some((n, Some(v))),
                                None => None,
                            },
                        }
                    },
                    None => None,
                },
                None => None,
            },
        }
    }
}

/// Whether `e` is the `MissileSocket` element a socket with the plain
/// values `v` is saved as.
pub open spec fn is_missile_socket_element(e: Element, v: (usize, Option<(Option<MissileComponentKey>, Option<SettingsView>)>)) -> bool {
    &&& e.name@ == "MissileSocket"@
    &&& e.attributes.list@.len() == 0
    &&& e.children.nodes@.len() == if v.1 is Some { 2int } else { 1int }
    &&& is_text_element(e.children.nodes@[0], "Size"@, spec_decimal(v.0 as nat))
    &&& (v.1 matches Some(c) ==> e.children.nodes@[1] is Element
        && is_missile_component_element(e.children.nodes@[1]->Element_0, c))
}

impl MissileSocket {
    /// The `MissileSocket` element this socket is saved as.
    pub fn serialize_element(self) -> (r: Element)
        ensures
            is_missile_socket_element(r, socket_view(self)),
    {
        let size = text_element("Size", usize_to_decimal(self.size));
        let nodes = match self.installed_component {
            Some(c) => vec![size, Node::Element(c.serialize_element())],
            None => vec![size],
        };
        Element::new("MissileSocket".to_owned(), Nodes { nodes })
    }

    /// Reads a socket from its `MissileSocket` element; see
    /// [`spec_missile_socket_from_element`].
    pub fn deserialize_element(element: Element) -> (r: Result<MissileSocket, FormatError>)
        ensures
            match spec_missile_socket_from_element(element) {
                Some(v) => r matches Ok(s) && socket_view(s) == v,
                None => r is Err,
            },
    {
        if let Err(e) = element.expect_named("MissileSocket") {
            return Err(FormatError::XmlError(e));
        }
        let names: [&str; 2] = ["Size", "InstalledComponent"];
        proof {
            assert(names_view(names@) == seq!["Size"@, "InstalledComponent"@]);
            lemma_find_elements_len(element.children.nodes@, seq!["Size"@, "InstalledComponent"@]);
        }
        let mut slots = match element.children.find_elements(names.as_slice()) {
            Ok(s) => s,
            Err(e) => return Err(FormatError::XmlError(e)),
        };
        let ghost g = slots@;
        let component = slots.pop().unwrap();
        let size = slots.pop().unwrap();
        assert(size == g[0] && component == g[1]);
        let text = match field_text(size, "Size") {
            Ok(t) => t,
            Err(e) => return Err(FormatError::XmlError(e)),
        };
        let size = match parse_usize(text.as_str()) {
            Some(n) => if n == 0 {
                return Err(FormatError::XmlError(Error::ParseError(text)));
            } else {
                n
            },
            None => return Err(FormatError::XmlError(Error::ParseError(text))),
        };
        let installed_component = match component {
            None => None,
            Some(c) => Some(MissileComponent::deserialize_element(c)?),
        };
        Ok(MissileSocket { size, installed_component })
    }
}

/// A socket read back from the element it is saved as has its values.
pub proof fn lemma_missile_socket_round_trip(e: Element, v: (usize, Option<(Option<MissileComponentKey>, Option<SettingsView>)>))
    requires
        is_missile_socket_element(e, v),
        v.0 > 0,
    ensures
        spec_missile_socket_from_element(e) == Some(v),
{
    let nodes = e.children.nodes@;
    let names = seq!["Size"@, "InstalledComponent"@];
    reveal_strlit("Size");
    reveal_strlit("InstalledComponent");
    assert(names.no_duplicates()) by {
        assert("Size"@.len() != "InstalledComponent"@.len());
    }
    let pos: Seq<int> = if v.1 is Some { seq![0int, 1] } else { seq![0int] };
    lemma_find_fields_at(nodes, names, pos);
    let slots = spec_find_elements(nodes, names)->Ok_0;
    assert(slots[pos[0]] == Some(nodes[0]->Element_0));
    lemma_text_field(nodes[0], "Size"@, spec_decimal(v.0 as nat));
    lemma_parse_decimal_round_trip(v.0);
    match v.1 {
        Some(c) => {
            assert(slots[pos[1]] == Some(nodes[1]->Element_0));
            lemma_missile_component_round_trip(nodes[1]->Element_0, c);
        },
        None => {
            assert(!pos.contains(1));
        },
    }
}

} // verus!
