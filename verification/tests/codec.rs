use nebulous_data::format::{MagazineSaveData, WeaponGroup, DefensiveDoctrine, DefensiveTargetType, SizeOrdering, MissileSizeMask,
    ComponentData, Vector2, FormatError};
use nebulous_data::format::key::Key;
use nebulous_data::format::socket::HullSocket;
use nebulous_data::data::components::ComponentKey;
use nebulous_data::format::codec::{serialize_magazines, deserialize_magazines, parse_bool, bool_text, parse_u8};
use nebulous_data::xml::{Node, Element, Nodes, Attributes, Error};

fn key(s: &str) -> Key {
    Key::from_str(s).unwrap()
}

fn magazine(q: usize) -> MagazineSaveData {
    MagazineSaveData { magazine_key: key("wDsRnL5nKkyYvKgD6VcPHg"), munition_key: "Stock/Mk550 Mine".to_string(), quantity: q }
}

fn text_el(name: &str, text: &str) -> Node {
    Node::Element(Element::new(name.to_string(), Nodes::new_text(text.to_string())))
}

#[test]
fn scalar_texts() {
    assert_eq!(parse_bool("true"), Some(true));
    assert_eq!(parse_bool("True"), None);
    assert_eq!(bool_text(false), "false");
    assert_eq!(parse_u8("255"), Some(255));
    assert_eq!(parse_u8("256"), None);
}

#[test]
fn magazine_round_trip() {
    let m = magazine(12);
    let e = m.clone().serialize_element();
    assert_eq!(e.name, "MagSaveData");
    assert_eq!(e.children.nodes.len(), 3);
    assert_eq!(MagazineSaveData::deserialize_element(e), Ok(m));
}

#[test]
fn magazine_errors() {
    let wrong = Element::new("Mag".to_string(), Nodes::new());
    assert!(matches!(MagazineSaveData::deserialize_element(wrong), Err(FormatError::XmlError(Error::UnexpectedElementExpectedElement(_, _)))));
    let missing = Element::new("MagSaveData".to_string(), Nodes { nodes: vec![text_el("MagazineKey", "wDsRnL5nKkyYvKgD6VcPHg")] });
    assert!(matches!(MagazineSaveData::deserialize_element(missing), Err(FormatError::XmlError(Error::MissingElement(_)))));
    let bad = Element::new("MagSaveData".to_string(), Nodes { nodes: vec![
        text_el("MagazineKey", "wDsRnL5nKkyYvKgD6VcPHg"), text_el("MunitionKey", "m"), text_el("Quantity", "many"),
    ] });
    assert_eq!(MagazineSaveData::deserialize_element(bad), Err(FormatError::XmlError(Error::ParseError("many".to_string()))));
}

#[test]
fn doctrine_round_trip() {
    let d = DefensiveDoctrine {
        target_size_mask: MissileSizeMask { size1: true, size2: false, size3: true },
        target_type: DefensiveTargetType::Hybrid,
        target_size_ordering: SizeOrdering::Ascending,
        salvo_size: 4,
        farthest_first: true,
    };
    assert_eq!(DefensiveDoctrine::deserialize_element(d.serialize_element()), Ok(d));
    assert_eq!(DefensiveDoctrine::deserialize_element(DefensiveDoctrine::default().serialize_element()), Ok(DefensiveDoctrine::default()));
    // the target type may be left out
    let e = Element::new("DefensiveDoctrine".to_string(), Nodes { nodes: vec![
        text_el("TargetSizeMask", "6"), text_el("TargetSizeOrdering", "Descending"), text_el("SalvoSize", "0"),
        text_el("FarthestFirst", "false"),
    ] });
    assert_eq!(DefensiveDoctrine::deserialize_element(e), Ok(DefensiveDoctrine::default()));
}

#[test]
fn weapon_group_round_trip() {
    let g = WeaponGroup { name: "Guns".to_string(), members: vec![key("wDsRnL5nKkyYvKgD6VcPHg"), key("Z48ot_dQfkWb6AVYjaM_gA")] };
    let e = g.clone().serialize_element();
    assert_eq!(e.attributes, Attributes { list: vec![("Name".to_string(), "Guns".to_string())] });
    assert_eq!(WeaponGroup::deserialize_element(e), Ok(g));
    let empty = WeaponGroup { name: "None".to_string(), members: vec![] };
    assert_eq!(WeaponGroup::deserialize_element(empty.clone().serialize_element()), Ok(empty));
}

#[test]
fn component_data_round_trip() {
    let all = vec![
        ComponentData::BulkMagazineData { load: vec![magazine(1), magazine(2)] },
        ComponentData::CellLauncherData { missile_load: vec![] },
        ComponentData::ResizableCellLauncherData { missile_load: vec![magazine(3)], configured_size: Vector2 { x: 2, y: 5 } },
        ComponentData::DeceptionComponentData { identity_option: 7 },
    ];
    for d in all {
        assert_eq!(ComponentData::deserialize_element(d.clone().serialize_element()), Ok(d));
    }
    let unknown = Element::with_attributes("ComponentData".to_string(),
        Attributes { list: vec![("xsi:type".to_string(), "Other".to_string())] }, Nodes::new());
    assert_eq!(ComponentData::deserialize_element(unknown), Err(FormatError::UnknownComponentDataType("Other".to_string())));
}

#[test]
fn magazines_and_vectors() {
    let mags = vec![magazine(5), magazine(6)];
    assert_eq!(deserialize_magazines(serialize_magazines(mags.clone())), Ok(mags));
    let v = Vector2 { x: 9usize, y: 0usize };
    assert_eq!(Vector2::<usize>::deserialize_nodes(v.serialize_nodes()), Ok(v));
}

#[test]
fn hull_socket_round_trip() {
    let with_data = HullSocket {
        key: key("wDsRnL5nKkyYvKgD6VcPHg"),
        component_name: ComponentKey::BulkMagazine,
        component_data: Some(ComponentData::BulkMagazineData { load: vec![magazine(10)] }),
    };
    let e = with_data.serialize_element();
    assert_eq!(e.name, "HullSocket");
    assert_eq!(e.children.nodes.len(), 3);
    let back = HullSocket::deserialize_element(e).unwrap();
    assert_eq!(back, HullSocket {
        key: key("wDsRnL5nKkyYvKgD6VcPHg"),
        component_name: ComponentKey::BulkMagazine,
        component_data: Some(ComponentData::BulkMagazineData { load: vec![magazine(10)] }),
    });
    let bare = HullSocket { key: key("AAAAAAAAAAAAAAAAAAAAAA"), component_name: ComponentKey::C56Cannon, component_data: None };
    let e = bare.serialize_element();
    let Node::Element(name) = &e.children.nodes[1] else { panic!() };
    assert_eq!(name.children.nodes, vec![Node::Text("Stock/C54 Cannon".to_string())]);
    assert_eq!(HullSocket::deserialize_element(e).unwrap().component_name, ComponentKey::C56Cannon);
    let bad = Element::new("HullSocket".to_string(), Nodes { nodes: vec![
        Node::Element(Element::new("Key".to_string(), Nodes { nodes: vec![Node::Text("nope".to_string())] })),
    ] });
    assert_eq!(HullSocket::deserialize_element(bad), Err(FormatError::XmlError(Error::ParseError("nope".to_string()))));
}
