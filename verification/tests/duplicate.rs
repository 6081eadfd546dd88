use nebulous_data::duplicate::{random_ship_key, ship_key_from_bytes};
use nebulous_data::data::hulls::config::sample::{config_variants, draw_hull_config};
use nebulous_data::data::hulls::config::Variant;
use nebulous_data::data::hulls::config::HullConfigTemplateFull;
use nebulous_data::data::hulls::config::bulk_freighter::HullConfigBulkFreighterFull;
use nebulous_data::data::hulls::HullKey;
use nebulous_data::duplicate::{double_ships, dupe_ship, ship_config_template};
use nebulous_data::format::key::Key;
use nebulous_data::format::{ComponentData, FormatError, MagazineSaveData};
use nebulous_data::xml::{Element, Error, Node, Nodes};
use rand::SeedableRng;
use rand_xoshiro::Xoroshiro128StarStar;

fn text(s: &str) -> Node {
    Node::Text(s.to_string())
}

fn element(name: &str, children: Vec<Node>) -> Element {
    Element::new(name.to_string(), Nodes { nodes: children })
}

fn el(name: &str, children: Vec<Node>) -> Node {
    Node::Element(element(name, children))
}

fn magazine(key: &str, munition: &str, quantity: usize) -> MagazineSaveData {
    MagazineSaveData {
        magazine_key: Key::from_str(key).unwrap(),
        munition_key: munition.to_string(),
        quantity,
    }
}

fn bulk_data() -> ComponentData {
    ComponentData::BulkMagazineData {
        load: vec![
            magazine("wDsRnL5nKkyYvKgD6VcPHg", "Stock/Mk550 Mine", 10),
            magazine("AAAAAAAAAAAAAAAAAAAAAA", "Stock/20mm Slug", 400),
        ],
    }
}

fn ship(key: &str, hull: &str, config: Option<Node>) -> Element {
    let mut nodes = vec![
        el("SaveID", vec![]),
        el("Key", vec![text(key)]),
        el("Name", vec![text("Raven")]),
        el("HullType", vec![text(hull)]),
    ];
    if let Some(c) = config {
        nodes.push(c);
    }
    nodes.push(el("SocketMap", vec![
        el("HullSocket", vec![
            el("Key", vec![text("socket-a")]),
            el("ComponentName", vec![text("Stock/Bulk Magazine")]),
            Node::Element(bulk_data().serialize_element()),
        ]),
        el("HullSocket", vec![
            el("Key", vec![text("socket-b")]),
            el("ComponentName", vec![text("Stock/Reinforced Bulkhead")]),
        ]),
    ]));
    nodes.push(el("WeaponGroups", vec![]));
    element("Ship", nodes)
}

fn rng() -> Xoroshiro128StarStar {
    Xoroshiro128StarStar::seed_from_u64(7)
}

fn child<'a>(e: &'a Element, name: &str) -> &'a Element {
    e.children.nodes.iter().find_map(|n| match n {
        Node::Element(c) if c.name == name => Some(c),
        _ => None,
    }).unwrap()
}

fn names(e: &Element) -> Vec<String> {
    e.children.nodes.iter().filter_map(|n| match n {
        Node::Element(c) => Some(c.name.clone()),
        Node::Text(_) => None,
    }).collect()
}

#[test]
fn dupe_ship_rekeys_magazines_and_sets_key() {
    let original = ship("k1", "Stock/Raines Frigate", None);
    let copy = dupe_ship(original.duplicate(), "k2".to_string(), None, &mut rng()).unwrap();
    assert_eq!(child(&copy, "Key").children.nodes, vec![text("k2")]);
    assert_eq!(names(&copy), names(&original));
    assert_eq!(child(&copy, "Name"), child(&original, "Name"));
    let sockets = &child(&copy, "SocketMap").children.nodes;
    let Node::Element(first) = &sockets[0] else { panic!() };
    let data = ComponentData::deserialize_element(child(first, "ComponentData").duplicate()).unwrap();
    let load = data.get_load().unwrap();
    assert_eq!(load.len(), 2);
    assert_eq!(load[0].munition_key, "Stock/Mk550 Mine");
    assert_eq!(load[0].quantity, 10);
    assert_eq!(load[1].munition_key, "Stock/20mm Slug");
    assert_eq!(load[1].quantity, 400);
    assert_ne!(load[0].magazine_key, Key::from_str("wDsRnL5nKkyYvKgD6VcPHg").unwrap());
    assert_ne!(load[1].magazine_key, Key::from_str("AAAAAAAAAAAAAAAAAAAAAA").unwrap());
    assert_eq!(sockets[1], original_socket_b());
}

fn original_socket_b() -> Node {
    el("HullSocket", vec![
        el("Key", vec![text("socket-b")]),
        el("ComponentName", vec![text("Stock/Reinforced Bulkhead")]),
    ])
}

#[test]
fn dupe_ship_places_hull_config() {
    let drawn = element("HullConfig", vec![el("PrimaryStructure", vec![])]);
    // a ship without a configuration gets the drawn one after its hull type
    let copy = dupe_ship(ship("k1", "Stock/Bulk Hauler", None), "k2".to_string(), Some(drawn.duplicate()), &mut rng()).unwrap();
    assert_eq!(names(&copy), vec!["SaveID", "Key", "Name", "HullType", "HullConfig", "SocketMap", "WeaponGroups"]);
    assert_eq!(child(&copy, "HullConfig"), &drawn);
    // an old configuration is replaced by the drawn one
    let old = el("HullConfig", vec![text("old")]);
    let copy = dupe_ship(ship("k1", "Stock/Bulk Hauler", Some(old)), "k2".to_string(), Some(drawn.duplicate()), &mut rng()).unwrap();
    assert_eq!(child(&copy, "HullConfig"), &drawn);
    // with nothing drawn, an old configuration is dropped
    let old = el("HullConfig", vec![text("old")]);
    let copy = dupe_ship(ship("k1", "Stock/Raines Frigate", Some(old)), "k2".to_string(), None, &mut rng()).unwrap();
    assert_eq!(names(&copy), vec!["SaveID", "Key", "Name", "HullType", "SocketMap", "WeaponGroups"]);
}

#[test]
fn dupe_ship_errors() {
    let keyless = element("Ship", vec![el("HullType", vec![]), el("SocketMap", vec![])]);
    assert_eq!(dupe_ship(keyless, "k".to_string(), None, &mut rng()),
        Err(FormatError::XmlError(Error::MissingElement("Key".to_string()))));
    let hullless = element("Ship", vec![el("Key", vec![]), el("SocketMap", vec![])]);
    assert_eq!(dupe_ship(hullless, "k".to_string(), None, &mut rng()),
        Err(FormatError::XmlError(Error::MissingElement("HullType".to_string()))));
    let socketless = element("Ship", vec![el("Key", vec![]), el("HullType", vec![])]);
    assert_eq!(dupe_ship(socketless, "k".to_string(), None, &mut rng()),
        Err(FormatError::XmlError(Error::MissingElement("SocketMap".to_string()))));
    let broken = element("Ship", vec![el("Key", vec![]), el("HullType", vec![]), el("SocketMap", vec![
        el("HullSocket", vec![el("ComponentData", vec![])]),
    ])]);
    assert!(dupe_ship(broken, "k".to_string(), None, &mut rng()).is_err());
}

#[test]
fn config_templates() {
    assert_eq!(HullKey::BulkFreighterLineShip.config_template(),
        Some(HullConfigTemplateFull::BulkFreighter(HullConfigBulkFreighterFull)));
    assert!(HullKey::ContainerLinerLineShip.config_template().is_some());
    assert_eq!(HullKey::RainesFrigate.config_template(), None);
    assert_eq!(ship_config_template(&ship("k", "Stock/Raines Frigate", None)), Ok(None));
    assert!(ship_config_template(&ship("k", "Stock/Bulk Hauler", None)).unwrap().is_some());
    assert_eq!(ship_config_template(&ship("k", "Stock/Nothing", None)),
        Err(FormatError::XmlError(Error::ParseError("Stock/Nothing".to_string()))));
}

fn fleet(ships: Vec<Node>) -> Element {
    element("Fleet", vec![
        el("Name", vec![text("Home")]),
        el("Ships", ships),
        el("MissileTypes", vec![]),
    ])
}

#[test]
fn double_ships_appends_copies() {
    let mut f = fleet(vec![
        Node::Element(ship("k1", "Stock/Raines Frigate", None)),
        text("  "),
        Node::Element(ship("k2", "Stock/Bulk Hauler", None)),
    ]);
    let before = f.duplicate();
    let drawn = element("HullConfig", vec![]);
    let n = double_ships(&mut f, vec!["c1".to_string(), "c2".to_string()], vec![None, Some(drawn.duplicate())], &mut rng()).unwrap();
    assert_eq!(n, 2);
    assert_eq!(child(&f, "Name"), child(&before, "Name"));
    let ships = &child(&f, "Ships").children.nodes;
    assert_eq!(ships.len(), 5);
    assert_eq!(ships.iter().filter(|n| matches!(n, Node::Element(_))).count(), 2 * n);
    assert_eq!(&ships[..3], &child(&before, "Ships").children.nodes[..]);
    let Node::Element(c1) = &ships[3] else { panic!() };
    let Node::Element(c2) = &ships[4] else { panic!() };
    assert_eq!(child(c1, "Key").children.nodes, vec![text("c1")]);
    assert_eq!(child(c2, "Key").children.nodes, vec![text("c2")]);
    assert!(!names(c1).contains(&"HullConfig".to_string()));
    assert_eq!(child(c2, "HullConfig"), &drawn);
}

#[test]
fn double_ships_errors() {
    let mut shipless = element("Fleet", vec![el("Name", vec![text("Home")])]);
    let before = shipless.duplicate();
    assert_eq!(double_ships(&mut shipless, vec![], vec![], &mut rng()),
        Err(FormatError::XmlError(Error::MissingElement("Ships".to_string()))));
    assert_eq!(shipless, before);
    let mut f = fleet(vec![
        Node::Element(ship("k1", "Stock/Raines Frigate", None)),
        el("Ship", vec![el("Name", vec![])]),
    ]);
    let before = f.duplicate();
    assert_eq!(double_ships(&mut f, vec!["a".to_string(), "b".to_string()], vec![None, None], &mut rng()),
        Err(FormatError::XmlError(Error::MissingElement("Key".to_string()))));
    assert_eq!(f, before);
}

#[test]
fn ship_keys_are_random_uuids() {
    assert_eq!(ship_key_from_bytes([0; 16]), "00000000-0000-4000-8000-000000000000");
    assert_eq!(ship_key_from_bytes([0xff; 16]), "ffffffff-ffff-4fff-bfff-ffffffffffff");
    let bytes = [0x12, 0x34, 0x56, 0x78, 0x9a, 0xbc, 0xde, 0xf0, 0x12, 0x34, 0x56, 0x78, 0x9a, 0xbc, 0xde, 0xf0];
    assert_eq!(ship_key_from_bytes(bytes), "12345678-9abc-4ef0-9234-56789abcdef0");
    let key = random_ship_key(&mut rng());
    assert_eq!(key.len(), 36);
    assert_eq!(key.as_bytes()[14], b'4');
    assert_eq!(key.as_bytes()[8], b'-');
}

#[test]
fn drawn_hull_configs() {
    let template = HullConfigTemplateFull::BulkFreighter(HullConfigBulkFreighterFull);
    let mut r = rng();
    for _ in 0..20 {
        let e = draw_hull_config(template, Some([Variant::V1, Variant::V2, Variant::V1]),
            "0.5".to_string(), "1".to_string(), "2".to_string(), "3".to_string(), &mut r);
        assert_eq!(config_variants(template, &e), Some([Variant::V1, Variant::V2, Variant::V1]));
        // the front and rear of variant 1 cannot carry the bridge: it is on the middle
        let Node::Element(secondary) = &e.children.nodes[1] else { panic!() };
        let Node::Element(config) = &secondary.children.nodes[0] else { panic!() };
        assert_eq!(child(config, "Segment").children.nodes, vec![text("1")]);
        let e = draw_hull_config(template, None, "0.5".to_string(), "1".to_string(), "2".to_string(), "3".to_string(), &mut r);
        assert!(config_variants(template, &e).is_some());
    }
}
