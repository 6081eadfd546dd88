use nebulous_data::fleet::{can_double_fleet, child_index, child_text, double_fleet, set_child_text};
use nebulous_data::xml::{Attributes, Element, Error, Node, Nodes};

fn text(s: &str) -> Node {
    Node::Text(s.to_string())
}

fn element(name: &str, children: Vec<Node>) -> Element {
    Element::new(name.to_string(), Nodes { nodes: children })
}

fn el(name: &str, children: Vec<Node>) -> Node {
    Node::Element(element(name, children))
}

fn fleet(name: &str, points: &str) -> Element {
    element("Fleet", vec![
        el("Name", vec![text(name)]),
        el("Version", vec![text("3")]),
        el("TotalPoints", vec![text(points)]),
        el("Ships", vec![]),
    ])
}

#[test]
fn child_index_finds_first_named_element() {
    let nodes = vec![text("Name"), el("Key", vec![]), el("Name", vec![text("a")]), el("Name", vec![text("b")])];
    assert_eq!(child_index(&nodes, "Name"), Some(2));
    assert_eq!(child_index(&nodes, "Key"), Some(0 + 1));
    assert_eq!(child_index(&nodes, "Cost"), None);
    assert_eq!(child_index(&vec![], "Name"), None);
}

#[test]
fn child_text_reads_first_named_element() {
    let e = element("Ship", vec![el("Name", vec![text("Alpha"), text("Beta")]), el("Name", vec![text("Gamma")])]);
    assert_eq!(child_text(&e, "Name"), Ok("AlphaBeta".to_string()));
    assert_eq!(child_text(&e, "Key"), Err(Error::MissingElement("Key".to_string())));
    let empty = element("Ship", vec![el("Callsign", vec![])]);
    assert_eq!(child_text(&empty, "Callsign"), Ok(String::new()));
    let nested = element("Ship", vec![el("Name", vec![text("x"), el("B", vec![])])]);
    assert_eq!(child_text(&nested, "Name"), Err(Error::UnexpectedElementExpectedText(element("B", vec![]))));
}

#[test]
fn set_child_text_replaces_children() {
    let mut e = element("Ship", vec![
        el("Key", vec![text("old"), el("Inner", vec![])]),
        el("Key", vec![text("second")]),
    ]);
    assert_eq!(set_child_text(&mut e, "Key", "new".to_string()), Ok(()));
    assert_eq!(e, element("Ship", vec![el("Key", vec![text("new")]), el("Key", vec![text("second")])]));
    let before = element("Ship", vec![el("Name", vec![])]);
    let mut after = element("Ship", vec![el("Name", vec![])]);
    assert_eq!(set_child_text(&mut after, "Key", "k".to_string()), Err(Error::MissingElement("Key".to_string())));
    assert_eq!(after, before);
}

#[test]
fn set_child_text_keeps_attributes() {
    let attributes = Attributes { list: vec![("xsi:nil".to_string(), "true".to_string())] };
    let mut e = element("Fleet", vec![Node::Element(Element::with_attributes("Name".to_string(), attributes.clone(), Nodes::new()))]);
    set_child_text(&mut e, "Name", "Alpha".to_string()).unwrap();
    assert_eq!(e, element("Fleet", vec![Node::Element(Element::with_attributes("Name".to_string(), attributes, Nodes::new_text("Alpha".to_string())))]));
}

#[test]
fn double_fleet_renames_and_doubles_points() {
    let mut f = fleet("Battle Group", "2995");
    assert!(can_double_fleet(&f));
    assert_eq!(double_fleet(&mut f), Ok(()));
    assert_eq!(f, fleet("Battle Group (2x)", "5990"));

    let mut g = fleet("Battle Group (2x)", "0");
    assert_eq!(double_fleet(&mut g), Ok(()));
    assert_eq!(g, fleet("Battle Group (4x)", "0"));

    let mut h = fleet("Battle Group ( x3 )", "+7");
    assert_eq!(double_fleet(&mut h), Ok(()));
    assert_eq!(h, fleet("Battle Group (6x)", "14"));
}

#[test]
fn double_fleet_errors_change_nothing() {
    let mut f = fleet("A", "lots");
    assert_eq!(double_fleet(&mut f), Err(Error::ParseError("lots".to_string())));
    assert_eq!(f, fleet("A", "lots"));

    let mut missing_points = element("Fleet", vec![el("Name", vec![text("A")])]);
    assert_eq!(double_fleet(&mut missing_points), Err(Error::MissingElement("TotalPoints".to_string())));
    assert_eq!(missing_points, element("Fleet", vec![el("Name", vec![text("A")])]));

    let mut missing_name = element("Fleet", vec![el("TotalPoints", vec![text("5")])]);
    assert_eq!(double_fleet(&mut missing_name), Err(Error::MissingElement("Name".to_string())));
}

#[test]
fn can_double_fleet_refuses_overflow() {
    let big = (usize::MAX / 2 + 1).to_string();
    assert!(!can_double_fleet(&fleet("A", &big)));
    assert!(!can_double_fleet(&fleet(&format!("A ({big}x)"), "1")));
    assert!(can_double_fleet(&fleet("A", &(usize::MAX / 2).to_string())));
    assert!(can_double_fleet(&fleet("A", "not a number")));
}

#[test]
fn duplicate_is_same_tree() {
    let e = element("A", vec![text("t"), el("B", vec![el("C", vec![text("u")])])]);
    assert_eq!(e.duplicate(), e);
    assert_eq!(Node::Element(e.duplicate()).duplicate(), Node::Element(e));
}
