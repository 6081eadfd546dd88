use nebulous_data::xml::{Node, Element, Nodes, Attributes, Error, Indent, Version, serialize_nodes_display, deserialize_nodes_parse, is_whitespace};

fn text(s: &str) -> Node {
    Node::Text(s.to_string())
}

fn element(name: &str, children: Vec<Node>) -> Element {
    Element::new(name.to_string(), Nodes { nodes: children })
}

fn el(name: &str, children: Vec<Node>) -> Node {
    Node::Element(element(name, children))
}

#[test]
fn whitespace() {
    assert!(is_whitespace(""));
    assert!(is_whitespace(" \t\n\u{3000}"));
    assert!(!is_whitespace(" a "));
    assert!(text("  ").is_whitespace());
    assert!(!el("a", vec![]).is_whitespace());
}

#[test]
fn node_conversions() {
    assert_eq!(text("x").into_text(), Ok("x".to_string()));
    assert_eq!(el("a", vec![]).into_text(), Err(element("a", vec![])));
    assert_eq!(el("a", vec![]).into_element(), Ok(element("a", vec![])));
    assert_eq!(text("x").into_element(), Err("x".to_string()));
}

#[test]
fn nodes_text() {
    assert_eq!(Nodes { nodes: vec![text("ab"), text("cd")] }.try_into_text(), Ok("abcd".to_string()));
    assert_eq!(Nodes::new().try_into_text(), Ok(String::new()));
    assert_eq!(Nodes { nodes: vec![text("ab"), el("b", vec![]), el("c", vec![])] }.try_into_text(), Err(element("b", vec![])));
    assert_eq!(deserialize_nodes_parse(Nodes::new_text("120".to_string())), Ok(120));
    assert_eq!(deserialize_nodes_parse(Nodes::new_text("x".to_string())), Err(Error::ParseError("x".to_string())));
    assert_eq!(serialize_nodes_display("5".to_string()), Nodes::new_text("5".to_string()));
}

#[test]
fn nodes_elements() {
    let nodes = Nodes { nodes: vec![text(" "), el("a", vec![]), text("\n"), el("b", vec![])] };
    assert_eq!(nodes.try_into_elements_vec(), Ok(vec![element("a", vec![]), element("b", vec![])]));
    let bad = Nodes { nodes: vec![el("a", vec![]), text("oops")] };
    assert_eq!(bad.try_into_elements_vec(), Err(Error::UnexpectedText("oops".to_string())));
    let one = Nodes { nodes: vec![text(" "), el("a", vec![])] };
    assert_eq!(one.try_into_one_element(), Ok(element("a", vec![])));
    let two = Nodes { nodes: vec![el("a", vec![]), el("b", vec![])] };
    assert_eq!(two.try_into_one_element(), Err(Error::IncorrectElementsCount(vec![element("a", vec![]), element("b", vec![])], 1)));
    let nodes = Nodes { nodes: vec![text(" "), el("a", vec![]), text("t")] };
    assert_eq!(nodes.try_into_nodes_array(2), Ok(vec![el("a", vec![]), text("t")]));
    let nodes = Nodes { nodes: vec![text(" "), text("t")] };
    assert_eq!(nodes.try_into_one_node(), Ok(text("t")));
    let nodes = Nodes { nodes: vec![text("a"), text("b")] };
    assert_eq!(nodes.try_into_elements_array(2), Err(Error::UnexpectedText("a".to_string())));
}

#[test]
fn nodes_find_elements() {
    let nodes = Nodes { nodes: vec![el("x", vec![text("1")]), text(" "), el("z", vec![]), el("y", vec![text("2")])] };
    let found = nodes.find_elements(&["y", "x", "w"]).unwrap();
    assert_eq!(found, vec![Some(element("y", vec![text("2")])), Some(element("x", vec![text("1")])), None]);
    let dup = Nodes { nodes: vec![el("x", vec![text("1")]), el("x", vec![text("2")])] };
    assert_eq!(dup.find_elements(&["x"]), Err(Error::UnexpectedElementDuplicate(element("x", vec![text("1")]))));
}

#[test]
fn nodes_iteration() {
    let mut nodes = Nodes { nodes: vec![text(" "), el("a", vec![]), text("t")] };
    assert_eq!(nodes.iter(), vec![&el("a", vec![]), &text("t")]);
    assert_eq!(nodes.iter_raw().len(), 3);
    nodes.iter_mut_raw().push(text("u"));
    assert_eq!(nodes.nodes.len(), 4);
    assert_eq!(nodes.into_iter_raw().len(), 4);
    assert_eq!(Nodes::new_one(text("q")).nodes, vec![text("q")]);
}

#[test]
fn element_attributes() {
    let attributes = Attributes { list: vec![("Name".to_string(), "Alpha".to_string()), ("xsi:type".to_string(), "T".to_string())] };
    let e = Element::with_attributes("WepGroup".to_string(), attributes.duplicate(), Nodes::new());
    assert_eq!(e.find_attribute("Name"), Ok(&"Alpha".to_string()));
    assert_eq!(e.find_attribute("Other"), Err(Error::MissingAttribute("Other".to_string())));
    assert_eq!(e.expect_named("WepGroup"), Ok(()));
    assert!(matches!(e.expect_named("Other"), Err(Error::UnexpectedElementExpectedElement(_, _))));
    assert_eq!(attributes.duplicate().find_attributes(&["xsi:type", "Name", "None"]),
        Ok(vec![Some("T".to_string()), Some("Alpha".to_string()), None]));
    let dup = Attributes { list: vec![("a".to_string(), "1".to_string()), ("a".to_string(), "2".to_string())] };
    assert_eq!(dup.find_attributes(&["a"]), Err(Error::UnexpectedAttributeDuplicate("a".to_string(), "1".to_string())));
    assert_eq!(Attributes::new().list.len(), 0);
}

#[test]
fn writer_settings() {
    assert_eq!(Indent::default(), Indent { indent_char: b' ', indent_size: 2 });
    assert_eq!(Version::default().version, "1.0");
    assert_eq!(Version::version_1_0().encoding, None);
    assert_eq!(Error::missing_element("A".to_string()), Error::MissingElement("A".to_string()));
    assert_eq!(Error::unexpected_text("t".to_string()), Error::UnexpectedText("t".to_string()));
}
