use nebulous_data::data::hulls::config::sample::{config_variants, hull_config_element, secondary_structure, variant_of, HullConfigDraw};
use nebulous_data::data::hulls::config::HullConfigTemplateFull;
use nebulous_data::data::hulls::config::bulk_freighter::HullConfigBulkFreighterFull;
use nebulous_data::data::hulls::config::container_liner::HullConfigContainerLinerFull;
use nebulous_data::xml::Node;
use nebulous_data::data::hulls::config::Variant::{V0, V1, V2};
use nebulous_data::data::hulls::config::bulk_freighter;
use nebulous_data::data::hulls::config::container_liner;

#[test]
fn bulk_freighter_correct_dressing_counts() {
    assert_eq!(bulk_freighter::get_dressing_counts([V0, V0, V0]), [3, 7, 0]);
    assert_eq!(bulk_freighter::get_dressing_counts([V0, V0, V1]), [3, 7, 0]);
    assert_eq!(bulk_freighter::get_dressing_counts([V0, V0, V2]), [3, 7, 0]);
    assert_eq!(bulk_freighter::get_dressing_counts([V0, V1, V0]), [3, 8, 0]);
    assert_eq!(bulk_freighter::get_dressing_counts([V0, V1, V1]), [3, 8, 0]);
    assert_eq!(bulk_freighter::get_dressing_counts([V0, V1, V2]), [3, 8, 0]);
    assert_eq!(bulk_freighter::get_dressing_counts([V0, V2, V0]), [3, 6, 0]);
    assert_eq!(bulk_freighter::get_dressing_counts([V0, V2, V1]), [3, 6, 0]);
    assert_eq!(bulk_freighter::get_dressing_counts([V0, V2, V2]), [3, 6, 0]);
    assert_eq!(bulk_freighter::get_dressing_counts([V1, V0, V0]), [3, 7, 0]);
    assert_eq!(bulk_freighter::get_dressing_counts([V1, V0, V1]), [3, 7, 0]);
    assert_eq!(bulk_freighter::get_dressing_counts([V1, V0, V2]), [3, 7, 0]);
    assert_eq!(bulk_freighter::get_dressing_counts([V1, V1, V0]), [3, 8, 0]);
    assert_eq!(bulk_freighter::get_dressing_counts([V1, V1, V1]), [3, 8, 0]);
    assert_eq!(bulk_freighter::get_dressing_counts([V1, V1, V2]), [3, 8, 0]);
    assert_eq!(bulk_freighter::get_dressing_counts([V1, V2, V0]), [3, 6, 0]);
    assert_eq!(bulk_freighter::get_dressing_counts([V1, V2, V1]), [3, 6, 0]);
    assert_eq!(bulk_freighter::get_dressing_counts([V1, V2, V2]), [3, 6, 0]);
    assert_eq!(bulk_freighter::get_dressing_counts([V2, V0, V0]), [2, 6, 0]);
    assert_eq!(bulk_freighter::get_dressing_counts([V2, V0, V1]), [2, 6, 0]);
    assert_eq!(bulk_freighter::get_dressing_counts([V2, V0, V2]), [2, 6, 0]);
    assert_eq!(bulk_freighter::get_dressing_counts([V2, V1, V0]), [2, 7, 0]);
    assert_eq!(bulk_freighter::get_dressing_counts([V2, V1, V1]), [2, 7, 0]);
    assert_eq!(bulk_freighter::get_dressing_counts([V2, V1, V2]), [2, 7, 0]);
    assert_eq!(bulk_freighter::get_dressing_counts([V2, V2, V0]), [2, 5, 0]);
    assert_eq!(bulk_freighter::get_dressing_counts([V2, V2, V1]), [2, 5, 0]);
    assert_eq!(bulk_freighter::get_dressing_counts([V2, V2, V2]), [2, 5, 0]);
}

#[test]
fn container_liner_correct_dressing_counts() {
    assert_eq!(container_liner::get_dressing_counts([V0, V0, V0]), [1, 3, 1]);
    assert_eq!(container_liner::get_dressing_counts([V0, V0, V1]), [1, 3, 1]);
    assert_eq!(container_liner::get_dressing_counts([V0, V0, V2]), [1, 3, 1]);
    assert_eq!(container_liner::get_dressing_counts([V0, V1, V0]), [1, 4, 1]);
    assert_eq!(container_liner::get_dressing_counts([V0, V1, V1]), [1, 4, 1]);
    assert_eq!(container_liner::get_dressing_counts([V0, V1, V2]), [1, 4, 1]);
    assert_eq!(container_liner::get_dressing_counts([V0, V2, V0]), [1, 3, 1]);
    assert_eq!(container_liner::get_dressing_counts([V0, V2, V1]), [1, 3, 1]);
    assert_eq!(container_liner::get_dressing_counts([V0, V2, V2]), [1, 3, 1]);
    assert_eq!(container_liner::get_dressing_counts([V1, V0, V0]), [1, 3, 1]);
    assert_eq!(container_liner::get_dressing_counts([V1, V0, V1]), [1, 3, 1]);
    assert_eq!(container_liner::get_dressing_counts([V1, V0, V2]), [1, 3, 1]);
    assert_eq!(container_liner::get_dressing_counts([V1, V1, V0]), [1, 4, 1]);
    assert_eq!(container_liner::get_dressing_counts([V1, V1, V1]), [1, 4, 1]);
    assert_eq!(container_liner::get_dressing_counts([V1, V1, V2]), [1, 4, 1]);
    assert_eq!(container_liner::get_dressing_counts([V1, V2, V0]), [1, 3, 1]);
    assert_eq!(container_liner::get_dressing_counts([V1, V2, V1]), [1, 3, 1]);
    assert_eq!(container_liner::get_dressing_counts([V1, V2, V2]), [1, 3, 1]);
    assert_eq!(container_liner::get_dressing_counts([V2, V0, V0]), [1, 3, 1]);
    assert_eq!(container_liner::get_dressing_counts([V2, V0, V1]), [1, 3, 1]);
    assert_eq!(container_liner::get_dressing_counts([V2, V0, V2]), [1, 3, 1]);
    assert_eq!(container_liner::get_dressing_counts([V2, V1, V0]), [1, 4, 1]);
    assert_eq!(container_liner::get_dressing_counts([V2, V1, V1]), [1, 4, 1]);
    assert_eq!(container_liner::get_dressing_counts([V2, V1, V2]), [1, 4, 1]);
    assert_eq!(container_liner::get_dressing_counts([V2, V2, V0]), [1, 3, 1]);
    assert_eq!(container_liner::get_dressing_counts([V2, V2, V1]), [1, 3, 1]);
    assert_eq!(container_liner::get_dressing_counts([V2, V2, V2]), [1, 3, 1]);
}

#[test]
fn bulk_freighter_bridges() {
    assert_eq!(bulk_freighter::can_mount_bridges([V0, V0, V0]), [true, true, true]);
    assert_eq!(bulk_freighter::can_mount_bridges([V1, V2, V1]), [false, true, false]);
    assert_eq!(bulk_freighter::can_mount_bridges([V2, V1, V2]), [true, true, true]);
}

#[test]
fn container_liner_bridges() {
    assert_eq!(container_liner::can_mount_bridges([V0, V1, V1]), [true, true, true]);
    assert_eq!(container_liner::can_mount_bridges([V1, V0, V2]), [false, true, true]);
}

#[test]
fn hull_config_element_from_draw() {
    let template = HullConfigTemplateFull::ContainerLiner(HullConfigContainerLinerFull);
    let variants = [V1, V1, V0];
    assert_eq!(template.dressing_counts(variants), [1, 4, 1]);
    assert_eq!(template.can_mount_bridges(variants), [false, true, true]);
    assert_eq!(HullConfigTemplateFull::BulkFreighter(HullConfigBulkFreighterFull).can_mount_bridges([V0, V0, V1]), [true, true, false]);
    assert_eq!(template.primary_structure(1, V1), "18a6bc15-58b0-479c-82c3-1722768f033d");
    assert_eq!(secondary_structure(3), "c9d04445-3558-46b4-b6fc-7dca8617d438");
    let draw = HullConfigDraw {
        variants,
        dressing: vec![vec![1], vec![0, 1, 1, 0], vec![0]],
        bridge_segment: 2,
        secondary_structure: 1,
        tint: "0.5".to_string(),
        texture_x: "1".to_string(),
        texture_y: "-2".to_string(),
        texture_z: "3.5".to_string(),
    };
    let e = hull_config_element(template, draw);
    assert_eq!(e.name, "HullConfig");
    assert_eq!(e.attributes.list, vec![("xsi:type".to_string(), "RandomHullConfiguration".to_string())]);
    let names: Vec<&str> = e.children.nodes.iter().map(|n| match n {
        Node::Element(c) => c.name.as_str(),
        Node::Text(_) => "",
    }).collect();
    assert_eq!(names, vec!["PrimaryStructure", "SecondaryStructure", "HullTint", "TextureVariation"]);
    let Node::Element(primary) = &e.children.nodes[0] else { panic!() };
    let Node::Element(middle) = &primary.children.nodes[1] else { panic!() };
    let Node::Element(key) = &middle.children.nodes[0] else { panic!() };
    assert_eq!(key.children.nodes, vec![Node::Text("18a6bc15-58b0-479c-82c3-1722768f033d".to_string())]);
    let Node::Element(dressing) = &middle.children.nodes[1] else { panic!() };
    assert_eq!(dressing.children.nodes.len(), 4);
    let Node::Element(secondary) = &e.children.nodes[1] else { panic!() };
    let Node::Element(config) = &secondary.children.nodes[0] else { panic!() };
    let Node::Element(segment) = &config.children.nodes[1] else { panic!() };
    assert_eq!(segment.children.nodes, vec![Node::Text("2".to_string())]);
}

#[test]
fn config_variants_read_back() {
    let template = HullConfigTemplateFull::BulkFreighter(HullConfigBulkFreighterFull);
    let variants = [V2, V0, V1];
    let counts = template.dressing_counts(variants);
    let draw = HullConfigDraw {
        variants,
        dressing: counts.iter().map(|&n| vec![0; n]).collect(),
        bridge_segment: 1,
        secondary_structure: 0,
        tint: "0.4".to_string(),
        texture_x: "0".to_string(),
        texture_y: "0".to_string(),
        texture_z: "0".to_string(),
    };
    let e = hull_config_element(template, draw);
    assert_eq!(config_variants(template, &e), Some(variants));
    assert_eq!(variant_of(template, 0, "c534a876-3f8a-4315-a194-5dda0f84c2b3"), Some(V2));
    assert_eq!(variant_of(template, 1, "c534a876-3f8a-4315-a194-5dda0f84c2b3"), None);
    let liner = HullConfigTemplateFull::ContainerLiner(HullConfigContainerLinerFull);
    assert_eq!(config_variants(liner, &e), None);
}
