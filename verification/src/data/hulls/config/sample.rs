use vstd::prelude::*;
use crate::data::hulls::config::{HullConfigTemplateFull, Variant, bulk_freighter, container_liner};
use crate::format::codec::{is_text_element, text_element, lemma_single_text};
use crate::text::{spec_decimal, usize_to_decimal};
use crate::xml::{Node, Element, Nodes, Attributes};
use crate::fleet::{has_named, child_index, child_text, spec_child_text, is_first_named};
use crate::duplicate::{spec_ship_list, first_child, lemma_first_named_unique, random_below};
use rand_xoshiro::Xoroshiro128StarStar;
use crate::text::str_eq;

verus! {

impl HullConfigTemplateFull {
    /// The number of dressings on each segment of this hull with the segment
    /// variants `variants`.
    pub open spec fn spec_dressing_counts(self, variants: Seq<Variant>) -> Seq<usize> {
        match self {
            HullConfigTemplateFull::BulkFreighter(_) => bulk_freighter::spec_dressing_counts(variants),
            HullConfigTemplateFull::ContainerLiner(_) => container_liner::spec_dressing_counts(variants),
        }
    }

    /// The number of dressings on each segment of this hull with the segment
    /// variants `variants`.
    pub fn dressing_counts(self, variants: [Variant; 3]) -> (r: [usize; 3])
        ensures
            r@ == self.spec_dressing_counts(variants@),
    {
        match self {
            HullConfigTemplateFull::BulkFreighter(_) => bulk_freighter::get_dressing_counts(variants),
            HullConfigTemplateFull::ContainerLiner(_) => container_liner::get_dressing_counts(variants),
        }
    }

    /// Which segments of this hull with the segment variants `variants` can
    /// carry the bridge.
    pub open spec fn spec_can_mount_bridges(self, variants: Seq<Variant>) -> Seq<bool> {
        match self {
            HullConfigTemplateFull::BulkFreighter(_) => seq![variants[0] != Variant::V1, true, variants[2] != Variant::V1],
            HullConfigTemplateFull::ContainerLiner(_) => seq![variants[0] != Variant::V1, true, true],
        }
    }

    /// Which segments of this hull with the segment variants `variants` can
    /// carry the bridge.
    pub fn can_mount_bridges(self, variants: [Variant; 3]) -> (r: [bool; 3])
        ensures
            r@ == self.spec_can_mount_bridges(variants@),
    {
        match self {
            HullConfigTemplateFull::BulkFreighter(_) => bulk_freighter::can_mount_bridges(variants),
            HullConfigTemplateFull::ContainerLiner(_) => container_liner::can_mount_bridges(variants),
        }
    }

    /// The key of the structure that segment `segment` of this hull takes in
    /// its variant `variant`.
    pub open spec fn spec_primary_structure(self, segment: int, variant: Variant) -> Seq<char> {
        match self {
            HullConfigTemplateFull::BulkFreighter(_) => if segment == 0 {
                variant.spec_select("29eb9c63-6c47-40f2-8f46-4ed4da8d3386"@, "38e7a28f-1b06-4b73-98ee-f03d1d8a81fe"@, "c534a876-3f8a-4315-a194-5dda0f84c2b3"@)
            } else if segment == 1 {
                variant.spec_select("d4c9a66d-81e6-49ee-9b33-82d7a1522bbf"@, "e2c11e02-b770-495e-a3c2-3dc998eac5a6"@, "429f178e-e369-4f51-8054-2e01dd0abea1"@)
            } else {
                variant.spec_select("a8bf77b9-b7e3-4498-bf91-d3e777a7f688"@, "2f2b451c-4776-405c-9914-cad4764f1072"@, "78d72a9a-893c-41c6-bddd-f198dfcf77ee"@)
            },
            HullConfigTemplateFull::ContainerLiner(_) => if segment == 0 {
                variant.spec_select("541cf476-4952-4234-a35a-5f1aa9089316"@, "2d7c228c-cbd6-425e-9590-a2f8ae8d5915"@, "bb034299-84c2-456f-b271-c91249cd4375"@)
            } else if segment == 1 {
                variant.spec_select("09354e51-953c-451a-b415-3e3361812650"@, "18a6bc15-58b0-479c-82c3-1722768f033d"@, "2c68a462-a143-4c89-aea0-df09d4786e92"@)
            } else {
                variant.spec_select("aff1eba2-048e-4477-956b-574f4d468f1d"@, "674e0528-3e0c-48e4-8e5e-d3a559869104"@, "2dbd82fe-d365-4367-aef5-9bb2d3528528"@)
            },
        }
    }

    /// The key of the structure that segment `segment` (0, 1 or 2) of this
    /// hull takes in its variant `variant`.
    pub fn primary_structure(self, segment: usize, variant: Variant) -> (r: &'static str)
        requires
            segment < 3,
        ensures
            r@ == self.spec_primary_structure(segment as int, variant),
    {
        match self {
            HullConfigTemplateFull::BulkFreighter(_) => if segment == 0 {
                variant.select("29eb9c63-6c47-40f2-8f46-4ed4da8d3386", "38e7a28f-1b06-4b73-98ee-f03d1d8a81fe", "c534a876-3f8a-4315-a194-5dda0f84c2b3")
            } else if segment == 1 {
                variant.select("d4c9a66d-81e6-49ee-9b33-82d7a1522bbf", "e2c11e02-b770-495e-a3c2-3dc998eac5a6", "429f178e-e369-4f51-8054-2e01dd0abea1")
            } else {
                variant.select("a8bf77b9-b7e3-4498-bf91-d3e777a7f688", "2f2b451c-4776-405c-9914-cad4764f1072", "78d72a9a-893c-41c6-bddd-f198dfcf77ee")
            },
            HullConfigTemplateFull::ContainerLiner(_) => if segment == 0 {
                variant.select("541cf476-4952-4234-a35a-5f1aa9089316", "2d7c228c-cbd6-425e-9590-a2f8ae8d5915", "bb034299-84c2-456f-b271-c91249cd4375")
            } else if segment == 1 {
                variant.select("09354e51-953c-451a-b415-3e3361812650", "18a6bc15-58b0-479c-82c3-1722768f033d", "2c68a462-a143-4c89-aea0-df09d4786e92")
            } else {
                variant.select("aff1eba2-048e-4477-956b-574f4d468f1d", "674e0528-3e0c-48e4-8e5e-d3a559869104", "2dbd82fe-d365-4367-aef5-9bb2d3528528")
            },
        }
    }
}

/// The keys of the secondary structures (bridges) both configurable hulls
/// choose from.
pub open spec fn spec_secondary_structure(i: int) -> Seq<char> {
    if i == 0 {
        "42d07c1a-156b-4057-aaca-7a2024751423"@
    } else if i == 1 {
        "59344a67-9e7b-43df-9f7c-505ad9a0ab87"@
    } else if i == 2 {
        "9ebcea74-e9c9-45b3-b616-e12e3f491024"@
    } else {
        "c9d04445-3558-46b4-b6fc-7dca8617d438"@
    }
}

/// The key of secondary structure `i` (0 to 3).
pub fn secondary_structure(i: usize) -> (r: &'static str)
    requires
        i < 4,
    ensures
        r@ == spec_secondary_structure(i as int),
{
    if i == 0 {
        "42d07c1a-156b-4057-aaca-7a2024751423"
    } else if i == 1 {
        "59344a67-9e7b-43df-9f7c-505ad9a0ab87"
    } else if i == 2 {
        "9ebcea74-e9c9-45b3-b616-e12e3f491024"
    } else {
        "c9d04445-3558-46b4-b6fc-7dca8617d438"
    }
}

/// What was drawn for a hull configuration: the variant of each segment,
/// the dressing choices (0 or 1) of each segment, the segment the bridge
/// stands on, which secondary structure it is, and the hull tint and
/// texture variation as the text of the numbers drawn.
#[derive(Debug, Clone, PartialEq, Eq)]
pub struct HullConfigDraw {
    pub variants: [Variant; 3],
    pub dressing: Vec<Vec<usize>>,
    pub bridge_segment: usize,
    pub secondary_structure: usize,
    pub tint: String,
    pub texture_x: String,
    pub texture_y: String,
    pub texture_z: String,
}

/// Whether `draw` is a drawing for a hull of the template `template`: each
/// segment has as many dressing choices as it has dressings, each 0 or 1;
/// the bridge stands on a segment that can carry it; and the secondary
/// structure is one of the four.
pub open spec fn draw_fits(template: HullConfigTemplateFull, draw: HullConfigDraw) -> bool {
    let counts = template.spec_dressing_counts(draw.variants@);
    &&& draw.dressing@.len() == 3
    &&& forall|i: int| 0 <= i < 3 ==> (#[trigger] draw.dressing@[i])@.len() == counts[i]
    &&& forall|i: int, j: int| 0 <= i < 3 && 0 <= j < draw.dressing@[i]@.len() ==> #[trigger] draw.dressing@[i]@[j] <= 1
    &&& draw.bridge_segment < 3
    &&& template.spec_can_mount_bridges(draw.variants@)[draw.bridge_segment as int]
    &&& draw.secondary_structure < 4
}

/// Whether `nodes` are `int` elements holding the numbers `values`.
pub open spec fn is_int_list(nodes: Seq<Node>, values: Seq<usize>) -> bool {
    &&& nodes.len() == values.len()
    &&& forall|j: int| 0 <= j < nodes.len() ==> is_text_element(#[trigger] nodes[j], "int"@, spec_decimal(values[j] as nat))
}

/// Whether `n` is an element named `name`, without attributes, whose
/// children are `count` elements.
pub open spec fn is_parent(n: Node, name: Seq<char>, count: int) -> bool {
    &&& n is Element
    &&& n->Element_0.name@ == name
    &&& n->Element_0.attributes.list@.len() == 0
    &&& n->Element_0.children.nodes@.len() == count
}

/// The children of the element `n`.
pub open spec fn kids(n: Node) -> Seq<Node> {
    n->Element_0.children.nodes@
}

/// Whether `e` is the `HullConfig` element of a random configuration of a
/// hull of the template `template` drawn as `draw`: three segment
/// configurations, each with its structure's key and its dressing choices;
/// the bridge's key, segment and snap point 0; the tint on red, green and
/// blue with alpha 1; and the texture variation.
pub open spec fn is_hull_config_element(e: Element, template: HullConfigTemplateFull, draw: HullConfigDraw) -> bool {
    let c = e.children.nodes@;
    &&& e.name@ == "HullConfig"@
    &&& e.attributes.list@.len() == 1
    &&& e.attributes.list@[0].0@ == "xsi:type"@
    &&& e.attributes.list@[0].1@ == "RandomHullConfiguration"@
    &&& c.len() == 4
    &&& is_parent(c[0], "PrimaryStructure"@, 3)
    &&& forall|i: int| 0 <= i < 3 ==> {
        let s = #[trigger] kids(c[0])[i];
        &&& is_parent(s, "SegmentConfiguration"@, 2)
        &&& is_text_element(kids(s)[0], "Key"@, template.spec_primary_structure(i, draw.variants@[i]))
        &&& kids(s)[1] is Element
        &&& kids(s)[1]->Element_0.name@ == "Dressing"@
        &&& kids(s)[1]->Element_0.attributes.list@.len() == 0
        &&& is_int_list(kids(kids(s)[1]), draw.dressing@[i]@)
    }
    &&& is_parent(c[1], "SecondaryStructure"@, 1)
    &&& is_parent(kids(c[1])[0], "SecondaryStructureConfig"@, 3)
    &&& is_text_element(kids(kids(c[1])[0])[0], "Key"@, spec_secondary_structure(draw.secondary_structure as int))
    &&& is_text_element(kids(kids(c[1])[0])[1], "Segment"@, spec_decimal(draw.bridge_segment as nat))
    &&& is_text_element(kids(kids(c[1])[0])[2], "SnapPoint"@, "0"@)
    &&& is_parent(c[2], "HullTint"@, 4)
    &&& is_text_element(kids(c[2])[0], "r"@, draw.tint@)
    &&& is_text_element(kids(c[2])[1], "g"@, draw.tint@)
    &&& is_text_element(kids(c[2])[2], "b"@, draw.tint@)
    &&& is_text_element(kids(c[2])[3], "a"@, "1"@)
    &&& is_parent(c[3], "TextureVariation"@, 3)
    &&& is_text_element(kids(c[3])[0], "x"@, draw.texture_x@)
    &&& is_text_element(kids(c[3])[1], "y"@, draw.texture_y@)
    &&& is_text_element(kids(c[3])[2], "z"@, draw.texture_z@)
}

/// The `int` elements holding the numbers `values`.
fn int_list(values: &Vec<usize>) -> (r: Vec<Node>)
    ensures
        is_int_list(r@, values@),
{
    let mut out: Vec<Node> = Vec::new();
    let mut j: usize = 0;
    while j < values.len()
        invariant
            j <= values@.len(),
            out@.len() == j,
            forall|k: int| 0 <= k < j ==> is_text_element(#[trigger] out@[k], "int"@, spec_decimal(values@[k] as nat)),
        decreases values.len() - j,
    {
        out.push(text_element("int", usize_to_decimal(values[j])));
        j = j + 1;
    }
    out
}

/// The `SegmentConfiguration` element of segment `i` of a hull of the
/// template `template` drawn as `draw`.
fn segment_element(template: HullConfigTemplateFull, draw: &HullConfigDraw, i: usize) -> (r: Node)
    requires
        i < 3,
        draw.dressing@.len() == 3,
    ensures
        is_parent(r, "SegmentConfiguration"@, 2),
        is_text_element(kids(r)[0], "Key"@, template.spec_primary_structure(i as int, draw.variants@[i as int])),
        kids(r)[1] is Element,
        kids(r)[1]->Element_0.name@ == "Dressing"@,
        kids(r)[1]->Element_0.attributes.list@.len() == 0,
        is_int_list(kids(kids(r)[1]), draw.dressing@[i as int]@),
{
    let key = text_element("Key", template.primary_structure(i, draw.variants[i]).to_owned());
    let dressing = Node::Element(Element::new("Dressing".to_owned(), Nodes { nodes: int_list(&draw.dressing[i]) }));
    Node::Element(Element::new("SegmentConfiguration".to_owned(), Nodes { nodes: vec![key, dressing] }))
}

/// The element `name` holding the nodes `nodes`.
fn parent(name: &str, nodes: Vec<Node>) -> (r: Node)
    ensures
        is_parent(r, name@, nodes@.len() as int),
        kids(r) == nodes@,
{
    Node::Element(Element::new(name.to_owned(), Nodes { nodes }))
}

/// The `HullConfig` element of a random configuration of a hull of the
/// template `template`, drawn as `draw`; see [`is_hull_config_element`].
pub fn hull_config_element(template: HullConfigTemplateFull, draw: HullConfigDraw) -> (r: Element)
    requires
        draw_fits(template, draw),
    ensures
        is_hull_config_element(r, template, draw),
{
    let ghost d = draw;
    let s0 = segment_element(template, &draw, 0);
    let s1 = segment_element(template, &draw, 1);
    let s2 = segment_element(template, &draw, 2);
    let primary = parent("PrimaryStructure", vec![s0, s1, s2]);
    let config = parent("SecondaryStructureConfig", vec![
        text_element("Key", secondary_structure(draw.secondary_structure).to_owned()),
        text_element("Segment", usize_to_decimal(draw.bridge_segment)),
        text_element("SnapPoint", "0".to_owned()),
    ]);
    let secondary = parent("SecondaryStructure", vec![config]);
    let HullConfigDraw { variants: _, dressing: _, bridge_segment: _, secondary_structure: _, tint, texture_x, texture_y, texture_z } = draw;
    let tint_nodes = vec![
        text_element("r", tint.clone()),
        text_element("g", tint.clone()),
        text_element("b", tint),
        text_element("a", "1".to_owned()),
    ];
    let hull_tint = parent("HullTint", tint_nodes);
    let texture = parent("TextureVariation", vec![
        text_element("x", texture_x),
        text_element("y", texture_y),
        text_element("z", texture_z),
    ]);
    let attributes = Attributes { list: vec![("xsi:type".to_owned(), "RandomHullConfiguration".to_owned())] };
    let r = Element::with_attributes("HullConfig".to_owned(), attributes, Nodes { nodes: vec![primary, secondary, hull_tint, texture] });
    proof {
        assert forall|i: int| 0 <= i < 3 implies {
            let s = #[trigger] kids(r.children.nodes@[0])[i];
            &&& is_parent(s, "SegmentConfiguration"@, 2)
            &&& is_text_element(kids(s)[0], "Key"@, template.spec_primary_structure(i, d.variants@[i]))
            &&& kids(s)[1] is Element
            &&& kids(s)[1]->Element_0.name@ == "Dressing"@
            &&& kids(s)[1]->Element_0.attributes.list@.len() == 0
            &&& is_int_list(kids(kids(s)[1]), d.dressing@[i]@)
        } by {
            if i == 0 {
            } else if i == 1 {
            } else {
            }
        }
    }
    r
}

/// The variant in which segment `segment` of a hull of the template
/// `template` takes the structure keyed `key`, if any does.
pub open spec fn spec_variant_of(template: HullConfigTemplateFull, segment: int, key: Seq<char>) -> Option<Variant> {
    if template.spec_primary_structure(segment, Variant::V0) == key {
        Some(Variant::V0)
    } else if template.spec_primary_structure(segment, Variant::V1) == key {
        Some(Variant::V1)
    } else if template.spec_primary_structure(segment, Variant::V2) == key {
        Some(Variant::V2)
    } else {
        None
    }
}

/// The variant in which segment `segment` (0, 1 or 2) of a hull of the
/// template `template` takes the structure keyed `key`, if any does.
pub fn variant_of(template: HullConfigTemplateFull, segment: usize, key: &str) -> (r: Option<Variant>)
    requires
        segment < 3,
    ensures
        r == spec_variant_of(template, segment as int, key@),
{
    if str_eq(template.primary_structure(segment, Variant::V0), key) {
        Some(Variant::V0)
    } else if str_eq(template.primary_structure(segment, Variant::V1), key) {
        Some(Variant::V1)
    } else if str_eq(template.primary_structure(segment, Variant::V2), key) {
        Some(Variant::V2)
    } else {
        None
    }
}

/// The segment variants that the `HullConfig` element `config` of a hull of
/// the template `template` was drawn with: its first `PrimaryStructure`
/// child holds three segment elements, whose `Key` children name a
/// structure of the segment at their place. None when the element does not
/// have that shape.
pub open spec fn spec_config_variants(template: HullConfigTemplateFull, config: Element) -> Option<Seq<Variant>> {
    if !has_named(config.children.nodes@, "PrimaryStructure"@) {
        None
    } else {
        let segments = spec_ship_list(first_child(config, "PrimaryStructure"@).children.nodes@);
        if segments.len() != 3 {
            None
        } else {
            let found = Seq::new(3, |i: int| match spec_child_text(segments[i], "Key"@) {
                Some(k) => spec_variant_of(template, i, k),
                None => None,
            });
            if forall|i: int| 0 <= i < 3 ==> (#[trigger] found[i]) is Some {
                Some(Seq::new(3, |i: int| found[i]->Some_0))
            } else {
                None
            }
        }
    }
}

/// The segment variants that the hull configuration `config` of a hull of
/// the template `template` was drawn with (see [`spec_config_variants`]), so
/// that a copy of the hull can be drawn alike.
pub fn config_variants(template: HullConfigTemplateFull, config: &Element) -> (r: Option<[Variant; 3]>)
    ensures
        match spec_config_variants(template, *config) {
            Some(v) => r matches Some(a) && a@ == v,
            None => r is None,
        },
{
    let p = match child_index(&config.children.nodes, "PrimaryStructure") {
        Some(p) => p,
        None => return None,
    };
    proof { lemma_first_named_unique(config.children.nodes@, "PrimaryStructure"@, p as int); }
    let primary = match &config.children.nodes[p] {
        Node::Element(e) => e,
        Node::Text(_) => return None,
    };
    let nodes = &primary.children.nodes;
    let ghost segments = spec_ship_list(nodes@);
    let mut found: Vec<Variant> = Vec::new();
    let mut count: usize = 0;
    let mut i: usize = 0;
    while i < nodes.len()
        invariant
            i <= nodes@.len(),
            has_named(config.children.nodes@, "PrimaryStructure"@),
            nodes@ == first_child(*config, "PrimaryStructure"@).children.nodes@,
            segments == spec_ship_list(nodes@),
            count == spec_ship_list(nodes@.take(i as int)).len(),
            count <= 3,
            found@.len() == count,
            forall|j: int| 0 <= j < count ==> match spec_child_text(#[trigger] spec_ship_list(nodes@.take(i as int))[j], "Key"@) {
                Some(k) => spec_variant_of(template, j, k) == Some(found@[j]),
                None => false,
            },
        decreases nodes.len() - i,
    {
        proof {
            assert(nodes@.take(i as int + 1).drop_last() == nodes@.take(i as int));
            assert(nodes@.take(i as int + 1).last() == nodes@[i as int]);
        }
        match &nodes[i] {
            Node::Element(segment) => {
                if count == 3 {
                    proof {
                        crate::duplicate::lemma_ship_list_prefix(nodes@, i as int + 1);
                    }
                    return None;
                }
                let key = match child_text(segment, "Key") {
                    Ok(k) => k,
                    Err(_) => {
                        proof {
                            crate::duplicate::lemma_ship_list_prefix(nodes@, i as int + 1);
                            assert(spec_ship_list(nodes@.take(i as int + 1)) == spec_ship_list(nodes@.take(i as int)).push(*segment));
                            assert(spec_ship_list(nodes@.take(i as int + 1))[count as int] == *segment);
                            assert(segments[count as int] == *segment);
                            if segments.len() == 3 {
                                let spec_found = Seq::new(3, |j: int| match spec_child_text(segments[j], "Key"@) {
                                    Some(k) => spec_variant_of(template, j, k),
                                    None => None,
                                });
                                assert(spec_found[count as int] is None);
                            }
                        }
                        return None;
                    },
                };
                let v = match variant_of(template, count, key.as_str()) {
                    Some(v) => v,
                    None => {
                        proof {
                            crate::duplicate::lemma_ship_list_prefix(nodes@, i as int + 1);
                            assert(spec_ship_list(nodes@.take(i as int + 1)) == spec_ship_list(nodes@.take(i as int)).push(*segment));
                            assert(spec_ship_list(nodes@.take(i as int + 1))[count as int] == *segment);
                            assert(segments[count as int] == *segment);
                            if segments.len() == 3 {
                                let spec_found = Seq::new(3, |j: int| match spec_child_text(segments[j], "Key"@) {
                                    Some(k) => spec_variant_of(template, j, k),
                                    None => None,
                                });
                                assert(spec_found[count as int] is None);
                            }
                        }
                        return None;
                    },
                };
                found.push(v);
                count = count + 1;
            },
            Node::Text(_) => {},
        }
        i = i + 1;
    }
    proof {
        assert(nodes@.take(i as int) == nodes@);
    }
    if count != 3 {
        return None;
    }
    let r = [found[0], found[1], found[2]];
    proof {
        let spec_found = Seq::new(3, |j: int| match spec_child_text(segments[j], "Key"@) {
            Some(k) => spec_variant_of(template, j, k),
            None => None,
        });
        assert forall|j: int| 0 <= j < 3 implies (#[trigger] spec_found[j]) == Some(found@[j]) by {}
        assert(r@ == Seq::new(3, |j: int| spec_found[j]->Some_0));
    }
    Some(r)
}

/// Each segment's structures differ between its variants, so a structure's
/// key names the variant it was drawn for.
pub proof fn lemma_variant_of_structure(template: HullConfigTemplateFull, segment: int, v: Variant)
    requires
        0 <= segment < 3,
    ensures
        spec_variant_of(template, segment, template.spec_primary_structure(segment, v)) == Some(v),
{
    reveal_strlit("29eb9c63-6c47-40f2-8f46-4ed4da8d3386");
    reveal_strlit("38e7a28f-1b06-4b73-98ee-f03d1d8a81fe");
    reveal_strlit("c534a876-3f8a-4315-a194-5dda0f84c2b3");
    reveal_strlit("d4c9a66d-81e6-49ee-9b33-82d7a1522bbf");
    reveal_strlit("e2c11e02-b770-495e-a3c2-3dc998eac5a6");
    reveal_strlit("429f178e-e369-4f51-8054-2e01dd0abea1");
    reveal_strlit("a8bf77b9-b7e3-4498-bf91-d3e777a7f688");
    reveal_strlit("2f2b451c-4776-405c-9914-cad4764f1072");
    reveal_strlit("78d72a9a-893c-41c6-bddd-f198dfcf77ee");
    reveal_strlit("541cf476-4952-4234-a35a-5f1aa9089316");
    reveal_strlit("2d7c228c-cbd6-425e-9590-a2f8ae8d5915");
    reveal_strlit("bb034299-84c2-456f-b271-c91249cd4375");
    reveal_strlit("09354e51-953c-451a-b415-3e3361812650");
    reveal_strlit("18a6bc15-58b0-479c-82c3-1722768f033d");
    reveal_strlit("2c68a462-a143-4c89-aea0-df09d4786e92");
    reveal_strlit("aff1eba2-048e-4477-956b-574f4d468f1d");
    reveal_strlit("674e0528-3e0c-48e4-8e5e-d3a559869104");
    reveal_strlit("2dbd82fe-d365-4367-aef5-9bb2d3528528");
    let k0 = template.spec_primary_structure(segment, Variant::V0);
    let k1 = template.spec_primary_structure(segment, Variant::V1);
    let k2 = template.spec_primary_structure(segment, Variant::V2);
    assert(k0[0] != k1[0] && k0[0] != k2[0] && k1[0] != k2[0]);
}

/// Where every node is an element, the elements of `nodes` are the nodes
/// themselves.
proof fn lemma_element_list_of_elements(nodes: Seq<Node>)
    requires
        forall|i: int| 0 <= i < nodes.len() ==> (#[trigger] nodes[i]) is Element,
    ensures
        spec_ship_list(nodes) == nodes.map_values(|n: Node| n->Element_0),
    decreases nodes.len(),
{
    if nodes.len() > 0 {
        assert forall|i: int| 0 <= i < nodes.drop_last().len() implies (#[trigger] nodes.drop_last()[i]) is Element by {
            assert(nodes.drop_last()[i] == nodes[i]);
        }
        lemma_element_list_of_elements(nodes.drop_last());
        assert(nodes.last() == nodes[nodes.len() - 1]);
        assert(nodes.drop_last().map_values(|n: Node| n->Element_0).push(nodes.last()->Element_0)
            == nodes.map_values(|n: Node| n->Element_0));
    } else {
        assert(nodes.map_values(|n: Node| n->Element_0) == Seq::<Element>::empty());
    }
}

/// The first child of an element that holds a single text under `name`
/// first reads as that text.
proof fn lemma_first_text_child(e: Element, name: Seq<char>, text: Seq<char>)
    requires
        e.children.nodes@.len() > 0,
        is_text_element(e.children.nodes@[0], name, text),
    ensures
        spec_child_text(e, name) == Some(text),
{
    let nodes = e.children.nodes@;
    assert(is_first_named(nodes, name, 0));
    lemma_first_named_unique(nodes, name, 0);
    let inner = nodes[0]->Element_0.children.nodes@;
    lemma_single_text(inner, inner[0]->Text_0);
}

/// The segment variants read back from a drawn hull configuration are the
/// variants it was drawn with: a copy of a hull can be drawn alike.
pub proof fn lemma_config_variants_of_drawn(template: HullConfigTemplateFull, draw: HullConfigDraw, e: Element)
    requires
        is_hull_config_element(e, template, draw),
    ensures
        spec_config_variants(template, e) == Some(draw.variants@),
{
    let c = e.children.nodes@;
    assert(is_first_named(c, "PrimaryStructure"@, 0));
    lemma_first_named_unique(c, "PrimaryStructure"@, 0);
    let ps = kids(c[0]);
    assert forall|i: int| 0 <= i < ps.len() implies (#[trigger] ps[i]) is Element by {
        assert(is_parent(kids(c[0])[i], "SegmentConfiguration"@, 2));
    }
    lemma_element_list_of_elements(ps);
    let segments = spec_ship_list(ps);
    assert forall|i: int| 0 <= i < 3 implies spec_child_text(#[trigger] segments[i], "Key"@)
        == Some(template.spec_primary_structure(i, draw.variants@[i])) by {
        let s = kids(c[0])[i];
        assert(is_parent(s, "SegmentConfiguration"@, 2));
        assert(segments[i] == s->Element_0);
        lemma_first_text_child(s->Element_0, "Key"@, template.spec_primary_structure(i, draw.variants@[i]));
    }
    let found = Seq::new(3, |i: int| match spec_child_text(segments[i], "Key"@) {
        Some(k) => spec_variant_of(template, i, k),
        None => None,
    });
    assert forall|i: int| 0 <= i < 3 implies (#[trigger] found[i]) == Some(draw.variants@[i]) by {
        lemma_variant_of_structure(template, i, draw.variants@[i]);
    }
    assert(Seq::new(3, |i: int| found[i]->Some_0) == draw.variants@);
}

/// A variant drawn from `rng`.
fn draw_variant(rng: &mut Xoroshiro128StarStar) -> (r: Variant) {
    let n = random_below(rng, 3);
    if n == 0 {
        Variant::V0
    } else if n == 1 {
        Variant::V1
    } else {
        Variant::V2
    }
}

/// `count` dressing choices (0 or 1) drawn from `rng`.
fn draw_dressing(rng: &mut Xoroshiro128StarStar, count: usize) -> (r: Vec<usize>)
    ensures
        r@.len() == count,
        forall|j: int| 0 <= j < count ==> #[trigger] r@[j] <= 1,
{
    let mut out: Vec<usize> = Vec::new();
    let mut j: usize = 0;
    while j < count
        invariant
            j <= count,
            out@.len() == j,
            forall|k: int| 0 <= k < j ==> #[trigger] out@[k] <= 1,
        decreases count - j,
    {
        out.push(random_below(rng, 2));
        j = j + 1;
    }
    out
}

/// A segment that can carry the bridge, drawn from `rng`, each such segment
/// as likely as the others (the middle one always can).
fn draw_bridge(rng: &mut Xoroshiro128StarStar, mounts: [bool; 3]) -> (r: usize)
    requires
        mounts@[1],
    ensures
        r < 3,
        mounts@[r as int],
{
    let mut allowed: Vec<usize> = Vec::new();
    let mut i: usize = 0;
    while i < 3
        invariant
            i <= 3,
            mounts@[1],
            allowed@.len() <= i,
            i > 1 ==> allowed@.len() > 0,
            forall|k: int| 0 <= k < allowed@.len() ==> #[trigger] allowed@[k] < 3 && mounts@[allowed@[k] as int],
        decreases 3 - i,
    {
        if mounts[i] {
            allowed.push(i);
        }
        i = i + 1;
    }
    let k = random_below(rng, allowed.len());
    allowed[k]
}

/// A random configuration of a hull of the template `template`, drawn from
/// `rng`: the segment variants `variants` where they are given (to draw a
/// copy of a hull alike), else drawn; each dressing 0 or 1; the bridge on a
/// segment that can carry it, each such segment as likely; one of the four
/// secondary structures; and the tint and texture variation given as the
/// text of the numbers drawn for them.
pub fn draw_hull_config(
    template: HullConfigTemplateFull,
    variants: Option<[Variant; 3]>,
    tint: String,
    texture_x: String,
    texture_y: String,
    texture_z: String,
    rng: &mut Xoroshiro128StarStar,
) -> (r: Element)
    ensures
        exists|draw: HullConfigDraw| {
            &&& draw_fits(template, draw)
            &&& is_hull_config_element(r, template, draw)
            &&& (variants matches Some(v) ==> draw.variants == v)
            &&& draw.tint@ == tint@
            &&& draw.texture_x@ == texture_x@
            &&& draw.texture_y@ == texture_y@
            &&& draw.texture_z@ == texture_z@
        },
{
    let variants = match variants {
        Some(v) => v,
        None => [draw_variant(rng), draw_variant(rng), draw_variant(rng)],
    };
    let counts = template.dressing_counts(variants);
    let d0 = draw_dressing(rng, counts[0]);
    let d1 = draw_dressing(rng, counts[1]);
    let d2 = draw_dressing(rng, counts[2]);
    let dressing = vec![d0, d1, d2];
    let mounts = template.can_mount_bridges(variants);
    let bridge_segment = draw_bridge(rng, mounts);
    let secondary_structure = random_below(rng, 4);
    let draw = HullConfigDraw {
        variants,
        dressing,
        bridge_segment,
        secondary_structure,
        tint,
        texture_x,
        texture_y,
        texture_z,
    };
    let ghost gd = draw;
    proof {
        assert forall|i: int, j: int| 0 <= i < 3 && 0 <= j < gd.dressing@[i]@.len() implies #[trigger] gd.dressing@[i]@[j] <= 1 by {
            if i == 0 {
                assert(gd.dressing@[0]@[j] <= 1);
            } else if i == 1 {
                assert(gd.dressing@[1]@[j] <= 1);
            } else {
                assert(gd.dressing@[2]@[j] <= 1);
            }
        }
        assert(draw_fits(template, gd));
    }
    let r = hull_config_element(template, draw);
    r
}

} // verus!
