use vstd::prelude::*;
use crate::xml::{Node, Element, Nodes, Error, same_node, same_element, same_nodes};
use crate::fleet::{is_named, has_named, is_first_named, child_index, is_child_text_set, set_child_text,
    lemma_child_text_set_keeps_others, spec_child_text, child_text};
use crate::data::hulls::HullKey;
use crate::data::hulls::config::HullConfigTemplateFull;
use crate::format::{ComponentData, FormatError, MagazineSaveData};
use crate::format::codec::{ComponentDataView, component_data_view, spec_component_data_from_element,
    is_component_data_element, magazine_view};
use crate::format::key::Key;
use rand::Rng;
use rand_xoshiro::Xoroshiro128StarStar;

verus! {

/// The magazines `m` with the keys `keys` given to them in order, each
/// keeping its munition and quantity.
pub open spec fn spec_with_keys(m: Seq<(u128, Seq<char>, usize)>, keys: Seq<u128>) -> Seq<(u128, Seq<char>, usize)> {
    Seq::new(m.len(), |i: int| (keys[i], m[i].1, m[i].2))
}

/// The magazines that component data holds: none for deception data.
pub open spec fn spec_view_load(v: ComponentDataView) -> Seq<(u128, Seq<char>, usize)> {
    match v {
        ComponentDataView::BulkMagazineData(m) => m,
        ComponentDataView::CellLauncherData(m) => m,
        ComponentDataView::ResizableCellLauncherData(m, _, _) => m,
        ComponentDataView::DeceptionComponentData(_) => Seq::empty(),
    }
}

/// Component data `v` with its magazines given the keys `keys` in order.
pub open spec fn spec_view_with_keys(v: ComponentDataView, keys: Seq<u128>) -> ComponentDataView {
    match v {
        ComponentDataView::BulkMagazineData(m) => ComponentDataView::BulkMagazineData(spec_with_keys(m, keys)),
        ComponentDataView::CellLauncherData(m) => ComponentDataView::CellLauncherData(spec_with_keys(m, keys)),
        ComponentDataView::ResizableCellLauncherData(m, x, y) =>
            ComponentDataView::ResizableCellLauncherData(spec_with_keys(m, keys), x, y),
        ComponentDataView::DeceptionComponentData(n) => ComponentDataView::DeceptionComponentData(n),
    }
}

/// The pseudo-random generator that draws fresh magazine keys.
#[verifier::external_type_specification]
#[verifier::external_body]
pub struct ExXoroshiro128StarStar(Xoroshiro128StarStar);

/// Sixteen bytes drawn from `rng` (`Rng::gen` of rand on
/// `Xoroshiro128StarStar`). Nothing is stated of them: any bytes may come.
#[verifier::external_body]
fn random_bytes(rng: &mut Xoroshiro128StarStar) -> (r: [u8; 16]) {
    rng.gen()
}

/// A number below `n` drawn from `rng` (`Rng::gen_range(0..n)` of rand on
/// `Xoroshiro128StarStar`, which panics on an empty range): it lies in the
/// range, and nothing more is stated of it.
#[verifier::external_body]
pub(crate) fn random_below(rng: &mut Xoroshiro128StarStar, n: usize) -> (r: usize)
    requires
        n > 0,
    ensures
        r < n,
{
    rng.gen_range(0..n)
}

/// Gives each magazine of `load` a fresh key drawn from `rng`, and returns
/// the keys given, in order.
fn rekey_load(load: &mut Vec<MagazineSaveData>, rng: &mut Xoroshiro128StarStar) -> (ks: Ghost<Seq<u128>>)
    ensures
        ks@.len() == old(load)@.len(),
        final(load)@.map_values(|m: MagazineSaveData| magazine_view(m)) == spec_with_keys(
            old(load)@.map_values(|m: MagazineSaveData| magazine_view(m)), ks@),
{
    let ghost before = load@.map_values(|m: MagazineSaveData| magazine_view(m));
    let ghost mut ks: Seq<u128> = Seq::empty();
    let n = load.len();
    let mut i: usize = 0;
    while i < n
        invariant
            n == load@.len(),
            i <= n,
            before.len() == n,
            ks.len() == i,
            forall|j: int| 0 <= j < i ==> magazine_view(#[trigger] load@[j]) == (ks[j], before[j].1, before[j].2),
            forall|j: int| i <= j < n ==> magazine_view(#[trigger] load@[j]) == before[j],
        decreases n - i,
    {
        let key = Key::from_bytes(random_bytes(rng));
        let mut m = load.remove(i);
        m.magazine_key = key;
        load.insert(i, m);
        proof { ks = ks.push(key@); }
        i = i + 1;
    }
    assert(load@.map_values(|m: MagazineSaveData| magazine_view(m)) =~= spec_with_keys(before, ks));
    Ghost(ks)
}

/// Component data `d` with its magazines given fresh keys drawn from `rng`.
fn rekey_component_data(d: ComponentData, rng: &mut Xoroshiro128StarStar) -> (r: (ComponentData, Ghost<Seq<u128>>))
    ensures
        r.1@.len() == spec_view_load(component_data_view(d)).len(),
        component_data_view(r.0) == spec_view_with_keys(component_data_view(d), r.1@),
{
    match d {
        ComponentData::BulkMagazineData { mut load } => {
            let ks = rekey_load(&mut load, rng);
            (ComponentData::BulkMagazineData { load }, ks)
        },
        ComponentData::CellLauncherData { mut missile_load } => {
            let ks = rekey_load(&mut missile_load, rng);
            (ComponentData::CellLauncherData { missile_load }, ks)
        },
        ComponentData::ResizableCellLauncherData { mut missile_load, configured_size } => {
            let ks = rekey_load(&mut missile_load, rng);
            (ComponentData::ResizableCellLauncherData { missile_load, configured_size }, ks)
        },
        ComponentData::DeceptionComponentData { identity_option } => {
            (ComponentData::DeceptionComponentData { identity_option }, Ghost(Seq::empty()))
        },
    }
}

/// Where `i` is the first position of an element named `name`, the first
/// such position that a `choose` finds is `i`.
pub proof fn lemma_first_named_unique(nodes: Seq<Node>, name: Seq<char>, i: int)
    requires
        is_first_named(nodes, name, i),
    ensures
        has_named(nodes, name),
        (choose|k: int| is_first_named(nodes, name, k)) == i,
{
    assert(is_named(nodes[i], name));
    let k = choose|k: int| is_first_named(nodes, name, k);
    assert(is_first_named(nodes, name, k));
    if k < i {
        assert(!is_named(nodes[k], name));
    } else if i < k {
        assert(!is_named(nodes[i], name));
    }
}

/// The position of the first child element of `e` named `name` (where there
/// is one).
pub open spec fn first_child_index(e: Element, name: Seq<char>) -> int {
    choose|k: int| is_first_named(e.children.nodes@, name, k)
}

/// The first child element of `e` named `name` (where there is one).
pub open spec fn first_child(e: Element, name: Seq<char>) -> Element {
    e.children.nodes@[first_child_index(e, name)]->Element_0
}

/// How a socket node of a ship reads for duplication: `Some(None)` where it
/// holds no component data (it is text, or an element without a
/// `ComponentData` child), `Some(Some(v))` where its first `ComponentData`
/// child reads as `v`, and `None` where that child cannot be read.
pub open spec fn spec_socket_data(n: Node) -> Option<Option<ComponentDataView>> {
    match n {
        Node::Text(_) => Some(None),
        Node::Element(e) => if has_named(e.children.nodes@, "ComponentData"@) {
            match spec_component_data_from_element(first_child(e, "ComponentData"@)) {
                Some(v) => Some(Some(v)),
                None => None,
            }
        } else {
            Some(None)
        },
    }
}

/// Whether `after` is the socket node `before` with the magazines of its
/// component data given the keys `keys`, in order: the `ComponentData` child
/// is saved anew with those keys, and nothing else changes.
pub open spec fn is_rekeyed_socket(before: Node, after: Node, keys: Seq<u128>) -> bool {
    match spec_socket_data(before) {
        Some(Some(v)) => {
            let e = before->Element_0;
            let j = first_child_index(e, "ComponentData"@);
            &&& keys.len() == spec_view_load(v).len()
            &&& after is Element
            &&& after->Element_0.name == e.name
            &&& after->Element_0.attributes == e.attributes
            &&& after->Element_0.children.nodes@.len() == e.children.nodes@.len()
            &&& forall|k: int| 0 <= k < e.children.nodes@.len() && k != j
                ==> after->Element_0.children.nodes@[k] == #[trigger] e.children.nodes@[k]
            &&& after->Element_0.children.nodes@[j] is Element
            &&& is_component_data_element(after->Element_0.children.nodes@[j]->Element_0, spec_view_with_keys(v, keys))
        },
        _ => after == before && keys.len() == 0,
    }
}

/// The socket node `node` with fresh magazine keys drawn from `rng`.
fn rekey_socket(node: Node, rng: &mut Xoroshiro128StarStar) -> (r: Result<Node, FormatError>)
    ensures
        spec_socket_data(node) is Some <==> r is Ok,
        r matches Ok(n) ==> exists|ks: Seq<u128>| is_rekeyed_socket(node, n, ks),
{
    let ghost whole = node;
    match node {
        Node::Text(t) => {
            let r = Node::Text(t);
            assert(is_rekeyed_socket(whole, r, Seq::empty()));
            Ok(r)
        },
        Node::Element(e) => {
            let ghost ge = e;
            let Element { name, attributes, children } = e;
            let mut nodes = children.nodes;
            match child_index(&nodes, "ComponentData") {
                None => {
                    let r = Node::Element(Element { name, attributes, children: Nodes { nodes } });
                    assert(r == whole);
                    assert(is_rekeyed_socket(whole, r, Seq::empty()));
                    Ok(r)
                },
                Some(j) => {
                    proof { lemma_first_named_unique(nodes@, "ComponentData"@, j as int); }
                    let ghost before = nodes@;
                    let cd = match nodes.remove(j) {
                        Node::Element(c) => c,
                        Node::Text(t) => {
                            assert(false);
                            return Err(FormatError::XmlError(Error::UnexpectedText(t)));
                        },
                    };
                    let data = match ComponentData::deserialize_element(cd) {
                        Ok(d) => d,
                        Err(err) => return Err(err),
                    };
                    let (data, ks) = rekey_component_data(data, rng);
                    let fresh = data.serialize_element();
                    nodes.insert(j, Node::Element(fresh));
                    let r = Node::Element(Element { name, attributes, children: Nodes { nodes } });
                    proof {
                        assert forall|k: int| 0 <= k < before.len() && k != j
                            implies r->Element_0.children.nodes@[k] == #[trigger] before[k] by {
                            if k < j {
                            } else {
                            }
                        }
                        assert(is_rekeyed_socket(whole, r, ks@));
                    }
                    Ok(r)
                },
            }
        },
    }
}

/// Whether `after` is the socket node `before` with fresh magazine keys
/// (see [`is_rekeyed_socket`]).
pub open spec fn socket_rekeyed(before: Node, after: Node) -> bool {
    exists|ks: Seq<u128>| is_rekeyed_socket(before, after, ks)
}

/// Whether every socket node of `nodes` can be read.
pub open spec fn sockets_readable(nodes: Seq<Node>) -> bool {
    forall|i: int| 0 <= i < nodes.len() ==> (#[trigger] spec_socket_data(nodes[i])) is Some
}

/// Whether `after` holds the socket nodes `before`, each with fresh
/// magazine keys.
pub open spec fn is_rekeyed_sockets(before: Seq<Node>, after: Seq<Node>) -> bool {
    &&& after.len() == before.len()
    &&& forall|i: int| 0 <= i < before.len() ==> socket_rekeyed(#[trigger] before[i], after[i])
}

/// The socket nodes `nodes` with fresh magazine keys drawn from `rng`.
fn rekey_sockets(nodes: Vec<Node>, rng: &mut Xoroshiro128StarStar) -> (r: Result<Vec<Node>, FormatError>)
    ensures
        sockets_readable(nodes@) <==> r is Ok,
        r matches Ok(out) ==> is_rekeyed_sockets(nodes@, out@),
{
    let ghost all = nodes@;
    let mut rest = nodes;
    let mut out: Vec<Node> = Vec::new();
    let n = rest.len();
    let mut i: usize = 0;
    while i < n
        invariant
            n == all.len(),
            all == nodes@,
            i <= n,
            rest@ == all.subrange(i as int, n as int),
            out@.len() == i,
            forall|k: int| 0 <= k < i ==> socket_rekeyed(#[trigger] all[k], out@[k]),
            forall|k: int| 0 <= k < i ==> (#[trigger] spec_socket_data(all[k])) is Some,
        decreases n - i,
    {
        let node = rest.remove(0);
        assert(node == all[i as int]);
        match rekey_socket(node, rng) {
            Ok(m) => out.push(m),
            Err(e) => {
                assert(spec_socket_data(all[i as int]) is None);
                assert(!sockets_readable(all));
                return Err(e);
            },
        }
        i = i + 1;
    }
    assert(sockets_readable(all));
    assert(is_rekeyed_sockets(all, out@));
    Ok(out)
}

/// Whether every socket of the ship element `ship` can be read: it has a
/// `SocketMap` child, and the component data of each of its sockets reads.
pub open spec fn ship_sockets_readable(ship: Element) -> bool {
    &&& has_named(ship.children.nodes@, "SocketMap"@)
    &&& sockets_readable(first_child(ship, "SocketMap"@).children.nodes@)
}

/// Whether `after` is the ship element `before` with fresh keys for the
/// magazines of every socket under its first `SocketMap` child, and nothing
/// else changed.
pub open spec fn is_rekeyed_ship(before: Element, after: Element) -> bool {
    let nodes = before.children.nodes@;
    let i = first_child_index(before, "SocketMap"@);
    let map = first_child(before, "SocketMap"@);
    &&& after.name == before.name
    &&& after.attributes == before.attributes
    &&& after.children.nodes@.len() == nodes.len()
    &&& forall|k: int| 0 <= k < nodes.len() && k != i ==> after.children.nodes@[k] == #[trigger] nodes[k]
    &&& after.children.nodes@[i] is Element
    &&& after.children.nodes@[i]->Element_0.name == map.name
    &&& after.children.nodes@[i]->Element_0.attributes == map.attributes
    &&& is_rekeyed_sockets(map.children.nodes@, after.children.nodes@[i]->Element_0.children.nodes@)
}

/// The ship element `ship` with fresh magazine keys drawn from `rng`.
fn rekey_ship(ship: Element, rng: &mut Xoroshiro128StarStar) -> (r: Result<Element, FormatError>)
    requires
        has_named(ship.children.nodes@, "SocketMap"@),
    ensures
        ship_sockets_readable(ship) <==> r is Ok,
        r matches Ok(after) ==> is_rekeyed_ship(ship, after),
        r matches Ok(after) ==> after.children.nodes@[first_child_index(ship, "SocketMap"@)]->Element_0.name@ == "SocketMap"@,
{
    let ghost whole = ship;
    let Element { name, attributes, children } = ship;
    let mut nodes = children.nodes;
    let i = match child_index(&nodes, "SocketMap") {
        Some(i) => i,
        None => {
            assert(false);
            return Err(FormatError::XmlError(Error::MissingElement("SocketMap".to_owned())));
        },
    };
    proof { lemma_first_named_unique(nodes@, "SocketMap"@, i as int); }
    let ghost before = nodes@;
    let map = match nodes.remove(i) {
        Node::Element(m) => m,
        Node::Text(t) => {
            assert(false);
            return Err(FormatError::XmlError(Error::UnexpectedText(t)));
        },
    };
    let ghost gmap = map;
    let Element { name: map_name, attributes: map_attributes, children: map_children } = map;
    let sockets = match rekey_sockets(map_children.nodes, rng) {
        Ok(s) => s,
        Err(e) => return Err(e),
    };
    let fresh = Element { name: map_name, attributes: map_attributes, children: Nodes { nodes: sockets } };
    nodes.insert(i, Node::Element(fresh));
    let r = Element { name, attributes, children: Nodes { nodes } };
    proof {
        assert forall|k: int| 0 <= k < before.len() && k != i
            implies r.children.nodes@[k] == #[trigger] before[k] by {
            if k < i {
            } else {
            }
        }
        assert(is_rekeyed_ship(whole, r));
    }
    Ok(r)
}

/// Whether `after` is the ship element `before` carrying the hull
/// configuration `config`: it takes the place of the first `HullConfig`
/// child, or where there is none it follows the first `HullType` child; with
/// no configuration, the first `HullConfig` child is taken out.
pub open spec fn is_hull_config_set(before: Element, after: Element, config: Option<Element>) -> bool {
    let nodes = before.children.nodes@;
    &&& after.name == before.name
    &&& after.attributes == before.attributes
    &&& after.children.nodes@ == if has_named(nodes, "HullConfig"@) {
        let i = first_child_index(before, "HullConfig"@);
        match config {
            Some(c) => nodes.update(i, Node::Element(c)),
            None => nodes.remove(i),
        }
    } else {
        match config {
            Some(c) => nodes.insert(first_child_index(before, "HullType"@) + 1, Node::Element(c)),
            None => nodes,
        }
    }
}

/// The ship element `ship` carrying the hull configuration `config`; see
/// [`is_hull_config_set`].
fn set_hull_config(ship: Element, config: Option<Element>) -> (r: Element)
    requires
        has_named(ship.children.nodes@, "HullType"@),
    ensures
        is_hull_config_set(ship, r, config),
{
    let ghost whole = ship;
    let Element { name, attributes, children } = ship;
    let mut nodes = children.nodes;
    match child_index(&nodes, "HullConfig") {
        Some(i) => {
            proof { lemma_first_named_unique(nodes@, "HullConfig"@, i as int); }
            match config {
                Some(c) => {
                    nodes.set(i, Node::Element(c));
                },
                None => {
                    let _ = nodes.remove(i);
                },
            }
        },
        None => {
            match child_index(&nodes, "HullType") {
                Some(t) => {
                    proof { lemma_first_named_unique(nodes@, "HullType"@, t as int); }
                    match config {
                        Some(c) => {
                            assert(t < nodes.len());
                            nodes.insert(t + 1, Node::Element(c));
                        },
                        None => {},
                    }
                },
                None => {
                    assert(false);
                },
            }
        },
    }
    Element { name, attributes, children: Nodes { nodes } }
}

/// Whether `copy` is a duplicate of the ship element `ship` under the key
/// `key` with the hull configuration `config`: its magazines have fresh
/// keys (see [`is_rekeyed_ship`]), its first `Key` child holds `key`, and it
/// carries `config` (see [`is_hull_config_set`]); nothing else differs.
pub open spec fn is_duped_ship(ship: Element, copy: Element, key: Seq<char>, config: Option<Element>) -> bool {
    exists|a: Element, b: Element| #![trigger is_rekeyed_ship(ship, a), is_hull_config_set(b, copy, config)]
        is_rekeyed_ship(ship, a) && is_child_text_set(a, b, "Key"@, key) && is_hull_config_set(b, copy, config)
}

/// Whether the ship element `ship` can be duplicated: it has `Key`,
/// `HullType` and `SocketMap` children, and every socket's component data
/// reads.
pub open spec fn ship_duplicable(ship: Element) -> bool {
    &&& has_named(ship.children.nodes@, "Key"@)
    &&& has_named(ship.children.nodes@, "HullType"@)
    &&& ship_sockets_readable(ship)
}

/// A rekeyed ship keeps every child element whose name is not `SocketMap`.
proof fn lemma_rekeyed_keeps(before: Element, after: Element, name: Seq<char>)
    requires
        has_named(before.children.nodes@, "SocketMap"@),
        is_rekeyed_ship(before, after),
        after.children.nodes@[first_child_index(before, "SocketMap"@)]->Element_0.name@ == "SocketMap"@,
        has_named(before.children.nodes@, name),
        name != "SocketMap"@,
    ensures
        has_named(after.children.nodes@, name),
{
    let k = choose|k: int| 0 <= k < before.children.nodes@.len() && is_named(#[trigger] before.children.nodes@[k], name);
    let i = first_child_index(before, "SocketMap"@);
    if k == i {
        assert(is_named(before.children.nodes@[i], "SocketMap"@));
    } else {
        assert(after.children.nodes@[k] == before.children.nodes@[k]);
    }
    assert(is_named(after.children.nodes@[k], name));
}

/// A copy of the ship element `ship` to stand beside it in a fleet: its
/// magazines get fresh keys drawn from `rng`, its `Key` child holds `key`
/// and it carries the hull configuration `config`; see [`is_duped_ship`].
/// Fails when `ship` lacks a `Key`, `HullType` or `SocketMap` child, or some
/// socket's component data cannot be read.
pub fn dupe_ship(ship: Element, key: String, config: Option<Element>, rng: &mut Xoroshiro128StarStar) -> (r: Result<Element, FormatError>)
    ensures
        ship_duplicable(ship) <==> r is Ok,
        r matches Ok(copy) ==> is_duped_ship(ship, copy, key@, config),
        !has_named(ship.children.nodes@, "Key"@)
            ==> (r matches Err(FormatError::XmlError(Error::MissingElement(n))) && n@ == "Key"@),
        has_named(ship.children.nodes@, "Key"@) && !has_named(ship.children.nodes@, "HullType"@)
            ==> (r matches Err(FormatError::XmlError(Error::MissingElement(n))) && n@ == "HullType"@),
        has_named(ship.children.nodes@, "Key"@) && has_named(ship.children.nodes@, "HullType"@)
            && !has_named(ship.children.nodes@, "SocketMap"@)
            ==> (r matches Err(FormatError::XmlError(Error::MissingElement(n))) && n@ == "SocketMap"@),
{
    if child_index(&ship.children.nodes, "Key").is_none() {
        return Err(FormatError::XmlError(Error::MissingElement("Key".to_owned())));
    }
    if child_index(&ship.children.nodes, "HullType").is_none() {
        return Err(FormatError::XmlError(Error::MissingElement("HullType".to_owned())));
    }
    if child_index(&ship.children.nodes, "SocketMap").is_none() {
        return Err(FormatError::XmlError(Error::MissingElement("SocketMap".to_owned())));
    }
    let ghost whole = ship;
    let mut a = match rekey_ship(ship, rng) {
        Ok(a) => a,
        Err(e) => return Err(e),
    };
    let ghost ga = a;
    proof {
        reveal_strlit("Key");
        reveal_strlit("HullType");
        reveal_strlit("SocketMap");
        assert("Key"@ != "SocketMap"@) by { assert("Key"@.len() != "SocketMap"@.len()); }
        assert("HullType"@ != "SocketMap"@) by { assert("HullType"@.len() != "SocketMap"@.len()); }
        assert("HullType"@ != "Key"@) by { assert("HullType"@.len() != "Key"@.len()); }
        lemma_rekeyed_keeps(whole, ga, "Key"@);
        lemma_rekeyed_keeps(whole, ga, "HullType"@);
    }
    let _ = set_child_text(&mut a, "Key", key);
    let ghost gb = a;
    proof {
        lemma_child_text_set_keeps_others(ga, gb, "Key"@, key@, "HullType"@);
    }
    let copy = set_hull_config(a, config);
    assert(is_rekeyed_ship(whole, ga) && is_child_text_set(ga, gb, "Key"@, key@) && is_hull_config_set(gb, copy, config));
    Ok(copy)
}

/// What the `HullType` child of the ship element `ship` says of its hull
/// configuration: `Some(t)` with the hull's template `t` (see
/// [`HullKey::config_template`]), or `None` where that child is missing,
/// holds an element or names no hull.
pub open spec fn spec_ship_template(ship: Element) -> Option<Option<HullConfigTemplateFull>> {
    match spec_child_text(ship, "HullType"@) {
        Some(t) => match HullKey::spec_from_str(t) {
            Ok(k) => Some(k.spec_config_template()),
            Err(_) => None,
        },
        None => None,
    }
}

/// The template that a hull configuration of the ship element `ship` is
/// drawn from, if its hull has one. Fails when the `HullType` child is
/// missing, holds an element, or names no hull (a `ParseError` holding its
/// text).
pub fn ship_config_template(ship: &Element) -> (r: Result<Option<HullConfigTemplateFull>, FormatError>)
    ensures
        match spec_ship_template(*ship) {
            Some(t) => r == Ok::<Option<HullConfigTemplateFull>, FormatError>(t),
            None => r is Err,
        },
        spec_child_text(*ship, "HullType"@) is Some && HullKey::spec_from_str(spec_child_text(*ship, "HullType"@)->Some_0) is Err
            ==> (r matches Err(FormatError::XmlError(Error::ParseError(s))) && s@ == spec_child_text(*ship, "HullType"@)->Some_0),
        !has_named(ship.children.nodes@, "HullType"@)
            ==> (r matches Err(FormatError::XmlError(Error::MissingElement(n))) && n@ == "HullType"@),
{
    let text = match child_text(ship, "HullType") {
        Ok(t) => t,
        Err(e) => return Err(FormatError::XmlError(e)),
    };
    match HullKey::from_str(text.as_str()) {
        Ok(k) => Ok(k.config_template()),
        Err(_) => Err(FormatError::XmlError(Error::ParseError(text))),
    }
}

/// The ship elements among `nodes`, in order (the text between them is
/// skipped).
pub open spec fn spec_ship_list(nodes: Seq<Node>) -> Seq<Element>
    decreases nodes.len(),
{
    if nodes.len() == 0 {
        Seq::empty()
    } else {
        match nodes.last() {
            Node::Element(e) => spec_ship_list(nodes.drop_last()).push(e),
            Node::Text(_) => spec_ship_list(nodes.drop_last()),
        }
    }
}

/// The ship elements of a prefix of `nodes` come first, in order, among
/// those of all of `nodes`.
pub proof fn lemma_ship_list_prefix(nodes: Seq<Node>, m: int)
    requires
        0 <= m <= nodes.len(),
    ensures
        spec_ship_list(nodes.take(m)).len() <= spec_ship_list(nodes).len(),
        forall|q: int| 0 <= q < spec_ship_list(nodes.take(m)).len()
            ==> #[trigger] spec_ship_list(nodes.take(m))[q] == spec_ship_list(nodes)[q],
    decreases nodes.len(),
{
    if m == nodes.len() {
        assert(nodes.take(m) == nodes);
    } else {
        assert(nodes.take(m) == nodes.drop_last().take(m));
        lemma_ship_list_prefix(nodes.drop_last(), m);
    }
}

/// The ship elements of the first `Ships` child of the fleet element `fleet`.
pub open spec fn fleet_ships(fleet: Element) -> Seq<Element> {
    spec_ship_list(first_child(fleet, "Ships"@).children.nodes@)
}

/// Whether the hull configurations `configs` are drawn for the ships
/// `ships` one by one: a configuration for each ship whose hull has a
/// template, and none for a ship whose hull has none.
pub open spec fn configs_fit(ships: Seq<Element>, configs: Seq<Option<Element>>) -> bool {
    &&& configs.len() == ships.len()
    &&& forall|i: int| 0 <= i < ships.len() ==> (spec_ship_template(#[trigger] ships[i]) matches Some(t)
        ==> (configs[i] is Some <==> t is Some))
}

/// Whether `after` is the fleet element `before` with its ships doubled: the
/// first `Ships` child keeps its nodes as they were and then holds, for each
/// ship `i` in order, a duplicate under the key `keys[i]` with the hull
/// configuration `configs[i]` (see [`is_duped_ship`]); nothing else changes.
pub open spec fn is_ships_doubled(before: Element, after: Element, keys: Seq<String>, configs: Seq<Option<Element>>) -> bool {
    let i = first_child_index(before, "Ships"@);
    let list = first_child(before, "Ships"@);
    let old_nodes = list.children.nodes@;
    let ships = spec_ship_list(old_nodes);
    let new_list = after.children.nodes@[i]->Element_0;
    let new_nodes = new_list.children.nodes@;
    &&& after.name == before.name
    &&& after.attributes == before.attributes
    &&& after.children.nodes@.len() == before.children.nodes@.len()
    &&& forall|k: int| 0 <= k < before.children.nodes@.len() && k != i
        ==> after.children.nodes@[k] == #[trigger] before.children.nodes@[k]
    &&& after.children.nodes@[i] is Element
    &&& new_list.name == list.name
    &&& new_list.attributes == list.attributes
    &&& new_nodes.len() == old_nodes.len() + ships.len()
    &&& forall|k: int| 0 <= k < old_nodes.len() ==> same_node(#[trigger] old_nodes[k], new_nodes[k])
    &&& forall|j: int| 0 <= j < ships.len() ==> {
        &&& (#[trigger] new_nodes[old_nodes.len() + j]) is Element
        &&& is_duped_ship(ships[j], new_nodes[old_nodes.len() + j]->Element_0, keys[j]@, configs[j])
    }
}

/// Every node is the same tree as itself.
pub proof fn lemma_same_node_refl(n: Node)
    ensures
        same_node(n, n),
    decreases n,
{
    match n {
        Node::Text(_) => {},
        Node::Element(e) => {
            lemma_same_element_refl(e);
        },
    }
}

/// Every element is the same tree as itself.
pub proof fn lemma_same_element_refl(e: Element)
    ensures
        same_element(e, e),
    decreases e,
{
    assert forall|i: int| 0 <= i < e.children.nodes@.len() implies same_node(#[trigger] e.children.nodes@[i], e.children.nodes@[i]) by {
        assert(decreases_to!(e => e.children.nodes@[i]));
        lemma_same_node_refl(e.children.nodes@[i]);
    }
}

/// Doubles the ships of the fleet element `fleet`: after the nodes of its
/// first `Ships` child come duplicates of its ships in order, ship `i` under
/// the key `keys[i]` with the hull configuration `configs[i]` and fresh
/// magazine keys drawn from `rng` (see [`is_ships_doubled`]). Returns the
/// number of ships there were. Fails when there is no `Ships` child (the
/// fleet is unchanged), or when some ship cannot be duplicated (see
/// [`ship_duplicable`]; the fleet then holds the same trees as before).
/// The ships are copied as they are written: fields of a ship that this
/// does not touch stay as they were, where reading the ship into values and
/// writing it out again would write them anew, and a ship is refused only
/// for what duplicating it needs.
pub fn double_ships(
    fleet: &mut Element,
    keys: Vec<String>,
    configs: Vec<Option<Element>>,
    rng: &mut Xoroshiro128StarStar,
) -> (r: Result<usize, FormatError>)
    requires
        has_named(old(fleet).children.nodes@, "Ships"@) ==> {
            &&& keys@.len() == fleet_ships(*old(fleet)).len()
            &&& configs_fit(fleet_ships(*old(fleet)), configs@)
        },
    ensures
        r is Ok <==> has_named(old(fleet).children.nodes@, "Ships"@)
            && forall|j: int| 0 <= j < fleet_ships(*old(fleet)).len() ==> ship_duplicable(#[trigger] fleet_ships(*old(fleet))[j]),
        !has_named(old(fleet).children.nodes@, "Ships"@) ==> (r matches Err(FormatError::XmlError(Error::MissingElement(n)))
            && n@ == "Ships"@ && *final(fleet) == *old(fleet)),
        r is Err ==> same_element(*old(fleet), *final(fleet)),
        r matches Ok(n) ==> n == fleet_ships(*old(fleet)).len() && is_ships_doubled(*old(fleet), *final(fleet), keys@, configs@),
{
    let si = match child_index(&fleet.children.nodes, "Ships") {
        Some(si) => si,
        None => {
            proof { lemma_same_element_refl(*fleet); }
            return Err(FormatError::XmlError(Error::MissingElement("Ships".to_owned())));
        },
    };
    proof { lemma_first_named_unique(fleet.children.nodes@, "Ships"@, si as int); }
    let ghost before = *fleet;
    let ghost fleet_nodes = fleet.children.nodes@;
    let list = match fleet.children.nodes.remove(si) {
        Node::Element(l) => l,
        Node::Text(t) => {
            assert(false);
            return Err(FormatError::XmlError(Error::UnexpectedText(t)));
        },
    };
    let Element { name: list_name, attributes: list_attributes, children: list_children } = list;
    let ghost all = list_children.nodes@;
    let ghost ships = spec_ship_list(all);
    let ghost all_keys = keys@;
    let ghost all_configs = configs@;
    assert(ships == fleet_ships(before));
    assert(all_keys.len() == keys.len());
    let mut rest = list_children.nodes;
    let mut keys = keys;
    let mut configs = configs;
    let mut kept: Vec<Node> = Vec::new();
    let mut copies: Vec<Node> = Vec::new();
    let n = rest.len();
    let mut i: usize = 0;
    let mut count: usize = 0;
    while i < n
        invariant
            before == *old(fleet),
            has_named(before.children.nodes@, "Ships"@),
            all_keys.len() <= usize::MAX,
            fleet_nodes == before.children.nodes@,
            si < fleet_nodes.len(),
            si == first_child_index(before, "Ships"@),
            fleet.children.nodes@ == fleet_nodes.remove(si as int),
            fleet.name == before.name,
            fleet.attributes == before.attributes,
            fleet_nodes[si as int] is Element,
            fleet_nodes[si as int]->Element_0.name == list_name,
            fleet_nodes[si as int]->Element_0.attributes == list_attributes,
            fleet_nodes[si as int]->Element_0.children.nodes@ == all,
            n == all.len(),
            i <= n,
            ships == spec_ship_list(all),
            ships == fleet_ships(before),
            all_keys.len() == ships.len(),
            configs_fit(ships, all_configs),
            rest@ == all.subrange(i as int, n as int),
            kept@.len() == i,
            forall|k: int| 0 <= k < i ==> same_node(#[trigger] all[k], kept@[k]),
            count == spec_ship_list(all.take(i as int)).len(),
            count <= ships.len(),
            copies@.len() == count,
            keys@ == all_keys.subrange(count as int, all_keys.len() as int),
            configs@ == all_configs.subrange(count as int, all_configs.len() as int),
            forall|j: int| 0 <= j < count ==> ship_duplicable(#[trigger] ships[j]),
            forall|j: int| 0 <= j < count ==> {
                &&& (#[trigger] copies@[j]) is Element
                &&& is_duped_ship(ships[j], copies@[j]->Element_0, all_keys[j]@, all_configs[j])
            },
        decreases n - i,
    {
        proof {
            assert(all.take(i as int + 1).drop_last() == all.take(i as int));
            lemma_ship_list_prefix(all, i as int + 1);
        }
        let node = rest.remove(0);
        assert(node == all[i as int]);
        match node {
            Node::Text(t) => {
                proof { lemma_same_node_refl(Node::Text(t)); }
                kept.push(Node::Text(t));
            },
            Node::Element(ship) => {
                assert(spec_ship_list(all.take(i as int + 1))[count as int] == ship);
                kept.push(Node::Element(ship.duplicate()));
                let key = keys.remove(0);
                let config = configs.remove(0);
                match dupe_ship(ship, key, config, rng) {
                    Ok(copy) => {
                        copies.push(Node::Element(copy));
                    },
                    Err(e) => {
                        let ghost k_before = kept@;
                        kept.append(&mut rest);
                        let restored = Element {
                            name: list_name,
                            attributes: list_attributes,
                            children: Nodes { nodes: kept },
                        };
                        fleet.children.nodes.insert(si, Node::Element(restored));
                        proof {
                            assert(!ship_duplicable(ships[count as int]));
                            let old_list = fleet_nodes[si as int]->Element_0;
                            assert forall|k: int| 0 <= k < all.len() implies same_node(#[trigger] all[k], restored.children.nodes@[k]) by {
                                if k > i {
                                    assert(restored.children.nodes@[k] == all[k]);
                                    lemma_same_node_refl(all[k]);
                                }
                            }
                            assert(same_nodes(old_list.children, restored.children));
                            assert(same_element(old_list, restored));
                            assert forall|k: int| 0 <= k < fleet_nodes.len() implies same_node(#[trigger] fleet_nodes[k], fleet.children.nodes@[k]) by {
                                if k != si {
                                    assert(fleet.children.nodes@[k] == fleet_nodes[k]);
                                    lemma_same_node_refl(fleet_nodes[k]);
                                }
                            }
                            assert(same_nodes(before.children, fleet.children));
                        }
                        return Err(e);
                    },
                }
                count = count + 1;
            },
        }
        i = i + 1;
    }
    proof {
        assert(all.take(n as int) == all);
    }
    let ghost k_before = kept@;
    kept.append(&mut copies);
    let doubled = Element {
        name: list_name,
        attributes: list_attributes,
        children: Nodes { nodes: kept },
    };
    fleet.children.nodes.insert(si, Node::Element(doubled));
    proof {
        let new_nodes = doubled.children.nodes@;
        assert forall|k: int| 0 <= k < all.len() implies same_node(#[trigger] all[k], new_nodes[k]) by {
            assert(new_nodes[k] == k_before[k]);
        }
        assert forall|k: int| 0 <= k < fleet_nodes.len() && k != si
            implies fleet.children.nodes@[k] == #[trigger] fleet_nodes[k] by {}
        assert(is_ships_doubled(before, *fleet, all_keys, all_configs));
    }
    Ok(count)
}

/// Nodes that are elements at the same places hold as many ship elements.
proof fn lemma_ship_list_len_alike(a: Seq<Node>, b: Seq<Node>)
    requires
        a.len() == b.len(),
        forall|k: int| 0 <= k < a.len() ==> ((#[trigger] a[k]) is Element <==> b[k] is Element),
    ensures
        spec_ship_list(a).len() == spec_ship_list(b).len(),
    decreases a.len(),
{
    if a.len() > 0 {
        assert forall|k: int| 0 <= k < a.drop_last().len()
            implies ((#[trigger] a.drop_last()[k]) is Element <==> b.drop_last()[k] is Element) by {
            assert(a.drop_last()[k] == a[k]);
            assert(b.drop_last()[k] == b[k]);
        }
        lemma_ship_list_len_alike(a.drop_last(), b.drop_last());
        assert(a.last() == a[a.len() - 1]);
        assert(b.last() == b[b.len() - 1]);
    }
}

/// Appending elements adds one ship element each.
proof fn lemma_ship_list_append_elements(a: Seq<Node>, c: Seq<Node>)
    requires
        forall|k: int| 0 <= k < c.len() ==> (#[trigger] c[k]) is Element,
    ensures
        spec_ship_list(a + c).len() == spec_ship_list(a).len() + c.len(),
    decreases c.len(),
{
    if c.len() == 0 {
        assert(a + c == a);
    } else {
        assert((a + c).drop_last() == a + c.drop_last());
        assert((a + c).last() == c[c.len() - 1]);
        assert forall|k: int| 0 <= k < c.drop_last().len() implies (#[trigger] c.drop_last()[k]) is Element by {
            assert(c.drop_last()[k] == c[k]);
        }
        lemma_ship_list_append_elements(a, c.drop_last());
    }
}

/// A fleet whose ships were doubled holds exactly twice as many ships: its
/// first `Ships` child holds the ships it held, and a copy of each.
pub proof fn lemma_doubled_ships_count(before: Element, after: Element, keys: Seq<String>, configs: Seq<Option<Element>>)
    requires
        has_named(before.children.nodes@, "Ships"@),
        is_ships_doubled(before, after, keys, configs),
    ensures
        has_named(after.children.nodes@, "Ships"@),
        fleet_ships(after).len() == 2 * fleet_ships(before).len(),
{
    let nodes = before.children.nodes@;
    let i = first_child_index(before, "Ships"@);
    lemma_first_named_exists_here(nodes, "Ships"@);
    assert(is_first_named(nodes, "Ships"@, i));
    let new_nodes = after.children.nodes@;
    assert forall|j: int| 0 <= j < i implies !is_named(#[trigger] new_nodes[j], "Ships"@) by {
        assert(new_nodes[j] == nodes[j]);
    }
    assert(is_first_named(new_nodes, "Ships"@, i));
    lemma_first_named_unique(new_nodes, "Ships"@, i);
    let old_list = first_child(before, "Ships"@).children.nodes@;
    let new_list = first_child(after, "Ships"@).children.nodes@;
    let n = spec_ship_list(old_list).len();
    let head = new_list.take(old_list.len() as int);
    let copies = new_list.skip(old_list.len() as int);
    assert(new_list == head + copies);
    assert forall|k: int| 0 <= k < old_list.len() implies ((#[trigger] old_list[k]) is Element <==> head[k] is Element) by {
        assert(same_node(old_list[k], new_list[k]));
    }
    lemma_ship_list_len_alike(old_list, head);
    assert forall|k: int| 0 <= k < copies.len() implies (#[trigger] copies[k]) is Element by {
        assert(copies[k] == new_list[old_list.len() + k]);
    }
    lemma_ship_list_append_elements(head, copies);
}

/// Where some element has a name, a first one has it.
proof fn lemma_first_named_exists_here(nodes: Seq<Node>, name: Seq<char>)
    requires
        has_named(nodes, name),
    ensures
        is_first_named(nodes, name, choose|k: int| is_first_named(nodes, name, k)),
{
    let k = choose|k: int| 0 <= k < nodes.len() && is_named(#[trigger] nodes[k], name);
    crate::fleet::lemma_first_named_exists(nodes, name, k);
}

/// The lowercase hexadecimal digit of a value below 16.
pub open spec fn spec_hex_digit(n: u8) -> char {
    if n < 10 {
        ((n as int) + ('0' as int)) as char
    } else {
        ((n as int) - 10 + ('a' as int)) as char
    }
}

/// The 32 lowercase hexadecimal digits of the 16 bytes `b`, most
/// significant first.
pub open spec fn spec_hex(b: Seq<u8>) -> Seq<char> {
    Seq::new(32, |i: int| spec_hex_digit(if i % 2 == 0 { b[i / 2] >> 4u8 } else { b[i / 2] & 15u8 }))
}

/// The text of the UUID with the bytes `b`: its hexadecimal digits in
/// groups of 8, 4, 4, 4 and 12, joined by hyphens.
pub open spec fn spec_uuid_text(b: Seq<u8>) -> Seq<char> {
    let h = spec_hex(b);
    h.subrange(0, 8) + seq!['-'] + h.subrange(8, 12) + seq!['-'] + h.subrange(12, 16) + seq!['-']
        + h.subrange(16, 20) + seq!['-'] + h.subrange(20, 32)
}

/// The bytes `b` marked as a random (version 4) UUID of the RFC 4122
/// variant: the high half of byte 6 is 4, the two high bits of byte 8 are
/// `10`.
pub open spec fn spec_v4_bytes(b: Seq<u8>) -> Seq<u8> {
    b.update(6, (b[6] & 0x0fu8) | 0x40u8).update(8, (b[8] & 0x3fu8) | 0x80u8)
}

/// `uuid::Builder::from_random_bytes`, then `Uuid::to_string`: the
/// builder marks the bytes as a random UUID of the RFC 4122 variant, and
/// the text is the hyphenated lowercase form.
#[verifier::external_body]
fn uuid_v4_text(bytes: [u8; 16]) -> (r: String)
    ensures
        r@ == spec_uuid_text(spec_v4_bytes(bytes@)),
{
    uuid::Builder::from_random_bytes(bytes).into_uuid().to_string()
}

/// The key of a ship made from the random bytes `bytes`: the text of the
/// random UUID they make.
pub fn ship_key_from_bytes(bytes: [u8; 16]) -> (r: String)
    ensures
        r@ == spec_uuid_text(spec_v4_bytes(bytes@)),
{
    uuid_v4_text(bytes)
}

/// A fresh ship key drawn from `rng`: the text of a random UUID.
pub fn random_ship_key(rng: &mut Xoroshiro128StarStar) -> (r: String)
    ensures
        exists|b: Seq<u8>| b.len() == 16 && r@ == spec_uuid_text(spec_v4_bytes(b)),
{
    let bytes = random_bytes(rng);
    let r = ship_key_from_bytes(bytes);
    assert(bytes@.len() == 16 && r@ == spec_uuid_text(spec_v4_bytes(bytes@)));
    r
}

} // verus!
