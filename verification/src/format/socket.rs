use vstd::prelude::*;
use crate::xml::{Node, Element, Nodes, Error, spec_find_elements, names_view, lemma_find_elements_len};
use crate::format::{ComponentData, FormatError};
use crate::format::codec::{ComponentDataView, component_data_view, spec_component_data_from_element,
    is_component_data_element, spec_field_text, is_text_element, text_element, field_text,
    lemma_component_data_round_trip};
use crate::format::key::{Key, spec_decode, spec_encode, lemma_key_text_round_trip};
use crate::format::missile::{lemma_find_fields_at, lemma_text_field};
use crate::data::components::{ComponentKey, lemma_component_key_round_trip};

verus! {

/// A socket of a saved ship: its key, the component in it, and that
/// component's saved data, if any.
#[derive(Debug, PartialEq, Eq)]
pub struct HullSocket {
    pub key: Key,
    pub component_name: ComponentKey,
    pub component_data: Option<ComponentData>,
}

/// A ship's socket as plain values.
pub open spec fn hull_socket_view(s: HullSocket) -> (u128, ComponentKey, Option<ComponentDataView>) {
    (s.key@, s.component_name, match s.component_data {
        Some(d) => Some(component_data_view(d)),
        None => None,
    })
}

/// The names of the fields of a ship's socket.
pub open spec fn socket_field_names() -> Seq<Seq<char>> {
    seq!["Key"@, "ComponentName"@, "ComponentData"@]
}

/// What a ship's socket element reads as: its key and component name, each
/// a field holding their text, and its optional component data; no field
/// given twice.
pub open spec fn spec_hull_socket_from_element(e: Element) -> Option<(u128, ComponentKey, Option<ComponentDataView>)> {
    match spec_find_elements(e.children.nodes@, socket_field_names()) {
        Err(_) => None,
        Ok(sl) => {
            let key = match spec_field_text(sl[0]) {
                Some(t) => spec_decode(t),
                None => None,
            };
            let name = match spec_field_text(sl[1]) {
                Some(t) => match ComponentKey::spec_from_str(t) {
                    Ok(k) => Some(k),
                    Err(_) => None,
                },
                None => None,
            };
            let data = match sl[2] {
                None => Some(None),
                Some(d) => match spec_component_data_from_element(d) {
                    Some(v) => Some(Some(v)),
                    None => None,
                },
            };
            match (key, name, data) {
                (Some(k), Some(n), Some(d)) => Some((k, n, d)),
                _ => None,
            }
        },
    }
}

/// Whether `e` is the `HullSocket` element a socket with the plain values
/// `v` is saved as.
pub open spec fn is_hull_socket_element(e: Element, v: (u128, ComponentKey, Option<ComponentDataView>)) -> bool {
    let c = e.children.nodes@;
    &&& e.name@ == "HullSocket"@
    &&& e.attributes.list@.len() == 0
    &&& c.len() == if v.2 is Some { 3int } else { 2int }
    &&& is_text_element(c[0], "Key"@, spec_encode(v.0))
    &&& is_text_element(c[1], "ComponentName"@, v.1.spec_save_key())
    &&& (v.2 matches Some(d) ==> c[2] is Element && is_component_data_element(c[2]->Element_0, d))
}

impl HullSocket {
    /// The `HullSocket` element this socket is saved as.
    pub fn serialize_element(self) -> (r: Element)
        ensures
            is_hull_socket_element(r, hull_socket_view(self)),
    {
        let HullSocket { key, component_name, component_data } = self;
        let key = text_element("Key", key.to_str());
        let name = text_element("ComponentName", component_name.save_key().to_owned());
        let nodes = match component_data {
            Some(d) => vec![key, name, Node::Element(d.serialize_element())],
            None => vec![key, name],
        };
        Element::new("HullSocket".to_owned(), Nodes { nodes })
    }

    /// Reads a socket from its element; see
    /// [`spec_hull_socket_from_element`].
    pub fn deserialize_element(element: Element) -> (r: Result<HullSocket, FormatError>)
        ensures
            match spec_hull_socket_from_element(element) {
                Some(v) => r matches Ok(s) && hull_socket_view(s) == v,
                None => r is Err,
            },
    {
        let names: [&str; 3] = ["Key", "ComponentName", "ComponentData"];
        proof {
            assert(names_view(names@) == socket_field_names());
            lemma_find_elements_len(element.children.nodes@, socket_field_names());
        }
        let mut sl = match element.children.find_elements(names.as_slice()) {
            Ok(s) => s,
            Err(e) => return Err(FormatError::XmlError(e)),
        };
        let ghost g = sl@;
        let data = sl.pop().unwrap();
        let name = sl.pop().unwrap();
        let key = sl.pop().unwrap();
        assert(key == g[0] && name == g[1] && data == g[2]);
        let key_text = match field_text(key, "Key") {
            Ok(t) => t,
            Err(e) => return Err(FormatError::XmlError(e)),
        };
        let key = match Key::from_str(key_text.as_str()) {
            Some(k) => k,
            None => return Err(FormatError::XmlError(Error::ParseError(key_text))),
        };
        let name_text = match field_text(name, "ComponentName") {
            Ok(t) => t,
            Err(e) => return Err(FormatError::XmlError(e)),
        };
        let component_name = match ComponentKey::from_str(name_text.as_str()) {
            Ok(k) => k,
            Err(_) => return Err(FormatError::XmlError(Error::ParseError(name_text))),
        };
        let component_data = match data {
            None => None,
            Some(d) => Some(ComponentData::deserialize_element(d)?),
        };
        Ok(HullSocket { key, component_name, component_data })
    }
}

/// A socket read back from the element it is saved as has its values.
pub proof fn lemma_hull_socket_round_trip(e: Element, v: (u128, ComponentKey, Option<ComponentDataView>))
    requires
        is_hull_socket_element(e, v),
    ensures
        spec_hull_socket_from_element(e) == Some(v),
{
    let nodes = e.children.nodes@;
    let names = socket_field_names();
    reveal_strlit("Key");
    reveal_strlit("ComponentName");
    reveal_strlit("ComponentData");
    assert(names.no_duplicates()) by {
        assert("Key"@.len() != "ComponentName"@.len());
        assert("Key"@.len() != "ComponentData"@.len());
        assert("ComponentName"@[9] != "ComponentData"@[9]);
    }
    let pos: Seq<int> = if v.2 is Some { seq![0int, 1, 2] } else { seq![0int, 1] };
    lemma_find_fields_at(nodes, names, pos);
    let sl = spec_find_elements(nodes, names)->Ok_0;
    assert(sl[pos[0]] == Some(nodes[0]->Element_0));
    assert(sl[pos[1]] == Some(nodes[1]->Element_0));
    lemma_text_field(nodes[0], "Key"@, spec_encode(v.0));
    lemma_text_field(nodes[1], "ComponentName"@, v.1.spec_save_key());
    lemma_key_text_round_trip(v.0);
    lemma_component_key_round_trip(v.1);
    match v.2 {
        Some(d) => {
            assert(sl[pos[2]] == Some(nodes[2]->Element_0));
            lemma_component_data_round_trip(nodes[2]->Element_0, d);
        },
        None => {
            assert(!pos.contains(2));
        },
    }
}

} // verus!
