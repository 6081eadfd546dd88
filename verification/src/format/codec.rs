use vstd::prelude::*;
use crate::xml::{Node, Element, Nodes, Attributes, Error, has_element, spec_concat_texts, spec_find_elements,
    names_view, lemma_find_elements_len};
use crate::format::{FormatError, MagazineSaveData, WeaponGroup, Vector2, ComponentData, DefensiveDoctrine, DefensiveTargetType, SizeOrdering, MissileSizeMask,
    lemma_missile_size_mask_round_trip, lemma_defensive_target_type_round_trip, lemma_size_ordering_round_trip};
use crate::format::key::{Key, spec_decode, spec_encode, lemma_key_text_round_trip};
use crate::text::{parse_usize, spec_parse_usize, spec_decimal, usize_to_decimal, lemma_parse_decimal_round_trip};

verus! {

/// The text of `nodes` when they hold no element.
pub open spec fn spec_text(nodes: Seq<Node>) -> Option<Seq<char>> {
    if has_element(nodes) {
        None
    } else {
        Some(spec_concat_texts(nodes))
    }
}

/// The text held by a field element, when it is there and holds only text.
pub open spec fn spec_field_text(slot: Option<Element>) -> Option<Seq<char>> {
    match slot {
        Some(e) => spec_text(e.children.nodes@),
        None => None,
    }
}

/// Whether `n` is an element named `name`, without attributes, holding the
/// single text `text`.
pub open spec fn is_text_element(n: Node, name: Seq<char>, text: Seq<char>) -> bool {
    &&& n matches Node::Element(e)
    &&& n->Element_0.name@ == name
    &&& n->Element_0.attributes.list@.len() == 0
    &&& n->Element_0.children.nodes@.len() == 1
    &&& n->Element_0.children.nodes@[0] matches Node::Text(t)
    &&& n->Element_0.children.nodes@[0]->Text_0@ == text
}

/// The element named `name` holding the single text `text`.
pub fn text_element(name: &str, text: String) -> (r: Node)
    ensures
        is_text_element(r, name@, text@),
{
    Node::Element(Element::new(name.to_owned(), Nodes::new_text(text)))
}

/// The text of a single text node.
pub proof fn lemma_single_text(nodes: Seq<Node>, t: String)
    requires
        nodes.len() == 1,
        nodes[0] == Node::Text(t),
    ensures
        spec_text(nodes) == Some(t@),
{
    assert(!has_element(nodes));
    assert(nodes.drop_last() == Seq::<Node>::empty());
    assert(spec_concat_texts(nodes.drop_last()) == Seq::<char>::empty());
    assert(Seq::<char>::empty() + t@ == t@);
}

/// Whether `x` is the first element among `nodes`.
pub open spec fn is_first_element(nodes: Seq<Node>, x: Element) -> bool {
    exists|i: int| 0 <= i < nodes.len() && nodes[i] is Element && nodes[i]->Element_0 == x
        && forall|j: int| 0 <= j < i ==> !(#[trigger] nodes[j] is Element)
}

/// The text held by the field element in `slot`; an absent field is the
/// error `MissingElement(name)`, a field holding an element is
/// `UnexpectedElementExpectedText`.
pub(crate) fn field_text(slot: Option<Element>, name: &str) -> (r: Result<String, Error>)
    ensures
        match spec_field_text(slot) {
            Some(t) => r matches Ok(s) && s@ == t,
            None => r is Err,
        },
        slot is None ==> (r matches Err(Error::MissingElement(n)) && n@ == name@),
        slot is Some && spec_field_text(slot) is None ==> (r matches Err(Error::UnexpectedElementExpectedText(x))
            && is_first_element(slot->Some_0.children.nodes@, x)),
{
    match slot {
        Some(e) => match e.children.try_into_text() {
            Ok(text) => Ok(text),
            Err(inner) => Err(Error::UnexpectedElementExpectedText(inner)),
        },
        None => Err(Error::MissingElement(name.to_owned())),
    }
}

/// The names of the fields of a saved magazine.
pub open spec fn magazine_field_names() -> Seq<Seq<char>> {
    seq!["MagazineKey"@, "MunitionKey"@, "Quantity"@]
}

/// What a `MagSaveData` element reads as: the magazine key, the munition key
/// and the quantity, when the element is so named, no field appears twice,
/// and each field is there holding text that reads as its value.
pub open spec fn spec_magazine_from_element(e: Element) -> Option<(u128, Seq<char>, usize)> {
    if e.name@ != "MagSaveData"@ {
        None
    } else {
        match spec_find_elements(e.children.nodes@, magazine_field_names()) {
            Err(_) => None,
            Ok(slots) => match (spec_field_text(slots[0]), spec_field_text(slots[1]), spec_field_text(slots[2])) {
                (Some(k), Some(m), Some(q)) => match (spec_decode(k), spec_parse_usize(q)) {
                    (Some(kv), Some(qv)) => Some((kv, m, qv)),
                    _ => None,
                },
                _ => None,
            },
        }
    }
}

/// Whether `e` is the element that a magazine with these values is saved as.
pub open spec fn is_magazine_element(e: Element, key: u128, munition: Seq<char>, quantity: usize) -> bool {
    &&& e.name@ == "MagSaveData"@
    &&& e.attributes.list@.len() == 0
    &&& e.children.nodes@.len() == 3
    &&& is_text_element(e.children.nodes@[0], "MagazineKey"@, spec_encode(key))
    &&& is_text_element(e.children.nodes@[1], "MunitionKey"@, munition)
    &&& is_text_element(e.children.nodes@[2], "Quantity"@, spec_decimal(quantity as nat))
}

fn take_slots3(slots: Vec<Option<Element>>) -> (r: (Option<Element>, Option<Element>, Option<Element>))
    requires
        slots@.len() == 3,
    ensures
        r == (slots@[0], slots@[1], slots@[2]),
{
    let mut slots = slots;
    let ghost s = slots@;
    let c = slots.pop().unwrap();
    let b = slots.pop().unwrap();
    let a = slots.pop().unwrap();
    (a, b, c)
}

impl MagazineSaveData {
    /// The `MagSaveData` element this magazine is saved as.
    pub fn serialize_element(self) -> (r: Element)
        ensures
            is_magazine_element(r, self.magazine_key@, self.munition_key@, self.quantity),
    {
        let key = text_element("MagazineKey", self.magazine_key.to_str());
        let munition = text_element("MunitionKey", self.munition_key);
        let quantity = text_element("Quantity", usize_to_decimal(self.quantity));
        Element::new("MagSaveData".to_owned(), Nodes { nodes: vec![key, munition, quantity] })
    }

    /// Reads a magazine from its `MagSaveData` element; see
    /// [`spec_magazine_from_element`].
    pub fn deserialize_element(element: Element) -> (r: Result<MagazineSaveData, FormatError>)
        ensures
            match spec_magazine_from_element(element) {
                Some((k, m, q)) => r matches Ok(d) && d.magazine_key@ == k && d.munition_key@ == m && d.quantity == q,
                None => r is Err,
            },
    {
        if let Err(e) = element.expect_named("MagSaveData") {
            return Err(FormatError::XmlError(e));
        }
        let ghost nodes = element.children.nodes@;
        let names: [&str; 3] = ["MagazineKey", "MunitionKey", "Quantity"];
        proof {
            assert(names_view(names@) == magazine_field_names());
            lemma_find_elements_len(nodes, magazine_field_names());
        }
        let slots = match element.children.find_elements(names.as_slice()) {
            Ok(slots) => slots,
            Err(e) => return Err(FormatError::XmlError(e)),
        };
        let (key, munition, quantity) = take_slots3(slots);
        let key_text = match field_text(key, "MagazineKey") {
            Ok(t) => t,
            Err(e) => return Err(FormatError::XmlError(e)),
        };
        let magazine_key = match Key::from_str(key_text.as_str()) {
            Some(k) => k,
            None => return Err(FormatError::XmlError(Error::ParseError(key_text))),
        };
        let munition_key = match field_text(munition, "MunitionKey") {
            Ok(t) => t,
            Err(e) => return Err(FormatError::XmlError(e)),
        };
        let quantity_text = match field_text(quantity, "Quantity") {
            Ok(t) => t,
            Err(e) => return Err(FormatError::XmlError(e)),
        };
        let quantity = match parse_usize(quantity_text.as_str()) {
            Some(q) => q,
            None => return Err(FormatError::XmlError(Error::ParseError(quantity_text))),
        };
        Ok(MagazineSaveData { magazine_key, munition_key, quantity })
    }
}

} // verus!

verus! {

/// In a list without repeats, each name is found at its own position.
pub proof fn lemma_name_index_of_distinct(names: Seq<Seq<char>>, i: int)
    requires
        names.no_duplicates(),
        0 <= i < names.len(),
    ensures
        crate::xml::spec_name_index(names, names[i]) == i,
    decreases names.len(),
{
    if i > 0 {
        assert(names[0] != names[i]);
        assert(names.drop_first().no_duplicates());
        assert(names.drop_first()[i - 1] == names[i]);
        lemma_name_index_of_distinct(names.drop_first(), i - 1);
    }
}

/// The slots after reading the first `k` of the elements `nodes`, which carry
/// the distinct `names` in order.
pub open spec fn slots_after(nodes: Seq<Node>, k: int) -> Seq<Option<Element>> {
    Seq::new(nodes.len(), |i: int| if i < k { Some(nodes[i]->Element_0) } else { None })
}

/// Elements that carry distinct names, one each in the order of the names,
/// fill every slot with no duplicate.
pub proof fn lemma_find_fields_in_order(nodes: Seq<Node>, names: Seq<Seq<char>>, k: int)
    requires
        nodes.len() == names.len(),
        names.no_duplicates(),
        forall|i: int| 0 <= i < nodes.len() ==> (#[trigger] nodes[i]) is Element && nodes[i]->Element_0.name@ == names[i],
        0 <= k <= nodes.len(),
    ensures
        spec_find_elements(nodes.take(k), names) == Ok::<Seq<Option<Element>>, Element>(slots_after(nodes, k)),
    decreases k,
{
    if k == 0 {
        assert(nodes.take(0) == Seq::<Node>::empty());
        assert(slots_after(nodes, 0) == Seq::new(names.len(), |i: int| None::<Element>));
    } else {
        lemma_find_fields_in_order(nodes, names, k - 1);
        assert(nodes.take(k).drop_last() == nodes.take(k - 1));
        assert(nodes.take(k).last() == nodes[k - 1]);
        lemma_name_index_of_distinct(names, k - 1);
        assert(slots_after(nodes, k - 1).update(k - 1, Some(nodes[k - 1]->Element_0)) == slots_after(nodes, k));
    }
}

/// A magazine read back from the element it is saved as has its values.
pub proof fn lemma_magazine_round_trip(e: Element, key: u128, munition: Seq<char>, quantity: usize)
    requires
        is_magazine_element(e, key, munition, quantity),
    ensures
        spec_magazine_from_element(e) == Some((key, munition, quantity)),
{
    let nodes = e.children.nodes@;
    let names = magazine_field_names();
    reveal_strlit("MagazineKey");
    reveal_strlit("MunitionKey");
    reveal_strlit("Quantity");
    assert("MagazineKey"@[1] != "MunitionKey"@[1]);
    assert("MagazineKey"@.len() != "Quantity"@.len());
    assert("MunitionKey"@.len() != "Quantity"@.len());
    assert(names.no_duplicates());
    lemma_find_fields_in_order(nodes, names, 3);
    assert(nodes.take(3) == nodes);
    let slots = slots_after(nodes, 3);
    lemma_single_text(nodes[0]->Element_0.children.nodes@, nodes[0]->Element_0.children.nodes@[0]->Text_0);
    lemma_single_text(nodes[1]->Element_0.children.nodes@, nodes[1]->Element_0.children.nodes@[0]->Text_0);
    lemma_single_text(nodes[2]->Element_0.children.nodes@, nodes[2]->Element_0.children.nodes@[0]->Text_0);
    assert(spec_field_text(slots[0]) == Some(spec_encode(key)));
    assert(spec_field_text(slots[1]) == Some(munition));
    assert(spec_field_text(slots[2]) == Some(spec_decimal(quantity as nat)));
    lemma_key_text_round_trip(key);
    lemma_parse_decimal_round_trip(quantity);
}

} // verus!

verus! {

/// What `bool::from_str` accepts: `true` or `false`.
pub open spec fn spec_parse_bool(s: Seq<char>) -> Option<bool> {
    if s == "true"@ {
        Some(true)
    } else if s == "false"@ {
        Some(false)
    } else {
        None
    }
}

/// The text `bool::to_string` writes.
pub open spec fn spec_bool_text(b: bool) -> Seq<char> {
    if b { "true"@ } else { "false"@ }
}

/// Reads `true` or `false`.
pub fn parse_bool(s: &str) -> (r: Option<bool>)
    ensures
        r == spec_parse_bool(s@),
{
    if crate::text::str_eq(s, "true") {
        Some(true)
    } else if crate::text::str_eq(s, "false") {
        Some(false)
    } else {
        None
    }
}

/// Writes `true` or `false`.
pub fn bool_text(b: bool) -> (r: String)
    ensures
        r@ == spec_bool_text(b),
{
    if b { "true".to_owned() } else { "false".to_owned() }
}

/// What `u8::from_str` accepts: what `usize::from_str` accepts, up to 255.
pub open spec fn spec_parse_u8(s: Seq<char>) -> Option<u8> {
    match spec_parse_usize(s) {
        Some(n) => if n <= 255 { Some(n as u8) } else { None },
        None => None,
    }
}

/// Reads a `u8` written in decimal.
pub fn parse_u8(s: &str) -> (r: Option<u8>)
    ensures
        r == spec_parse_u8(s@),
{
    match parse_usize(s) {
        Some(n) => if n <= 255 { Some(n as u8) } else { None },
        None => None,
    }
}

/// The names of the fields of a defensive doctrine.
pub open spec fn doctrine_field_names() -> Seq<Seq<char>> {
    seq!["TargetSizeMask"@, "TargetType"@, "TargetSizeOrdering"@, "SalvoSize"@, "FarthestFirst"@]
}

/// What a `DefensiveDoctrine` element reads as, when the element is so named,
/// no field appears twice, and every field but the optional target type (all
/// types when it is absent) is there holding text that reads as its value.
pub open spec fn spec_doctrine_from_element(e: Element) -> Option<DefensiveDoctrine> {
    if e.name@ != "DefensiveDoctrine"@ {
        None
    } else {
        match spec_find_elements(e.children.nodes@, doctrine_field_names()) {
            Err(_) => None,
            Ok(slots) => {
                let mask = match spec_field_text(slots[0]) {
                    Some(t) => spec_parse_u8(t),
                    None => None,
                };
                let target_type = match slots[1] {
                    None => Some(DefensiveTargetType::All),
                    Some(_) => match spec_field_text(slots[1]) {
                        Some(t) => match DefensiveTargetType::spec_from_str(t) {
                            Ok(v) => Some(v),
                            Err(_) => None,
                        },
                        None => None,
                    },
                };
                let ordering = match spec_field_text(slots[2]) {
                    Some(t) => match SizeOrdering::spec_from_str(t) {
                        Ok(v) => Some(v),
                        Err(_) => None,
                    },
                    None => None,
                };
                let salvo = match spec_field_text(slots[3]) {
                    Some(t) => spec_parse_usize(t),
                    None => None,
                };
                let farthest = match spec_field_text(slots[4]) {
                    Some(t) => spec_parse_bool(t),
                    None => None,
                };
                match (mask, target_type, ordering, salvo, farthest) {
                    (Some(m), Some(tt), Some(o), Some(s), Some(f)) => Some(DefensiveDoctrine {
                        target_size_mask: MissileSizeMask::spec_from_u8(m),
                        target_type: tt,
                        target_size_ordering: o,
                        salvo_size: s,
                        farthest_first: f,
                    }),
                    _ => None,
                }
            },
        }
    }
}

/// Whether `e` is the element that `d` is saved as.
pub open spec fn is_doctrine_element(e: Element, d: DefensiveDoctrine) -> bool {
    &&& e.name@ == "DefensiveDoctrine"@
    &&& e.attributes.list@.len() == 0
    &&& e.children.nodes@.len() == 5
    &&& is_text_element(e.children.nodes@[0], "TargetSizeMask"@, spec_decimal(d.target_size_mask.spec_to_u8() as nat))
    &&& is_text_element(e.children.nodes@[1], "TargetType"@, d.target_type.spec_to_str())
    &&& is_text_element(e.children.nodes@[2], "TargetSizeOrdering"@, d.target_size_ordering.spec_to_str())
    &&& is_text_element(e.children.nodes@[3], "SalvoSize"@, spec_decimal(d.salvo_size as nat))
    &&& is_text_element(e.children.nodes@[4], "FarthestFirst"@, spec_bool_text(d.farthest_first))
}

fn take_slots5(slots: Vec<Option<Element>>) -> (r: (Option<Element>, Option<Element>, Option<Element>, Option<Element>, Option<Element>))
    requires
        slots@.len() == 5,
    ensures
        r == (slots@[0], slots@[1], slots@[2], slots@[3], slots@[4]),
{
    let mut slots = slots;
    let e = slots.pop().unwrap();
    let d = slots.pop().unwrap();
    let c = slots.pop().unwrap();
    let b = slots.pop().unwrap();
    let a = slots.pop().unwrap();
    (a, b, c, d, e)
}

impl DefensiveDoctrine {
    /// The `DefensiveDoctrine` element these settings are saved as.
    pub fn serialize_element(self) -> (r: Element)
        ensures
            is_doctrine_element(r, self),
    {
        let mask = text_element("TargetSizeMask", usize_to_decimal(self.target_size_mask.to_u8() as usize));
        let target_type = text_element("TargetType", self.target_type.to_str().to_owned());
        let ordering = text_element("TargetSizeOrdering", self.target_size_ordering.to_str().to_owned());
        let salvo = text_element("SalvoSize", usize_to_decimal(self.salvo_size));
        let farthest = text_element("FarthestFirst", bool_text(self.farthest_first));
        Element::new("DefensiveDoctrine".to_owned(), Nodes { nodes: vec![mask, target_type, ordering, salvo, farthest] })
    }

    /// Reads settings from their `DefensiveDoctrine` element; see
    /// [`spec_doctrine_from_element`].
    pub fn deserialize_element(element: Element) -> (r: Result<DefensiveDoctrine, FormatError>)
        ensures
            match spec_doctrine_from_element(element) {
                Some(d) => r == Ok::<DefensiveDoctrine, FormatError>(d),
                None => r is Err,
            },
    {
        if let Err(e) = element.expect_named("DefensiveDoctrine") {
            return Err(FormatError::XmlError(e));
        }
        let ghost nodes = element.children.nodes@;
        let names: [&str; 5] = ["TargetSizeMask", "TargetType", "TargetSizeOrdering", "SalvoSize", "FarthestFirst"];
        proof {
            assert(names_view(names@) == doctrine_field_names());
            lemma_find_elements_len(nodes, doctrine_field_names());
        }
        let slots = match element.children.find_elements(names.as_slice()) {
            Ok(slots) => slots,
            Err(e) => return Err(FormatError::XmlError(e)),
        };
        let (mask, target_type, ordering, salvo, farthest) = take_slots5(slots);
        let mask_text = match field_text(mask, "TargetSizeMask") {
            Ok(t) => t,
            Err(e) => return Err(FormatError::XmlError(e)),
        };
        let mask = match parse_u8(mask_text.as_str()) {
            Some(b) => MissileSizeMask::from_u8(b),
            None => return Err(FormatError::XmlError(Error::ParseError(mask_text))),
        };
        let target_type = match target_type {
            None => DefensiveTargetType::All,
            Some(e) => {
                let text = match field_text(Some(e), "TargetType") {
                    Ok(t) => t,
                    Err(e) => return Err(FormatError::XmlError(e)),
                };
                match DefensiveTargetType::from_str(text.as_str()) {
                    Ok(v) => v,
                    Err(_) => return Err(FormatError::XmlError(Error::ParseError(text))),
                }
            },
        };
        let ordering_text = match field_text(ordering, "TargetSizeOrdering") {
            Ok(t) => t,
            Err(e) => return Err(FormatError::XmlError(e)),
        };
        let ordering = match SizeOrdering::from_str(ordering_text.as_str()) {
            Ok(v) => v,
            Err(_) => return Err(FormatError::XmlError(Error::ParseError(ordering_text))),
        };
        let salvo_text = match field_text(salvo, "SalvoSize") {
            Ok(t) => t,
            Err(e) => return Err(FormatError::XmlError(e)),
        };
        let salvo = match parse_usize(salvo_text.as_str()) {
            Some(n) => n,
            None => return Err(FormatError::XmlError(Error::ParseError(salvo_text))),
        };
        let farthest_text = match field_text(farthest, "FarthestFirst") {
            Ok(t) => t,
            Err(e) => return Err(FormatError::XmlError(e)),
        };
        let farthest = match parse_bool(farthest_text.as_str()) {
            Some(b) => b,
            None => return Err(FormatError::XmlError(Error::ParseError(farthest_text))),
        };
        Ok(DefensiveDoctrine {
            target_size_mask: mask,
            target_type,
            target_size_ordering: ordering,
            salvo_size: salvo,
            farthest_first: farthest,
        })
    }
}

/// Settings read back from the element they are saved as are the settings.
pub proof fn lemma_doctrine_round_trip(e: Element, d: DefensiveDoctrine)
    requires
        is_doctrine_element(e, d),
    ensures
        spec_doctrine_from_element(e) == Some(d),
{
    let nodes = e.children.nodes@;
    let names = doctrine_field_names();
    reveal_strlit("TargetSizeMask");
    reveal_strlit("TargetType");
    reveal_strlit("TargetSizeOrdering");
    reveal_strlit("SalvoSize");
    reveal_strlit("FarthestFirst");
    assert("TargetSizeMask"@.len() != "TargetType"@.len());
    assert("TargetSizeMask"@.len() != "TargetSizeOrdering"@.len());
    assert("TargetSizeMask"@.len() != "SalvoSize"@.len());
    assert("TargetSizeMask"@.len() != "FarthestFirst"@.len());
    assert("TargetType"@.len() != "TargetSizeOrdering"@.len());
    assert("TargetType"@[0] != "SalvoSize"@[0]);
    assert("TargetType"@.len() != "FarthestFirst"@.len());
    assert("TargetSizeOrdering"@.len() != "SalvoSize"@.len());
    assert("TargetSizeOrdering"@.len() != "FarthestFirst"@.len());
    assert("SalvoSize"@.len() != "FarthestFirst"@.len());
    assert(names.no_duplicates());
    lemma_find_fields_in_order(nodes, names, 5);
    assert(nodes.take(5) == nodes);
    let slots = slots_after(nodes, 5);
    lemma_single_text(nodes[0]->Element_0.children.nodes@, nodes[0]->Element_0.children.nodes@[0]->Text_0);
    lemma_single_text(nodes[1]->Element_0.children.nodes@, nodes[1]->Element_0.children.nodes@[0]->Text_0);
    lemma_single_text(nodes[2]->Element_0.children.nodes@, nodes[2]->Element_0.children.nodes@[0]->Text_0);
    lemma_single_text(nodes[3]->Element_0.children.nodes@, nodes[3]->Element_0.children.nodes@[0]->Text_0);
    lemma_single_text(nodes[4]->Element_0.children.nodes@, nodes[4]->Element_0.children.nodes@[0]->Text_0);
    assert(spec_field_text(slots[0]) == Some(spec_decimal(d.target_size_mask.spec_to_u8() as nat)));
    assert(spec_field_text(slots[1]) == Some(d.target_type.spec_to_str()));
    assert(spec_field_text(slots[2]) == Some(d.target_size_ordering.spec_to_str()));
    assert(spec_field_text(slots[3]) == Some(spec_decimal(d.salvo_size as nat)));
    assert(spec_field_text(slots[4]) == Some(spec_bool_text(d.farthest_first)));
    lemma_parse_decimal_round_trip(d.target_size_mask.spec_to_u8() as usize);
    lemma_parse_decimal_round_trip(d.salvo_size);
    lemma_missile_size_mask_round_trip(d.target_size_mask);
    lemma_defensive_target_type_round_trip(d.target_type);
    lemma_size_ordering_round_trip(d.target_size_ordering);
    reveal_strlit("true");
    reveal_strlit("false");
}

} // verus!

verus! {

/// Nodes that are all elements read as those elements.
pub proof fn lemma_elements_of_elements(nodes: Seq<Node>)
    requires
        forall|i: int| 0 <= i < nodes.len() ==> #[trigger] nodes[i] is Element,
    ensures
        crate::xml::spec_elements(nodes) == Ok::<Seq<Element>, String>(nodes.map_values(|n: Node| n->Element_0)),
    decreases nodes.len(),
{
    if nodes.len() > 0 {
        assert forall|i: int| 0 <= i < nodes.drop_first().len() implies #[trigger] nodes.drop_first()[i] is Element by {
            assert(nodes.drop_first()[i] == nodes[i + 1]);
        }
        lemma_elements_of_elements(nodes.drop_first());
        assert(seq![nodes[0]->Element_0] + nodes.drop_first().map_values(|n: Node| n->Element_0)
            == nodes.map_values(|n: Node| n->Element_0));
    } else {
        assert(nodes.map_values(|n: Node| n->Element_0) == Seq::<Element>::empty());
    }
}

/// The key an element holding a key's text reads as.
pub open spec fn spec_key_of(e: Element) -> Option<u128> {
    match spec_text(e.children.nodes@) {
        Some(t) => spec_decode(t),
        None => None,
    }
}

/// What a `WepGroup` element reads as: its `Name` attribute (given once) and
/// the keys of the `string` elements of its only child, `MemberKeys`.
pub open spec fn spec_weapon_group_from_element(e: Element) -> Option<(Seq<char>, Seq<u128>)> {
    if e.name@ != "WepGroup"@ {
        None
    } else {
        match crate::xml::spec_find_attributes(e.attributes.list@, seq!["Name"@]) {
            Err(_) => None,
            Ok(slots) => match slots[0] {
                None => None,
                Some(name) => match crate::xml::spec_elements(e.children.nodes@) {
                    Ok(es) => if es.len() == 1 && es[0].name@ == "MemberKeys"@ {
                        match crate::xml::spec_elements(es[0].children.nodes@) {
                            Ok(items) => if forall|i: int| 0 <= i < items.len()
                                ==> (#[trigger] items[i]).name@ == "string"@ && spec_key_of(items[i]) is Some {
                                Some((name@, items.map_values(|it: Element| spec_key_of(it)->Some_0)))
                            } else {
                                None
                            },
                            Err(_) => None,
                        }
                    } else {
                        None
                    },
                    Err(_) => None,
                },
            },
        }
    }
}

/// Whether `e` is the element a weapon group named `name` with members
/// `keys` is saved as.
pub open spec fn is_weapon_group_element(e: Element, name: Seq<char>, keys: Seq<u128>) -> bool {
    &&& e.name@ == "WepGroup"@
    &&& e.attributes.list@.len() == 1
    &&& e.attributes.list@[0].0@ == "Name"@
    &&& e.attributes.list@[0].1@ == name
    &&& e.children.nodes@.len() == 1
    &&& e.children.nodes@[0] is Element
    &&& e.children.nodes@[0]->Element_0.name@ == "MemberKeys"@
    &&& e.children.nodes@[0]->Element_0.children.nodes@.len() == keys.len()
    &&& forall|i: int| 0 <= i < keys.len() ==> is_text_element(
        #[trigger] e.children.nodes@[0]->Element_0.children.nodes@[i], "string"@, spec_encode(keys[i]))
}

impl WeaponGroup {
    /// The `WepGroup` element this group is saved as.
    pub fn serialize_element(self) -> (r: Element)
        ensures
            is_weapon_group_element(r, self.name@, self.members@.map_values(|k: Key| k@)),
    {
        let mut items: Vec<Node> = Vec::new();
        let mut i: usize = 0;
        while i < self.members.len()
            invariant
                i <= self.members@.len(),
                items@.len() == i,
                forall|j: int| 0 <= j < i ==> is_text_element(#[trigger] items@[j], "string"@, spec_encode(self.members@[j]@)),
            decreases self.members.len() - i,
        {
            items.push(text_element("string", self.members[i].to_str()));
            i = i + 1;
        }
        let member_keys = Node::Element(Element::new("MemberKeys".to_owned(), Nodes { nodes: items }));
        let attributes = Attributes { list: vec![("Name".to_owned(), self.name)] };
        Element::with_attributes("WepGroup".to_owned(), attributes, Nodes { nodes: vec![member_keys] })
    }

    /// Reads a group from its `WepGroup` element; see
    /// [`spec_weapon_group_from_element`].
    pub fn deserialize_element(element: Element) -> (r: Result<WeaponGroup, FormatError>)
        ensures
            match spec_weapon_group_from_element(element) {
                Some((name, keys)) => r matches Ok(g) && g.name@ == name && g.members@.map_values(|k: Key| k@) == keys,
                None => r is Err,
            },
    {
        if let Err(e) = element.expect_named("WepGroup") {
            return Err(FormatError::XmlError(e));
        }
        let ghost whole = element;
        let Element { name: _, attributes, children } = element;
        let names: [&str; 1] = ["Name"];
        proof {
            assert(names_view(names@) == seq!["Name"@]);
            crate::xml::lemma_find_attributes_len(attributes.list@, seq!["Name"@]);
        }
        let mut slots = match attributes.find_attributes(names.as_slice()) {
            Ok(slots) => slots,
            Err(e) => return Err(FormatError::XmlError(e)),
        };
        let name = match slots.pop().unwrap() {
            Some(name) => name,
            None => return Err(FormatError::XmlError(Error::MissingAttribute("Name".to_owned()))),
        };
        let member_keys = match children.try_into_one_element() {
            Ok(e) => e,
            Err(e) => return Err(FormatError::XmlError(e)),
        };
        if let Err(e) = member_keys.expect_named("MemberKeys") {
            return Err(FormatError::XmlError(e));
        }
        let items = match member_keys.children.try_into_elements_vec() {
            Ok(items) => items,
            Err(e) => return Err(FormatError::XmlError(e)),
        };
        let ghost all = items@;
        proof {
            assert(crate::xml::spec_elements(whole.children.nodes@) matches Ok(es) && es.len() == 1 && es[0] == member_keys);
        }
        let mut members: Vec<Key> = Vec::new();
        for item in it: items
            invariant
                it.seq() == all,
                spec_weapon_group_from_element(whole) is Some ==> forall|j: int| 0 <= j < all.len()
                    ==> (#[trigger] all[j]).name@ == "string"@ && spec_key_of(all[j]) is Some,
                spec_weapon_group_from_element(whole) is Some ==> spec_weapon_group_from_element(whole) == Some((name@, all.map_values(|it: Element| spec_key_of(it)->Some_0))),
                whole == element,
                members@.len() == it.index(),
                forall|j: int| 0 <= j < it.index() ==> (#[trigger] all[j]).name@ == "string"@ && spec_key_of(all[j]) == Some(members@[j]@),
        {
            if let Err(e) = item.expect_named("string") {
                return Err(FormatError::XmlError(e));
            }
            let text = match item.children.try_into_text() {
                Ok(t) => t,
                Err(inner) => return Err(FormatError::XmlError(Error::UnexpectedElementExpectedText(inner))),
            };
            match Key::from_str(text.as_str()) {
                Some(k) => members.push(k),
                None => return Err(FormatError::XmlError(Error::ParseError(text))),
            }
        }
        proof {
            assert(members@.map_values(|k: Key| k@) == all.map_values(|it: Element| spec_key_of(it)->Some_0));
        }
        Ok(WeaponGroup { name, members })
    }
}

/// A weapon group read back from the element it is saved as has its name and
/// members.
pub proof fn lemma_weapon_group_round_trip(e: Element, name: Seq<char>, keys: Seq<u128>)
    requires
        is_weapon_group_element(e, name, keys),
    ensures
        spec_weapon_group_from_element(e) == Some((name, keys)),
{
    let list = e.attributes.list@;
    assert(list.drop_last() == Seq::<(String, String)>::empty());
    assert(list.last() == list[0]);
    assert(crate::xml::spec_name_index(seq!["Name"@], list[0].0@) == 0);
    let empty_slots = Seq::new(1, |i: int| None::<String>);
    assert(crate::xml::spec_find_attributes(list.drop_last(), seq!["Name"@]) == Ok::<Seq<Option<String>>, (String, String)>(empty_slots));
    assert(crate::xml::spec_find_attributes(list, seq!["Name"@])
        == Ok::<Seq<Option<String>>, (String, String)>(empty_slots.update(0, Some(list[0].1))));
    let mk = e.children.nodes@[0]->Element_0;
    lemma_elements_of_elements(e.children.nodes@);
    let items = mk.children.nodes@;
    assert forall|i: int| 0 <= i < items.len() implies #[trigger] items[i] is Element by {
        assert(is_text_element(items[i], "string"@, spec_encode(keys[i])));
    }
    lemma_elements_of_elements(items);
    let es = items.map_values(|n: Node| n->Element_0);
    assert forall|i: int| 0 <= i < es.len() implies (#[trigger] es[i]).name@ == "string"@ && spec_key_of(es[i]) is Some
        && spec_key_of(es[i]) == Some(keys[i]) by {
        assert(is_text_element(items[i], "string"@, spec_encode(keys[i])));
        lemma_single_text(es[i].children.nodes@, es[i].children.nodes@[0]->Text_0);
        lemma_key_text_round_trip(keys[i]);
    }
    assert(es.map_values(|it: Element| spec_key_of(it)->Some_0) == keys);
}

} // verus!

verus! {

/// A saved magazine as plain values: key, munition, quantity.
pub open spec fn magazine_view(m: MagazineSaveData) -> (u128, Seq<char>, usize) {
    (m.magazine_key@, m.munition_key@, m.quantity)
}

/// What the nodes of a list of magazines read as: the magazines of its
/// elements (whitespace text skipped), when every element reads as one.
pub open spec fn spec_magazines_from_nodes(nodes: Seq<Node>) -> Option<Seq<(u128, Seq<char>, usize)>> {
    match crate::xml::spec_elements(nodes) {
        Ok(es) => if forall|i: int| 0 <= i < es.len() ==> (#[trigger] spec_magazine_from_element(es[i])) is Some {
            Some(es.map_values(|e: Element| spec_magazine_from_element(e)->Some_0))
        } else {
            None
        },
        Err(_) => None,
    }
}

/// Whether `nodes` are the elements a list of magazines is saved as.
pub open spec fn is_magazines_nodes(nodes: Seq<Node>, mags: Seq<(u128, Seq<char>, usize)>) -> bool {
    &&& nodes.len() == mags.len()
    &&& forall|i: int| 0 <= i < nodes.len() ==> (#[trigger] nodes[i]) is Element
        && is_magazine_element(nodes[i]->Element_0, mags[i].0, mags[i].1, mags[i].2)
}

/// The elements a list of magazines is saved as.
pub fn serialize_magazines(load: Vec<MagazineSaveData>) -> (r: Nodes)
    ensures
        is_magazines_nodes(r.nodes@, load@.map_values(|m: MagazineSaveData| magazine_view(m))),
{
    let ghost all = load@;
    let mut nodes: Vec<Node> = Vec::new();
    for m in it: load
        invariant
            it.seq() == all,
            nodes@.len() == it.index(),
            forall|j: int| 0 <= j < it.index() ==> (#[trigger] nodes@[j]) is Element
                && is_magazine_element(nodes@[j]->Element_0, all[j].magazine_key@, all[j].munition_key@, all[j].quantity),
    {
        nodes.push(Node::Element(m.serialize_element()));
    }
    Nodes { nodes }
}

/// Reads a list of magazines; see [`spec_magazines_from_nodes`].
pub fn deserialize_magazines(nodes: Nodes) -> (r: Result<Vec<MagazineSaveData>, FormatError>)
    ensures
        match spec_magazines_from_nodes(nodes.nodes@) {
            Some(mags) => r matches Ok(v) && v@.map_values(|m: MagazineSaveData| magazine_view(m)) == mags,
            None => r is Err,
        },
{
    let ghost whole = nodes.nodes@;
    let elements = match nodes.try_into_elements_vec() {
        Ok(es) => es,
        Err(e) => return Err(FormatError::XmlError(e)),
    };
    let ghost all = elements@;
    let mut out: Vec<MagazineSaveData> = Vec::new();
    for e in it: elements
        invariant
            it.seq() == all,
            crate::xml::spec_elements(whole) == Ok::<Seq<Element>, String>(all),
            whole == nodes.nodes@,
            out@.len() == it.index(),
            forall|j: int| 0 <= j < it.index() ==> spec_magazine_from_element(#[trigger] all[j]) == Some(magazine_view(out@[j])),
    {
        let ghost i = it.index() as int;
        match MagazineSaveData::deserialize_element(e) {
            Ok(m) => out.push(m),
            Err(err) => {
                proof {
                    assert(spec_magazine_from_element(all[i]) is None);
                }
                return Err(err);
            },
        }
    }
    proof {
        assert(out@.map_values(|m: MagazineSaveData| magazine_view(m)) == all.map_values(|e: Element| spec_magazine_from_element(e)->Some_0));
    }
    Ok(out)
}

/// Magazines read back from the elements they are saved as are the magazines.
pub proof fn lemma_magazines_round_trip(nodes: Seq<Node>, mags: Seq<(u128, Seq<char>, usize)>)
    requires
        is_magazines_nodes(nodes, mags),
    ensures
        spec_magazines_from_nodes(nodes) == Some(mags),
{
    lemma_elements_of_elements(nodes);
    let es = nodes.map_values(|n: Node| n->Element_0);
    assert forall|i: int| 0 <= i < es.len() implies (#[trigger] spec_magazine_from_element(es[i])) == Some(mags[i]) by {
        lemma_magazine_round_trip(es[i], mags[i].0, mags[i].1, mags[i].2);
    }
    assert(es.map_values(|e: Element| spec_magazine_from_element(e)->Some_0) == mags);
}

/// What the nodes of a `Vector2<usize>` read as: their `x` and `y` elements,
/// each given once and holding a `usize`.
pub open spec fn spec_vector2_from_nodes(nodes: Seq<Node>) -> Option<(usize, usize)> {
    match spec_find_elements(nodes, seq!["x"@, "y"@]) {
        Err(_) => None,
        Ok(slots) => match (spec_field_text(slots[0]), spec_field_text(slots[1])) {
            (Some(x), Some(y)) => match (spec_parse_usize(x), spec_parse_usize(y)) {
                (Some(xv), Some(yv)) => Some((xv, yv)),
                _ => None,
            },
            _ => None,
        },
    }
}

/// Whether `nodes` are the elements the vector `(x, y)` is saved as.
pub open spec fn is_vector2_nodes(nodes: Seq<Node>, x: usize, y: usize) -> bool {
    &&& nodes.len() == 2
    &&& is_text_element(nodes[0], "x"@, spec_decimal(x as nat))
    &&& is_text_element(nodes[1], "y"@, spec_decimal(y as nat))
}

impl Vector2<usize> {
    /// The `x` and `y` elements this vector is saved as.
    pub fn serialize_nodes(self) -> (r: Nodes)
        ensures
            is_vector2_nodes(r.nodes@, self.x, self.y),
    {
        Nodes { nodes: vec![text_element("x", usize_to_decimal(self.x)), text_element("y", usize_to_decimal(self.y))] }
    }

    /// Reads a vector from its `x` and `y` elements; see
    /// [`spec_vector2_from_nodes`].
    pub fn deserialize_nodes(nodes: Nodes) -> (r: Result<Vector2<usize>, FormatError>)
        ensures
            match spec_vector2_from_nodes(nodes.nodes@) {
                Some((x, y)) => r == Ok::<Vector2<usize>, FormatError>(Vector2 { x, y }),
                None => r is Err,
            },
    {
        let ghost whole = nodes.nodes@;
        let names: [&str; 2] = ["x", "y"];
        proof {
            assert(names_view(names@) == seq!["x"@, "y"@]);
            lemma_find_elements_len(whole, seq!["x"@, "y"@]);
        }
        let mut slots = match nodes.find_elements(names.as_slice()) {
            Ok(slots) => slots,
            Err(e) => return Err(FormatError::XmlError(e)),
        };
        let ys = slots.pop().unwrap();
        let xs = slots.pop().unwrap();
        let x_text = match field_text(xs, "x") {
            Ok(t) => t,
            Err(e) => return Err(FormatError::XmlError(e)),
        };
        let x = match parse_usize(x_text.as_str()) {
            Some(v) => v,
            None => return Err(FormatError::XmlError(Error::ParseError(x_text))),
        };
        let y_text = match field_text(ys, "y") {
            Ok(t) => t,
            Err(e) => return Err(FormatError::XmlError(e)),
        };
        let y = match parse_usize(y_text.as_str()) {
            Some(v) => v,
            None => return Err(FormatError::XmlError(Error::ParseError(y_text))),
        };
        Ok(Vector2 { x, y })
    }
}

/// A vector read back from the elements it is saved as is the vector.
pub proof fn lemma_vector2_round_trip(nodes: Seq<Node>, x: usize, y: usize)
    requires
        is_vector2_nodes(nodes, x, y),
    ensures
        spec_vector2_from_nodes(nodes) == Some((x, y)),
{
    reveal_strlit("x");
    reveal_strlit("y");
    let names = seq!["x"@, "y"@];
    assert("x"@[0] != "y"@[0]);
    assert(names.no_duplicates());
    lemma_find_fields_in_order(nodes, names, 2);
    assert(nodes.take(2) == nodes);
    lemma_single_text(nodes[0]->Element_0.children.nodes@, nodes[0]->Element_0.children.nodes@[0]->Text_0);
    lemma_single_text(nodes[1]->Element_0.children.nodes@, nodes[1]->Element_0.children.nodes@[0]->Text_0);
    lemma_parse_decimal_round_trip(x);
    lemma_parse_decimal_round_trip(y);
}

} // verus!

verus! {

/// Saved component data as plain values.
pub enum ComponentDataView {
    BulkMagazineData(Seq<(u128, Seq<char>, usize)>),
    CellLauncherData(Seq<(u128, Seq<char>, usize)>),
    ResizableCellLauncherData(Seq<(u128, Seq<char>, usize)>, usize, usize),
    DeceptionComponentData(usize),
}

/// Component data as plain values.
pub open spec fn component_data_view(d: ComponentData) -> ComponentDataView {
    match d {
        ComponentData::BulkMagazineData { load } => ComponentDataView::BulkMagazineData(
            load@.map_values(|m: MagazineSaveData| magazine_view(m))),
        ComponentData::CellLauncherData { missile_load } => ComponentDataView::CellLauncherData(
            missile_load@.map_values(|m: MagazineSaveData| magazine_view(m))),
        ComponentData::ResizableCellLauncherData { missile_load, configured_size } => ComponentDataView::ResizableCellLauncherData(
            missile_load@.map_values(|m: MagazineSaveData| magazine_view(m)), configured_size.x, configured_size.y),
        ComponentData::DeceptionComponentData { identity_option } => ComponentDataView::DeceptionComponentData(identity_option),
    }
}

/// The `xsi:type` each kind of component data is saved under.
pub open spec fn component_data_tag(v: ComponentDataView) -> Seq<char> {
    match v {
        ComponentDataView::BulkMagazineData(_) => "BulkMagazineData"@,
        ComponentDataView::CellLauncherData(_) => "CellLauncherData"@,
        ComponentDataView::ResizableCellLauncherData(_, _, _) => "ResizableCellLauncherData"@,
        ComponentDataView::DeceptionComponentData(_) => "DeceptionComponentData"@,
    }
}

/// The field that `names` find in `children`, when the search finds no
/// duplicate; the first slot of the result.
pub open spec fn spec_first_field(children: Seq<Node>, names: Seq<Seq<char>>) -> Option<Option<Element>> {
    match spec_find_elements(children, names) {
        Ok(slots) => Some(slots[0]),
        Err(_) => None,
    }
}

/// What a `ComponentData` element reads as, by its `xsi:type` attribute:
/// magazine loads under `Load` or `MissileLoad`, a size under
/// `ConfiguredSize`, an identity under `IdentityOption`.
pub open spec fn spec_component_data_from_element(e: Element) -> Option<ComponentDataView> {
    if e.name@ != "ComponentData"@ {
        None
    } else {
        match crate::xml::spec_find_attributes(e.attributes.list@, seq!["xsi:type"@]) {
            Err(_) => None,
            Ok(attrs) => match attrs[0] {
                None => None,
                Some(t) => {
                    let children = e.children.nodes@;
                    if t@ == "BulkMagazineData"@ {
                        match spec_first_field(children, seq!["Load"@]) {
                            Some(Some(l)) => match spec_magazines_from_nodes(l.children.nodes@) {
                                Some(m) => Some(ComponentDataView::BulkMagazineData(m)),
                                None => None,
                            },
                            _ => None,
                        }
                    } else if t@ == "CellLauncherData"@ {
                        match spec_first_field(children, seq!["MissileLoad"@]) {
                            Some(Some(l)) => match spec_magazines_from_nodes(l.children.nodes@) {
                                Some(m) => Some(ComponentDataView::CellLauncherData(m)),
                                None => None,
                            },
                            _ => None,
                        }
                    } else if t@ == "ResizableCellLauncherData"@ {
                        match spec_find_elements(children, seq!["MissileLoad"@, "ConfiguredSize"@]) {
                            Ok(slots) => match (slots[0], slots[1]) {
                                (Some(l), Some(s)) => match (spec_magazines_from_nodes(l.children.nodes@),
                                    spec_vector2_from_nodes(s.children.nodes@)) {
                                    (Some(m), Some((x, y))) => Some(ComponentDataView::ResizableCellLauncherData(m, x, y)),
                                    _ => None,
                                },
                                _ => None,
                            },
                            Err(_) => None,
                        }
                    } else if t@ == "DeceptionComponentData"@ {
                        match spec_first_field(children, seq!["IdentityOption"@]) {
                            Some(slot) => match spec_field_text(slot) {
                                Some(text) => match spec_parse_usize(text) {
                                    Some(n) => Some(ComponentDataView::DeceptionComponentData(n)),
                                    None => None,
                                },
                                None => None,
                            },
                            None => None,
                        }
                    } else {
                        None
                    }
                },
            },
        }
    }
}

/// Whether `n` is an element named `name`, without attributes, holding the
/// saved magazines `mags`.
pub open spec fn is_load_element(n: Node, name: Seq<char>, mags: Seq<(u128, Seq<char>, usize)>) -> bool {
    &&& n is Element
    &&& n->Element_0.name@ == name
    &&& is_magazines_nodes(n->Element_0.children.nodes@, mags)
}

/// Whether `e` is the element component data `v` is saved as.
pub open spec fn is_component_data_element(e: Element, v: ComponentDataView) -> bool {
    &&& e.name@ == "ComponentData"@
    &&& e.attributes.list@.len() == 1
    &&& e.attributes.list@[0].0@ == "xsi:type"@
    &&& e.attributes.list@[0].1@ == component_data_tag(v)
    &&& match v {
        ComponentDataView::BulkMagazineData(m) => e.children.nodes@.len() == 1 && is_load_element(e.children.nodes@[0], "Load"@, m),
        ComponentDataView::CellLauncherData(m) => e.children.nodes@.len() == 1 && is_load_element(e.children.nodes@[0], "MissileLoad"@, m),
        ComponentDataView::ResizableCellLauncherData(m, x, y) => e.children.nodes@.len() == 2
            && is_load_element(e.children.nodes@[0], "MissileLoad"@, m)
            && e.children.nodes@[1] is Element
            && e.children.nodes@[1]->Element_0.name@ == "ConfiguredSize"@
            && is_vector2_nodes(e.children.nodes@[1]->Element_0.children.nodes@, x, y),
        ComponentDataView::DeceptionComponentData(n) => e.children.nodes@.len() == 1
            && is_text_element(e.children.nodes@[0], "IdentityOption"@, spec_decimal(n as nat)),
    }
}

impl ComponentData {
    /// The `ComponentData` element this data is saved as.
    pub fn serialize_element(self) -> (r: Element)
        ensures
            is_component_data_element(r, component_data_view(self)),
    {
        let (tag, nodes) = match self {
            ComponentData::BulkMagazineData { load } => {
                let load = Node::Element(Element::new("Load".to_owned(), serialize_magazines(load)));
                ("BulkMagazineData", vec![load])
            },
            ComponentData::CellLauncherData { missile_load } => {
                let load = Node::Element(Element::new("MissileLoad".to_owned(), serialize_magazines(missile_load)));
                ("CellLauncherData", vec![load])
            },
            ComponentData::ResizableCellLauncherData { missile_load, configured_size } => {
                let load = Node::Element(Element::new("MissileLoad".to_owned(), serialize_magazines(missile_load)));
                let size = Node::Element(Element::new("ConfiguredSize".to_owned(), configured_size.serialize_nodes()));
                ("ResizableCellLauncherData", vec![load, size])
            },
            ComponentData::DeceptionComponentData { identity_option } => {
                ("DeceptionComponentData", vec![text_element("IdentityOption", usize_to_decimal(identity_option))])
            },
        };
        let attributes = Attributes { list: vec![("xsi:type".to_owned(), tag.to_owned())] };
        Element::with_attributes("ComponentData".to_owned(), attributes, Nodes { nodes })
    }

    /// Reads component data from its `ComponentData` element; see
    /// [`spec_component_data_from_element`]. An unknown `xsi:type` is the
    /// error `UnknownComponentDataType`.
    pub fn deserialize_element(element: Element) -> (r: Result<ComponentData, FormatError>)
        ensures
            match spec_component_data_from_element(element) {
                Some(v) => r matches Ok(d) && component_data_view(d) == v,
                None => r is Err,
            },
    {
        if let Err(e) = element.expect_named("ComponentData") {
            return Err(FormatError::XmlError(e));
        }
        let ghost whole = element;
        let Element { name: _, attributes, children } = element;
        let attr_names: [&str; 1] = ["xsi:type"];
        proof {
            assert(names_view(attr_names@) == seq!["xsi:type"@]);
            crate::xml::lemma_find_attributes_len(attributes.list@, seq!["xsi:type"@]);
        }
        let mut attrs = match attributes.find_attributes(attr_names.as_slice()) {
            Ok(a) => a,
            Err(e) => return Err(FormatError::XmlError(e)),
        };
        let tag = match attrs.pop().unwrap() {
            Some(t) => t,
            None => return Err(FormatError::XmlError(Error::MissingAttribute("xsi:type".to_owned()))),
        };
        let ghost kids = children.nodes@;
        if crate::text::str_eq(tag.as_str(), "BulkMagazineData") {
            let names: [&str; 1] = ["Load"];
            proof {
                assert(names_view(names@) == seq!["Load"@]);
                lemma_find_elements_len(kids, seq!["Load"@]);
            }
            let mut slots = match children.find_elements(names.as_slice()) {
                Ok(s) => s,
                Err(e) => return Err(FormatError::XmlError(e)),
            };
            let load = match slots.pop().unwrap() {
                Some(l) => l,
                None => return Err(FormatError::XmlError(Error::MissingElement("Load".to_owned()))),
            };
            let load = deserialize_magazines(load.children)?;
            Ok(ComponentData::BulkMagazineData { load })
        } else if crate::text::str_eq(tag.as_str(), "CellLauncherData") {
            let names: [&str; 1] = ["MissileLoad"];
            proof {
                assert(names_view(names@) == seq!["MissileLoad"@]);
                lemma_find_elements_len(kids, seq!["MissileLoad"@]);
            }
            let mut slots = match children.find_elements(names.as_slice()) {
                Ok(s) => s,
                Err(e) => return Err(FormatError::XmlError(e)),
            };
            let load = match slots.pop().unwrap() {
                Some(l) => l,
                None => return Err(FormatError::XmlError(Error::MissingElement("MissileLoad".to_owned()))),
            };
            let missile_load = deserialize_magazines(load.children)?;
            Ok(ComponentData::CellLauncherData { missile_load })
        } else if crate::text::str_eq(tag.as_str(), "ResizableCellLauncherData") {
            let names: [&str; 2] = ["MissileLoad", "ConfiguredSize"];
            proof {
                assert(names_view(names@) == seq!["MissileLoad"@, "ConfiguredSize"@]);
                lemma_find_elements_len(kids, seq!["MissileLoad"@, "ConfiguredSize"@]);
            }
            let mut slots = match children.find_elements(names.as_slice()) {
                Ok(s) => s,
                Err(e) => return Err(FormatError::XmlError(e)),
            };
            let size = slots.pop().unwrap();
            let load = match slots.pop().unwrap() {
                Some(l) => l,
                None => return Err(FormatError::XmlError(Error::MissingElement("MissileLoad".to_owned()))),
            };
            let missile_load = deserialize_magazines(load.children)?;
            let size = match size {
                Some(s) => s,
                None => return Err(FormatError::XmlError(Error::MissingElement("ConfiguredSize".to_owned()))),
            };
            let configured_size = Vector2::<usize>::deserialize_nodes(size.children)?;
            Ok(ComponentData::ResizableCellLauncherData { missile_load, configured_size })
        } else if crate::text::str_eq(tag.as_str(), "DeceptionComponentData") {
            let names: [&str; 1] = ["IdentityOption"];
            proof {
                assert(names_view(names@) == seq!["IdentityOption"@]);
                lemma_find_elements_len(kids, seq!["IdentityOption"@]);
            }
            let mut slots = match children.find_elements(names.as_slice()) {
                Ok(s) => s,
                Err(e) => return Err(FormatError::XmlError(e)),
            };
            let text = match field_text(slots.pop().unwrap(), "IdentityOption") {
                Ok(t) => t,
                Err(e) => return Err(FormatError::XmlError(e)),
            };
            match parse_usize(text.as_str()) {
                Some(identity_option) => Ok(ComponentData::DeceptionComponentData { identity_option }),
                None => Err(FormatError::XmlError(Error::ParseError(text))),
            }
        } else {
            Err(FormatError::UnknownComponentDataType(tag))
        }
    }
}

/// Component data read back from the element it is saved as is the data.
pub proof fn lemma_component_data_round_trip(e: Element, v: ComponentDataView)
    requires
        is_component_data_element(e, v),
    ensures
        spec_component_data_from_element(e) == Some(v),
{
    let list = e.attributes.list@;
    assert(list.drop_last() == Seq::<(String, String)>::empty());
    assert(list.last() == list[0]);
    assert(crate::xml::spec_name_index(seq!["xsi:type"@], list[0].0@) == 0);
    let empty_slots = Seq::new(1, |i: int| None::<String>);
    assert(crate::xml::spec_find_attributes(list.drop_last(), seq!["xsi:type"@]) == Ok::<Seq<Option<String>>, (String, String)>(empty_slots));
    assert(crate::xml::spec_find_attributes(list, seq!["xsi:type"@])
        == Ok::<Seq<Option<String>>, (String, String)>(empty_slots.update(0, Some(list[0].1))));
    reveal_strlit("BulkMagazineData");
    reveal_strlit("CellLauncherData");
    reveal_strlit("ResizableCellLauncherData");
    reveal_strlit("DeceptionComponentData");
    assert("BulkMagazineData"@[0] != "CellLauncherData"@[0]);
    assert("BulkMagazineData"@[0] != "ResizableCellLauncherData"@[0]);
    assert("BulkMagazineData"@[0] != "DeceptionComponentData"@[0]);
    assert("CellLauncherData"@[0] != "ResizableCellLauncherData"@[0]);
    assert("CellLauncherData"@[0] != "DeceptionComponentData"@[0]);
    assert("ResizableCellLauncherData"@[0] != "DeceptionComponentData"@[0]);
    let children = e.children.nodes@;
    match v {
        ComponentDataView::BulkMagazineData(m) => {
            assert(seq!["Load"@].no_duplicates());
            lemma_find_fields_in_order(children, seq!["Load"@], 1);
            assert(children.take(1) == children);
            lemma_magazines_round_trip(children[0]->Element_0.children.nodes@, m);
        },
        ComponentDataView::CellLauncherData(m) => {
            assert(seq!["MissileLoad"@].no_duplicates());
            lemma_find_fields_in_order(children, seq!["MissileLoad"@], 1);
            assert(children.take(1) == children);
            lemma_magazines_round_trip(children[0]->Element_0.children.nodes@, m);
        },
        ComponentDataView::ResizableCellLauncherData(m, x, y) => {
            reveal_strlit("MissileLoad");
            reveal_strlit("ConfiguredSize");
            assert("MissileLoad"@[0] != "ConfiguredSize"@[0]);
            assert(seq!["MissileLoad"@, "ConfiguredSize"@].no_duplicates());
            lemma_find_fields_in_order(children, seq!["MissileLoad"@, "ConfiguredSize"@], 2);
            assert(children.take(2) == children);
            lemma_magazines_round_trip(children[0]->Element_0.children.nodes@, m);
            lemma_vector2_round_trip(children[1]->Element_0.children.nodes@, x, y);
        },
        ComponentDataView::DeceptionComponentData(n) => {
            assert(seq!["IdentityOption"@].no_duplicates());
            lemma_find_fields_in_order(children, seq!["IdentityOption"@], 1);
            assert(children.take(1) == children);
            lemma_single_text(children[0]->Element_0.children.nodes@, children[0]->Element_0.children.nodes@[0]->Text_0);
            lemma_parse_decimal_round_trip(n);
        },
    }
}

} // verus!
