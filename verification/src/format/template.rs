use vstd::prelude::*;
use crate::xml::{Node, Element, Nodes, Error, spec_find_elements, spec_elements, names_view, lemma_find_elements_len};
use crate::format::FormatError;
use crate::format::codec::{spec_text, spec_field_text, is_text_element, text_element, field_text,
    lemma_find_fields_in_order, lemma_elements_of_elements};
use crate::format::missile::{MissileSocket, SettingsView, socket_view, spec_missile_socket_from_element,
    is_missile_socket_element, lemma_missile_socket_round_trip, lemma_find_fields_at, lemma_text_field};
use crate::format::{MissileComponentKey, DefensiveDoctrine};
use crate::format::missile::{BalanceValues, MissileComponent, MissileComponentSettings};
use crate::data::missiles::{AuxiliaryKey, AvionicsKey, WarheadKey, Maneuvers};
use crate::data::missiles::seekers::{SeekerKey, SeekerMode};
use crate::data::missiles::seekers::strategy::SeekerStrategy;
use crate::data::missiles::bodies::{MissileBodyKey, lemma_missile_body_key_round_trip};
use crate::text::{parse_usize, spec_parse_usize, spec_decimal, usize_to_decimal, lemma_parse_decimal_round_trip};

verus! {

/// A color as the text of its red, green, blue and alpha components (the
/// game reads them as floating-point numbers).
#[derive(Debug, Clone, PartialEq, Eq)]
pub struct Color {
    pub r: String,
    pub g: String,
    pub b: String,
    pub a: String,
}

/// The color `c` as plain values.
pub open spec fn color_view(c: Color) -> (Seq<char>, Seq<char>, Seq<char>, Seq<char>) {
    (c.r@, c.g@, c.b@, c.a@)
}

/// What the nodes of a color read as: the texts of their `r`, `g`, `b` and
/// `a` elements, each given once.
pub open spec fn spec_color_from_nodes(nodes: Seq<Node>) -> Option<(Seq<char>, Seq<char>, Seq<char>, Seq<char>)> {
    match spec_find_elements(nodes, seq!["r"@, "g"@, "b"@, "a"@]) {
        Ok(s) => match (spec_field_text(s[0]), spec_field_text(s[1]), spec_field_text(s[2]), spec_field_text(s[3])) {
            (Some(r), Some(g), Some(b), Some(a)) => Some((r, g, b, a)),
            _ => None,
        },
        Err(_) => None,
    }
}

/// Whether `nodes` are the elements a color with the plain values `c` is
/// saved as.
pub open spec fn is_color_nodes(nodes: Seq<Node>, c: (Seq<char>, Seq<char>, Seq<char>, Seq<char>)) -> bool {
    &&& nodes.len() == 4
    &&& is_text_element(nodes[0], "r"@, c.0)
    &&& is_text_element(nodes[1], "g"@, c.1)
    &&& is_text_element(nodes[2], "b"@, c.2)
    &&& is_text_element(nodes[3], "a"@, c.3)
}

impl Color {
    /// The elements this color is saved as.
    pub fn serialize_nodes(self) -> (r: Nodes)
        ensures
            is_color_nodes(r.nodes@, color_view(self)),
    {
        let Color { r, g, b, a } = self;
        Nodes { nodes: vec![text_element("r", r), text_element("g", g), text_element("b", b), text_element("a", a)] }
    }

    /// Reads a color from its elements; see [`spec_color_from_nodes`].
    pub fn deserialize_nodes(nodes: Nodes) -> (r: Result<Color, FormatError>)
        ensures
            match spec_color_from_nodes(nodes.nodes@) {
                Some(c) => r matches Ok(v) && color_view(v) == c,
                None => r is Err,
            },
    {
        let names: [&str; 4] = ["r", "g", "b", "a"];
        proof {
            assert(names_view(names@) == seq!["r"@, "g"@, "b"@, "a"@]);
            lemma_find_elements_len(nodes.nodes@, seq!["r"@, "g"@, "b"@, "a"@]);
        }
        let mut s = match nodes.find_elements(names.as_slice()) {
            Ok(s) => s,
            Err(e) => return Err(FormatError::XmlError(e)),
        };
        let ghost g = s@;
        let a = s.pop().unwrap();
        let b = s.pop().unwrap();
        let gr = s.pop().unwrap();
        let r = s.pop().unwrap();
        assert(r == g[0] && gr == g[1] && b == g[2] && a == g[3]);
        let r = match field_text(r, "r") {
            Ok(t) => t,
            Err(e) => return Err(FormatError::XmlError(e)),
        };
        let gr = match field_text(gr, "g") {
            Ok(t) => t,
            Err(e) => return Err(FormatError::XmlError(e)),
        };
        let b = match field_text(b, "b") {
            Ok(t) => t,
            Err(e) => return Err(FormatError::XmlError(e)),
        };
        let a = match field_text(a, "a") {
            Ok(t) => t,
            Err(e) => return Err(FormatError::XmlError(e)),
        };
        Ok(Color { r, g: gr, b, a })
    }
}

/// A color read back from the elements it is saved as has its values.
pub proof fn lemma_color_round_trip(nodes: Seq<Node>, c: (Seq<char>, Seq<char>, Seq<char>, Seq<char>))
    requires
        is_color_nodes(nodes, c),
    ensures
        spec_color_from_nodes(nodes) == Some(c),
{
    reveal_strlit("r");
    reveal_strlit("g");
    reveal_strlit("b");
    reveal_strlit("a");
    let names = seq!["r"@, "g"@, "b"@, "a"@];
    assert(names.no_duplicates()) by {
        assert("r"@[0] != "g"@[0]);
        assert("r"@[0] != "b"@[0]);
        assert("r"@[0] != "a"@[0]);
        assert("g"@[0] != "b"@[0]);
        assert("g"@[0] != "a"@[0]);
        assert("b"@[0] != "a"@[0]);
    }
    lemma_find_fields_in_order(nodes, names, 4);
    assert(nodes.take(4) == nodes);
    lemma_text_field(nodes[0], "r"@, c.0);
    lemma_text_field(nodes[1], "g"@, c.1);
    lemma_text_field(nodes[2], "b"@, c.2);
    lemma_text_field(nodes[3], "a"@, c.3);
}

/// A missile socket as plain values: its size and its installed component.
pub type SocketView = (usize, Option<(Option<MissileComponentKey>, Option<SettingsView>)>);

/// What the nodes of a list of sockets read as: the socket of each element
/// (whitespace text skipped), when every element reads as one.
pub open spec fn spec_sockets_from_nodes(nodes: Seq<Node>) -> Option<Seq<SocketView>> {
    match spec_elements(nodes) {
        Ok(es) => if forall|i: int| 0 <= i < es.len() ==> (#[trigger] spec_missile_socket_from_element(es[i])) is Some {
            Some(es.map_values(|e: Element| spec_missile_socket_from_element(e)->Some_0))
        } else {
            None
        },
        Err(_) => None,
    }
}

/// Whether `nodes` are the elements the sockets `sockets` are saved as.
pub open spec fn is_sockets_nodes(nodes: Seq<Node>, sockets: Seq<SocketView>) -> bool {
    &&& nodes.len() == sockets.len()
    &&& forall|i: int| 0 <= i < nodes.len() ==> (#[trigger] nodes[i]) is Element
        && is_missile_socket_element(nodes[i]->Element_0, sockets[i])
}

/// The elements a list of sockets is saved as.
pub fn serialize_sockets(sockets: Vec<MissileSocket>) -> (r: Nodes)
    ensures
        is_sockets_nodes(r.nodes@, sockets@.map_values(|s: MissileSocket| socket_view(s))),
{
    let ghost all = sockets@;
    let mut nodes: Vec<Node> = Vec::new();
    for s in it: sockets
        invariant
            it.seq() == all,
            nodes@.len() == it.index(),
            forall|j: int| 0 <= j < it.index() ==> (#[trigger] nodes@[j]) is Element
                && is_missile_socket_element(nodes@[j]->Element_0, socket_view(all[j])),
    {
        nodes.push(Node::Element(s.serialize_element()));
    }
    Nodes { nodes }
}

/// Reads a list of sockets; see [`spec_sockets_from_nodes`].
pub fn deserialize_sockets(nodes: Nodes) -> (r: Result<Vec<MissileSocket>, FormatError>)
    ensures
        match spec_sockets_from_nodes(nodes.nodes@) {
            Some(ss) => r matches Ok(v) && v@.map_values(|s: MissileSocket| socket_view(s)) == ss,
            None => r is Err,
        },
{
    let ghost whole = nodes.nodes@;
    let elements = match nodes.try_into_elements_vec() {
        Ok(es) => es,
        Err(e) => return Err(FormatError::XmlError(e)),
    };
    let ghost all = elements@;
    let mut out: Vec<MissileSocket> = Vec::new();
    for e in it: elements
        invariant
            it.seq() == all,
            spec_elements(whole) == Ok::<Seq<Element>, String>(all),
            whole == nodes.nodes@,
            out@.len() == it.index(),
            forall|j: int| 0 <= j < it.index() ==> spec_missile_socket_from_element(#[trigger] all[j]) == Some(socket_view(out@[j])),
    {
        let ghost i = it.index() as int;
        match MissileSocket::deserialize_element(e) {
            Ok(s) => out.push(s),
            Err(err) => {
                proof {
                    assert(spec_missile_socket_from_element(all[i]) is None);
                }
                return Err(err);
            },
        }
    }
    proof {
        assert(out@.map_values(|s: MissileSocket| socket_view(s)) == all.map_values(|e: Element| spec_missile_socket_from_element(e)->Some_0));
    }
    Ok(out)
}

/// Sockets read back from the elements they are saved as are the sockets.
pub proof fn lemma_sockets_round_trip(nodes: Seq<Node>, sockets: Seq<SocketView>)
    requires
        is_sockets_nodes(nodes, sockets),
        forall|i: int| 0 <= i < sockets.len() ==> (#[trigger] sockets[i]).0 > 0,
    ensures
        spec_sockets_from_nodes(nodes) == Some(sockets),
{
    lemma_elements_of_elements(nodes);
    let es = nodes.map_values(|n: Node| n->Element_0);
    assert forall|i: int| 0 <= i < es.len() implies (#[trigger] spec_missile_socket_from_element(es[i])) == Some(sockets[i]) by {
        lemma_missile_socket_round_trip(es[i], sockets[i]);
    }
    assert(es.map_values(|e: Element| spec_missile_socket_from_element(e)->Some_0) == sockets);
}

/// A missile design saved in a fleet: its names and descriptions, its
/// cost, body, key, colors and sockets. The key is held as its text.
#[derive(Debug, Clone, PartialEq, Eq)]
pub struct MissileTemplate {
    pub associated_template_name: Option<String>,
    pub designation: String,
    pub nickname: String,
    pub description: String,
    pub long_description: String,
    pub cost: usize,
    pub body_key: MissileBodyKey,
    pub template_key: String,
    pub base_color: Color,
    pub stripe_color: Color,
    pub sockets: Vec<MissileSocket>,
}

/// A missile template as plain values.
pub struct TemplateView {
    pub associated_template_name: Option<Seq<char>>,
    pub designation: Seq<char>,
    pub nickname: Seq<char>,
    pub description: Seq<char>,
    pub long_description: Seq<char>,
    pub cost: usize,
    pub body_key: MissileBodyKey,
    pub template_key: Seq<char>,
    pub base_color: (Seq<char>, Seq<char>, Seq<char>, Seq<char>),
    pub stripe_color: (Seq<char>, Seq<char>, Seq<char>, Seq<char>),
    pub sockets: Seq<SocketView>,
}

/// The template `t` as plain values.
pub open spec fn template_view(t: MissileTemplate) -> TemplateView {
    TemplateView {
        associated_template_name: match t.associated_template_name {
            Some(n) => Some(n@),
            None => None,
        },
        designation: t.designation@,
        nickname: t.nickname@,
        description: t.description@,
        long_description: t.long_description@,
        cost: t.cost,
        body_key: t.body_key,
        template_key: t.template_key@,
        base_color: color_view(t.base_color),
        stripe_color: color_view(t.stripe_color),
        sockets: t.sockets@.map_values(|s: MissileSocket| socket_view(s)),
    }
}

/// The names of the fields of a missile template.
pub open spec fn template_field_names() -> Seq<Seq<char>> {
    seq!["AssociatedTemplateName"@, "Designation"@, "Nickname"@, "Description"@, "LongDescription"@, "Cost"@,
        "BodyKey"@, "TemplateKey"@, "BaseColor"@, "StripeColor"@, "Sockets"@]
}

/// The text of an optional field: none when it is absent.
pub open spec fn spec_optional_text(slot: Option<Element>) -> Option<Option<Seq<char>>> {
    match slot {
        None => Some(None),
        Some(e) => match spec_text(e.children.nodes@) {
            Some(t) => Some(Some(t)),
            None => None,
        },
    }
}

/// The number a field holds in decimal.
pub open spec fn spec_usize_field(slot: Option<Element>) -> Option<usize> {
    match spec_field_text(slot) {
        Some(t) => spec_parse_usize(t),
        None => None,
    }
}

/// The missile body a field names.
pub open spec fn spec_body_field(slot: Option<Element>) -> Option<MissileBodyKey> {
    match spec_field_text(slot) {
        Some(t) => match MissileBodyKey::spec_from_str(t) {
            Ok(k) => Some(k),
            Err(_) => None,
        },
        None => None,
    }
}

/// The color a field holds.
pub open spec fn spec_color_field(slot: Option<Element>) -> Option<(Seq<char>, Seq<char>, Seq<char>, Seq<char>)> {
    match slot {
        Some(e) => spec_color_from_nodes(e.children.nodes@),
        None => None,
    }
}

/// The sockets a field holds.
pub open spec fn spec_sockets_field(slot: Option<Element>) -> Option<Seq<SocketView>> {
    match slot {
        Some(e) => spec_sockets_from_nodes(e.children.nodes@),
        None => None,
    }
}

/// What a `MissileTemplate` element reads as: every field is given at most
/// once; the associated template name may be absent; the designation,
/// nickname, descriptions and key are texts; the cost is a decimal number;
/// the body key names a body; the colors and sockets read as such.
pub open spec fn spec_template_from_element(e: Element) -> Option<TemplateView> {
    if e.name@ != "MissileTemplate"@ {
        None
    } else {
        match spec_find_elements(e.children.nodes@, template_field_names()) {
            Err(_) => None,
            Ok(sl) => {
                let assoc = spec_optional_text(sl[0]);
                let designation = spec_field_text(sl[1]);
                let nickname = spec_field_text(sl[2]);
                let description = spec_field_text(sl[3]);
                let long_description = spec_field_text(sl[4]);
                let cost = spec_usize_field(sl[5]);
                let body = spec_body_field(sl[6]);
                let key = spec_field_text(sl[7]);
                let base = spec_color_field(sl[8]);
                let stripe = spec_color_field(sl[9]);
                let sockets = spec_sockets_field(sl[10]);
                if assoc is Some && designation is Some && nickname is Some && description is Some
                    && long_description is Some && cost is Some && body is Some && key is Some && base is Some
                    && stripe is Some && sockets is Some {
                    Some(TemplateView {
                        associated_template_name: assoc->Some_0,
                        designation: designation->Some_0,
                        nickname: nickname->Some_0,
                        description: description->Some_0,
                        long_description: long_description->Some_0,
                        cost: cost->Some_0,
                        body_key: body->Some_0,
                        template_key: key->Some_0,
                        base_color: base->Some_0,
                        stripe_color: stripe->Some_0,
                        sockets: sockets->Some_0,
                    })
                } else {
                    None
                }
            },
        }
    }
}

/// Whether `n` is an element named `name`, without attributes.
pub open spec fn is_plain_element(n: Node, name: Seq<char>) -> bool {
    &&& n is Element
    &&& n->Element_0.name@ == name
    &&& n->Element_0.attributes.list@.len() == 0
}

/// Whether `e` is the `MissileTemplate` element a template with the plain
/// values `v` is saved as: the associated template name where there is
/// one, then each other field in order.
pub open spec fn is_template_element(e: Element, v: TemplateView) -> bool {
    let k: int = if v.associated_template_name is Some { 1 } else { 0 };
    let c = e.children.nodes@;
    &&& e.name@ == "MissileTemplate"@
    &&& e.attributes.list@.len() == 0
    &&& c.len() == k + 10
    &&& (v.associated_template_name matches Some(n) ==> is_text_element(c[0], "AssociatedTemplateName"@, n))
    &&& is_text_element(c[k], "Designation"@, v.designation)
    &&& is_text_element(c[k + 1], "Nickname"@, v.nickname)
    &&& is_text_element(c[k + 2], "Description"@, v.description)
    &&& is_text_element(c[k + 3], "LongDescription"@, v.long_description)
    &&& is_text_element(c[k + 4], "Cost"@, spec_decimal(v.cost as nat))
    &&& is_text_element(c[k + 5], "BodyKey"@, v.body_key.spec_save_key())
    &&& is_text_element(c[k + 6], "TemplateKey"@, v.template_key)
    &&& is_plain_element(c[k + 7], "BaseColor"@)
    &&& is_color_nodes(c[k + 7]->Element_0.children.nodes@, v.base_color)
    &&& is_plain_element(c[k + 8], "StripeColor"@)
    &&& is_color_nodes(c[k + 8]->Element_0.children.nodes@, v.stripe_color)
    &&& is_plain_element(c[k + 9], "Sockets"@)
    &&& is_sockets_nodes(c[k + 9]->Element_0.children.nodes@, v.sockets)
}

impl MissileTemplate {
    /// The points this missile costs, as saved with it.
    pub fn calculate_cost(&self) -> (r: usize)
        ensures
            r == self.cost,
    {
        self.cost
    }
}

impl MissileTemplate {
    /// The `MissileTemplate` element this template is saved as.
    pub fn serialize_element(self) -> (r: Element)
        ensures
            is_template_element(r, template_view(self)),
    {
        let MissileTemplate {
            associated_template_name, designation, nickname, description, long_description, cost, body_key,
            template_key, base_color, stripe_color, sockets,
        } = self;
        let mut nodes: Vec<Node> = Vec::new();
        match associated_template_name {
            Some(n) => nodes.push(text_element("AssociatedTemplateName", n)),
            None => {},
        }
        nodes.push(text_element("Designation", designation));
        nodes.push(text_element("Nickname", nickname));
        nodes.push(text_element("Description", description));
        nodes.push(text_element("LongDescription", long_description));
        nodes.push(text_element("Cost", usize_to_decimal(cost)));
        nodes.push(text_element("BodyKey", body_key.save_key().to_owned()));
        nodes.push(text_element("TemplateKey", template_key));
        nodes.push(Node::Element(Element::new("BaseColor".to_owned(), base_color.serialize_nodes())));
        nodes.push(Node::Element(Element::new("StripeColor".to_owned(), stripe_color.serialize_nodes())));
        nodes.push(Node::Element(Element::new("Sockets".to_owned(), serialize_sockets(sockets))));
        Element::new("MissileTemplate".to_owned(), Nodes { nodes })
    }
}

fn read_text(slot: Option<Element>, name: &str) -> (r: Result<String, FormatError>)
    ensures
        match spec_field_text(slot) {
            Some(t) => r matches Ok(s) && s@ == t,
            None => r is Err,
        },
{
    match field_text(slot, name) {
        Ok(t) => Ok(t),
        Err(e) => Err(FormatError::XmlError(e)),
    }
}

fn read_color(slot: Option<Element>, name: &str) -> (r: Result<Color, FormatError>)
    ensures
        match spec_color_field(slot) {
            Some(c) => r matches Ok(v) && color_view(v) == c,
            None => r is Err,
        },
{
    match slot {
        Some(e) => Color::deserialize_nodes(e.children),
        None => Err(FormatError::XmlError(Error::MissingElement(name.to_owned()))),
    }
}

impl MissileTemplate {
    /// Reads a template from its `MissileTemplate` element; see
    /// [`spec_template_from_element`].
    #[verifier::rlimit(40)]
    pub fn deserialize_element(element: Element) -> (r: Result<MissileTemplate, FormatError>)
        ensures
            match spec_template_from_element(element) {
                Some(v) => r matches Ok(t) && template_view(t) == v,
                None => r is Err,
            },
    {
        if let Err(e) = element.expect_named("MissileTemplate") {
            return Err(FormatError::XmlError(e));
        }
        let names: [&str; 11] = ["AssociatedTemplateName", "Designation", "Nickname", "Description", "LongDescription",
            "Cost", "BodyKey", "TemplateKey", "BaseColor", "StripeColor", "Sockets"];
        proof {
            assert(names_view(names@) == template_field_names());
            lemma_find_elements_len(element.children.nodes@, template_field_names());
        }
        let mut sl = match element.children.find_elements(names.as_slice()) {
            Ok(s) => s,
            Err(e) => return Err(FormatError::XmlError(e)),
        };
        let ghost g = sl@;
        let sockets = sl.pop().unwrap();
        let stripe = sl.pop().unwrap();
        let base = sl.pop().unwrap();
        let key = sl.pop().unwrap();
        let body = sl.pop().unwrap();
        let cost = sl.pop().unwrap();
        let long_description = sl.pop().unwrap();
        let description = sl.pop().unwrap();
        let nickname = sl.pop().unwrap();
        let designation = sl.pop().unwrap();
        let assoc = sl.pop().unwrap();
        assert(assoc == g[0] && designation == g[1] && nickname == g[2] && description == g[3] && long_description == g[4]);
        assert(cost == g[5] && body == g[6] && key == g[7] && base == g[8] && stripe == g[9] && sockets == g[10]);
        let associated_template_name = match assoc {
            None => None,
            Some(e) => Some(read_text(Some(e), "AssociatedTemplateName")?),
        };
        let designation = read_text(designation, "Designation")?;
        let nickname = read_text(nickname, "Nickname")?;
        let description = read_text(description, "Description")?;
        let long_description = read_text(long_description, "LongDescription")?;
        let cost_text = read_text(cost, "Cost")?;
        let cost = match parse_usize(cost_text.as_str()) {
            Some(n) => n,
            None => return Err(FormatError::XmlError(Error::ParseError(cost_text))),
        };
        let body_text = read_text(body, "BodyKey")?;
        let body_key = match MissileBodyKey::from_str(body_text.as_str()) {
            Ok(k) => k,
            Err(_) => return Err(FormatError::XmlError(Error::ParseError(body_text))),
        };
        let template_key = read_text(key, "TemplateKey")?;
        let base_color = read_color(base, "BaseColor")?;
        let stripe_color = read_color(stripe, "StripeColor")?;
        let sockets = match sockets {
            Some(e) => deserialize_sockets(e.children)?,
            None => return Err(FormatError::XmlError(Error::MissingElement("Sockets".to_owned()))),
        };
        Ok(MissileTemplate {
            associated_template_name, designation, nickname, description, long_description, cost, body_key,
            template_key, base_color, stripe_color, sockets,
        })
    }
}

/// No name of [`template_field_names`] appears twice.
pub proof fn lemma_template_field_names_distinct()
    ensures
        template_field_names().no_duplicates(),
{
    let names = template_field_names();
    reveal_strlit("AssociatedTemplateName");
    reveal_strlit("Designation");
    reveal_strlit("Nickname");
    reveal_strlit("Description");
    reveal_strlit("LongDescription");
    reveal_strlit("Cost");
    reveal_strlit("BodyKey");
    reveal_strlit("TemplateKey");
    reveal_strlit("BaseColor");
    reveal_strlit("StripeColor");
    reveal_strlit("Sockets");
    let lens = seq![22int, 11, 8, 11, 15, 4, 7, 11, 9, 11, 7];
    assert forall|i: int| 0 <= i < 11 implies (#[trigger] names[i]).len() == lens[i] by {}
    assert("Designation"@[3] != "Description"@[3]);
    assert("Designation"@[0] != "TemplateKey"@[0]);
    assert("Designation"@[0] != "StripeColor"@[0]);
    assert("Description"@[0] != "TemplateKey"@[0]);
    assert("Description"@[0] != "StripeColor"@[0]);
    assert("TemplateKey"@[0] != "StripeColor"@[0]);
    assert("BodyKey"@[0] != "Sockets"@[0]);
    assert forall|i: int, j: int| 0 <= i < names.len() && 0 <= j < names.len() && i != j implies names[i] != names[j] by {
        if lens[i] != lens[j] {
            assert(names[i].len() != names[j].len());
        } else if names[i][0] != names[j][0] {
        } else {
            assert(names[i][3] != names[j][3]);
        }
    }
}

/// A template read back from the element it is saved as has its values:
/// what [`MissileTemplate::serialize_element`] writes,
/// [`MissileTemplate::deserialize_element`] reads back unchanged.
pub proof fn lemma_template_round_trip(e: Element, v: TemplateView)
    requires
        is_template_element(e, v),
        forall|i: int| 0 <= i < v.sockets.len() ==> (#[trigger] v.sockets[i]).0 > 0,
    ensures
        spec_template_from_element(e) == Some(v),
{
    let nodes = e.children.nodes@;
    let names = template_field_names();
    lemma_template_field_names_distinct();
    let k: int = if v.associated_template_name is Some { 1 } else { 0 };
    let head: Seq<int> = if v.associated_template_name is Some { seq![0int] } else { Seq::empty() };
    let tail: Seq<int> = seq![1int, 2, 3, 4, 5, 6, 7, 8, 9, 10];
    let pos = head + tail;
    reveal_strlit("AssociatedTemplateName");
    reveal_strlit("Designation");
    reveal_strlit("Nickname");
    reveal_strlit("Description");
    reveal_strlit("LongDescription");
    reveal_strlit("Cost");
    reveal_strlit("BodyKey");
    reveal_strlit("TemplateKey");
    reveal_strlit("BaseColor");
    reveal_strlit("StripeColor");
    reveal_strlit("Sockets");
    assert(pos.len() == nodes.len());
    assert forall|i: int| 0 <= i < pos.len() implies 0 <= #[trigger] pos[i] < names.len() by {
        if i >= k {
            assert(pos[i] == tail[i - k]);
        }
    }
    assert forall|i: int, j: int| 0 <= i < j < pos.len() implies pos[i] < pos[j] by {
        if i >= k {
            assert(pos[i] == tail[i - k]);
        }
        assert(pos[j] == tail[j - k]);
    }
    assert forall|i: int| 0 <= i < nodes.len() implies (#[trigger] nodes[i]) is Element && nodes[i]->Element_0.name@ == names[pos[i]] by {
        if i >= k {
            assert(pos[i] == tail[i - k]);
            assert(pos[i] == i - k + 1);
        }
    }
    lemma_find_fields_at(nodes, names, pos);
    let sl = spec_find_elements(nodes, names)->Ok_0;
    assert forall|j: int| 1 <= j < 11 implies sl[j] == Some(nodes[k + j - 1]->Element_0) by {
        assert(pos[k + j - 1] == tail[j - 1]);
    }
    match v.associated_template_name {
        Some(n) => {
            assert(sl[pos[0]] == Some(nodes[0]->Element_0));
            lemma_text_field(nodes[0], "AssociatedTemplateName"@, n);
        },
        None => {
            assert(!pos.contains(0));
        },
    }
    assert(sl[1] == Some(nodes[k]->Element_0));
    assert(sl[2] == Some(nodes[k + 1]->Element_0));
    assert(sl[3] == Some(nodes[k + 2]->Element_0));
    assert(sl[4] == Some(nodes[k + 3]->Element_0));
    assert(sl[5] == Some(nodes[k + 4]->Element_0));
    assert(sl[6] == Some(nodes[k + 5]->Element_0));
    assert(sl[7] == Some(nodes[k + 6]->Element_0));
    assert(sl[8] == Some(nodes[k + 7]->Element_0));
    assert(sl[9] == Some(nodes[k + 8]->Element_0));
    assert(sl[10] == Some(nodes[k + 9]->Element_0));
    lemma_text_field(nodes[k], "Designation"@, v.designation);
    lemma_text_field(nodes[k + 1], "Nickname"@, v.nickname);
    lemma_text_field(nodes[k + 2], "Description"@, v.description);
    lemma_text_field(nodes[k + 3], "LongDescription"@, v.long_description);
    lemma_text_field(nodes[k + 4], "Cost"@, spec_decimal(v.cost as nat));
    lemma_text_field(nodes[k + 5], "BodyKey"@, v.body_key.spec_save_key());
    lemma_text_field(nodes[k + 6], "TemplateKey"@, v.template_key);
    lemma_parse_decimal_round_trip(v.cost);
    lemma_missile_body_key_round_trip(v.body_key);
    lemma_color_round_trip(nodes[k + 7]->Element_0.children.nodes@, v.base_color);
    lemma_color_round_trip(nodes[k + 8]->Element_0.children.nodes@, v.stripe_color);
    lemma_sockets_round_trip(nodes[k + 9]->Element_0.children.nodes@, v.sockets);
}

} // verus!

verus! {

/// What a missile template holds, sorted by kind of component: its body,
/// its seekers as a strategy (the first installed seeker leading), its
/// warheads with the sizes of their sockets, its guidance package, its
/// auxiliary components, and its engines' balance with their sizes.
#[derive(Debug, Clone, PartialEq, Eq)]
pub struct MissileTemplateContents {
    pub body_key: MissileBodyKey,
    pub seekers: Option<SeekerStrategy<SeekerKey>>,
    pub warheads: Vec<(WarheadKey, usize)>,
    pub avionics: Option<(AvionicsKey, Maneuvers, Option<DefensiveDoctrine>)>,
    pub auxiliary_components: Vec<AuxiliaryKey>,
    pub engine_settings: Vec<(BalanceValues, usize)>,
}

/// The contents of a missile as they are gathered socket by socket: its
/// seekers in order with their modes, its warheads, guidance, auxiliary
/// components and engines.
pub struct GatheredView {
    pub seekers: Seq<(SeekerKey, SeekerMode)>,
    pub warheads: Seq<(WarheadKey, usize)>,
    pub avionics: Option<(AvionicsKey, Maneuvers, Option<DefensiveDoctrine>)>,
    pub auxiliary: Seq<AuxiliaryKey>,
    pub engines: Seq<((Seq<char>, Seq<char>, Seq<char>), usize)>,
}

/// Missile contents as plain values: the body, the leading seeker and
/// those after it (none without seekers), and the rest as gathered.
pub struct ContentsView {
    pub body_key: MissileBodyKey,
    pub seekers: Option<(SeekerKey, Seq<(SeekerKey, SeekerMode)>)>,
    pub warheads: Seq<(WarheadKey, usize)>,
    pub avionics: Option<(AvionicsKey, Maneuvers, Option<DefensiveDoctrine>)>,
    pub auxiliary: Seq<AuxiliaryKey>,
    pub engines: Seq<((Seq<char>, Seq<char>, Seq<char>), usize)>,
}

/// The contents `c` as plain values.
pub open spec fn contents_view(c: MissileTemplateContents) -> ContentsView {
    ContentsView {
        body_key: c.body_key,
        seekers: match c.seekers {
            Some(s) => Some((s.primary, s.secondaries@)),
            None => None,
        },
        warheads: c.warheads@,
        avionics: c.avionics,
        auxiliary: c.auxiliary_components@,
        engines: c.engine_settings@.map_values(|e: (BalanceValues, usize)| ((e.0.a@, e.0.b@, e.0.c@), e.1)),
    }
}

/// What the socket `s` adds to the gathered contents `g`: a seeker
/// (the anti-radiation seeker as home-on-jam where it targets only
/// jammers) with its mode, a guidance package in place of any before it, a
/// warhead with its socket's size, an auxiliary component, or an engine
/// (no component key) with its balance and size; an empty socket, and a
/// component that is none of these, add nothing.
pub open spec fn spec_gather_socket(g: GatheredView, s: SocketView) -> GatheredView {
    match s.1 {
        None => g,
        Some((key, settings)) => match key {
            None => match settings {
                Some(SettingsView::MissileEngine(a, b, c)) => GatheredView { engines: g.engines.push(((a, b, c), s.0)), ..g },
                _ => g,
            },
            Some(k) => match settings {
                Some(SettingsView::ActiveSeeker(mode, _, _)) | Some(SettingsView::PassiveSeeker(mode, _, _))
                | Some(SettingsView::CommandSeeker(mode)) => match k.spec_to_seeker_key() {
                    Some(sk) => GatheredView { seekers: g.seekers.push((sk, mode)), ..g },
                    None => g,
                },
                Some(SettingsView::PassiveARHSeeker(mode, _, home_on_jam)) if k == MissileComponentKey::FixedAntiRadiationSeeker =>
                    GatheredView { seekers: g.seekers.push((
                        if home_on_jam { SeekerKey::FixedHomeOnJam } else { SeekerKey::FixedAntiRadiation }, mode)), ..g },
                Some(SettingsView::DirectGuidance(_, _, m, d, _)) | Some(SettingsView::CruiseGuidance(_, _, m, d)) =>
                    match k.spec_to_avionics_key() {
                        Some(ak) => GatheredView { avionics: Some((ak, m, d)), ..g },
                        None => g,
                    },
                _ => match k.spec_to_warhead_key() {
                    Some(w) => GatheredView { warheads: g.warheads.push((w, s.0)), ..g },
                    None => match k.spec_to_auxiliary_key() {
                        Some(a) => GatheredView { auxiliary: g.auxiliary.push(a), ..g },
                        None => g,
                    },
                },
            },
        },
    }
}

/// The contents gathered from the sockets `sockets`, in order.
pub open spec fn spec_gather(sockets: Seq<SocketView>) -> GatheredView
    decreases sockets.len(),
{
    if sockets.len() == 0 {
        GatheredView { seekers: seq![], warheads: seq![], avionics: None, auxiliary: seq![], engines: seq![] }
    } else {
        spec_gather_socket(spec_gather(sockets.drop_last()), sockets.last())
    }
}

/// The contents of the template `t`: what its sockets hold, the seekers
/// led by the first one installed (none without seekers).
pub open spec fn spec_contents(t: TemplateView) -> ContentsView {
    let g = spec_gather(t.sockets);
    ContentsView {
        body_key: t.body_key,
        seekers: if g.seekers.len() == 0 { None } else { Some((g.seekers[0].0, g.seekers.drop_first())) },
        warheads: g.warheads,
        avionics: g.avionics,
        auxiliary: g.auxiliary,
        engines: g.engines,
    }
}

impl MissileTemplate {
    /// What this template holds, sorted by kind of component; see
    /// [`spec_contents`]. A template with seekers has them as a strategy
    /// led by the first one installed, and one without has none. (The
    /// fleet generator this library grew from tested for seekers the wrong
    /// way round: it gave none when there were seekers and failed when
    /// there were none.)
    pub fn contents(&self) -> (r: MissileTemplateContents)
        ensures
            contents_view(r) == spec_contents(template_view(*self)),
    {
        let ghost all = self.sockets@.map_values(|s: MissileSocket| socket_view(s));
        let mut seekers: Vec<(SeekerKey, SeekerMode)> = Vec::new();
        let mut warheads: Vec<(WarheadKey, usize)> = Vec::new();
        let mut avionics: Option<(AvionicsKey, Maneuvers, Option<DefensiveDoctrine>)> = None;
        let mut auxiliary_components: Vec<AuxiliaryKey> = Vec::new();
        let mut engine_settings: Vec<(BalanceValues, usize)> = Vec::new();
        let mut i: usize = 0;
        while i < self.sockets.len()
            invariant
                i <= self.sockets@.len(),
                all == self.sockets@.map_values(|s: MissileSocket| socket_view(s)),
                ({
                    let g = spec_gather(all.take(i as int));
                    &&& seekers@ == g.seekers
                    &&& warheads@ == g.warheads
                    &&& avionics == g.avionics
                    &&& auxiliary_components@ == g.auxiliary
                    &&& engine_settings@.map_values(|e: (BalanceValues, usize)| ((e.0.a@, e.0.b@, e.0.c@), e.1)) == g.engines
                }),
            decreases self.sockets.len() - i,
        {
            proof {
                assert(all.take(i as int + 1).drop_last() == all.take(i as int));
                assert(all.take(i as int + 1).last() == socket_view(self.sockets@[i as int]));
            }
            let ghost engines_before = engine_settings@;
            let socket = &self.sockets[i];
            let size = socket.size;
            match &socket.installed_component {
                None => {},
                Some(component) => match &component.component_key {
                    None => match &component.settings {
                        Some(MissileComponentSettings::MissileEngineSettings { balance_values }) => {
                            let copy = BalanceValues {
                                a: balance_values.a.clone(),
                                b: balance_values.b.clone(),
                                c: balance_values.c.clone(),
                            };
                            engine_settings.push((copy, size));
                            proof {
                                assert(engine_settings@.map_values(|e: (BalanceValues, usize)| ((e.0.a@, e.0.b@, e.0.c@), e.1))
                                    =~= engines_before.map_values(|e: (BalanceValues, usize)| ((e.0.a@, e.0.b@, e.0.c@), e.1))
                                        .push(((copy.a@, copy.b@, copy.c@), size)));
                            }
                        },
                        _ => {},
                    },
                    Some(k) => {
                        let k = *k;
                        match &component.settings {
                            Some(MissileComponentSettings::ActiveSeekerSettings { mode, .. })
                            | Some(MissileComponentSettings::PassiveSeekerSettings { mode, .. })
                            | Some(MissileComponentSettings::CommandSeekerSettings { mode }) => {
                                if let Some(sk) = k.to_seeker_key() {
                                    seekers.push((sk, *mode));
                                }
                            },
                            Some(MissileComponentSettings::PassiveARHSeekerSettings { mode, home_on_jam, .. })
                                if k == MissileComponentKey::FixedAntiRadiationSeeker => {
                                let sk = if *home_on_jam { SeekerKey::FixedHomeOnJam } else { SeekerKey::FixedAntiRadiation };
                                seekers.push((sk, *mode));
                            },
                            Some(MissileComponentSettings::DirectGuidanceSettings { maneuvers, defensive_doctrine, .. })
                            | Some(MissileComponentSettings::CruiseGuidanceSettings { maneuvers, defensive_doctrine, .. }) => {
                                if let Some(ak) = k.to_avionics_key() {
                                    avionics = Some((ak, *maneuvers, *defensive_doctrine));
                                }
                            },
                            _ => {
                                if let Some(w) = k.to_warhead_key() {
                                    warheads.push((w, size));
                                } else if let Some(a) = k.to_auxiliary_key() {
                                    auxiliary_components.push(a);
                                }
                            },
                        }
                    },
                },
            }
            i = i + 1;
        }
        proof {
            assert(all.take(i as int) == all);
        }
        let seekers = if seekers.len() == 0 {
            None
        } else {
            let first = seekers.remove(0);
            Some(SeekerStrategy::new(first.0, seekers))
        };
        MissileTemplateContents {
            body_key: self.body_key,
            seekers,
            warheads,
            avionics,
            auxiliary_components,
            engine_settings,
        }
    }
}

} // verus!
