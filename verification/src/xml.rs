use vstd::prelude::*;
use crate::text::{chars_of, string_from_chars, parse_usize, spec_parse_usize};

verus! {

/// Whether `c` has the Unicode `White_Space` property (as `char::is_whitespace`).
pub open spec fn spec_is_whitespace_char(c: char) -> bool {
    let n = c as u32;
    ||| 0x09 <= n <= 0x0D
    ||| n == 0x20
    ||| n == 0x85
    ||| n == 0xA0
    ||| n == 0x1680
    ||| 0x2000 <= n <= 0x200A
    ||| n == 0x2028
    ||| n == 0x2029
    ||| n == 0x202F
    ||| n == 0x205F
    ||| n == 0x3000
}

/// Whether every character of `s` is whitespace (true of the empty text).
pub open spec fn spec_is_whitespace(s: Seq<char>) -> bool {
    forall|i: int| 0 <= i < s.len() ==> spec_is_whitespace_char(#[trigger] s[i])
}

/// Whether `c` has the Unicode `White_Space` property.
pub fn is_whitespace_char(c: char) -> (r: bool)
    ensures
        r == spec_is_whitespace_char(c),
{
    let n = c as u32;
    (0x09 <= n && n <= 0x0D) || n == 0x20 || n == 0x85 || n == 0xA0 || n == 0x1680 || (0x2000 <= n && n <= 0x200A)
        || n == 0x2028 || n == 0x2029 || n == 0x202F || n == 0x205F || n == 0x3000
}

/// Whether every character of `s` is whitespace.
pub fn is_whitespace(s: &str) -> (r: bool)
    ensures
        r == spec_is_whitespace(s@),
{
    let chars = chars_of(s);
    let mut i: usize = 0;
    while i < chars.len()
        invariant
            chars@ == s@,
            i <= chars@.len(),
            forall|j: int| 0 <= j < i ==> spec_is_whitespace_char(#[trigger] chars@[j]),
        decreases chars.len() - i,
    {
        if !is_whitespace_char(chars[i]) {
            return false;
        }
        i = i + 1;
    }
    true
}

/// A node of an XML document: text or an element.
#[derive(Debug, PartialEq, Eq)]
pub enum Node {
    Text(String),
    Element(Element),
}

/// An XML element: a name, attributes and child nodes.
#[derive(Debug, PartialEq, Eq)]
pub struct Element {
    pub name: String,
    pub attributes: Attributes,
    pub children: Nodes,
}

/// A list of XML nodes.
#[derive(Debug, PartialEq, Eq)]
pub struct Nodes {
    pub nodes: Vec<Node>,
}

/// The attributes of an element, as (name, value) pairs in document order.
#[derive(Debug, Clone, PartialEq, Eq)]
pub struct Attributes {
    pub list: Vec<(String, String)>,
}

/// Why a document does not have the shape that was expected.
#[derive(Debug, PartialEq, Eq)]
pub enum Error {
    UnexpectedElementExpectedText(Element),
    UnexpectedElementExpectedElement(Element, String),
    UnexpectedTextExpectedElement(String, String),
    UnexpectedText(String),
    UnexpectedElementDuplicate(Element),
    UnexpectedAttributeDuplicate(String, String),
    MissingElement(String),
    MissingAttribute(String),
    IncorrectNodesCount(Vec<Node>, usize),
    IncorrectElementsCount(Vec<Element>, usize),
    /// A text that could not be read as the value expected; it holds the text.
    ParseError(String),
}

impl Node {
    /// Whether this node is text made only of whitespace.
    pub open spec fn spec_is_whitespace(self) -> bool {
        self matches Node::Text(t) && spec_is_whitespace(t@)
    }

    /// The text of this node, or the element it is.
    pub fn into_text(self) -> (r: Result<String, Element>)
        ensures
            r == match self {
                Node::Text(t) => Ok(t),
                Node::Element(e) => Err(e),
            },
    {
        match self {
            Node::Text(content) => Ok(content),
            Node::Element(element) => Err(element),
        }
    }

    /// The element of this node, or the text it is.
    pub fn into_element(self) -> (r: Result<Element, String>)
        ensures
            r == match self {
                Node::Text(t) => Err(t),
                Node::Element(e) => Ok(e),
            },
    {
        match self {
            Node::Text(content) => Err(content),
            Node::Element(element) => Ok(element),
        }
    }

    /// Nothing for whitespace text, else the element or the text.
    fn into_element_ignore_whitespace(self) -> (r: Option<Result<Element, String>>)
        ensures
            r == match self {
                Node::Text(t) => if spec_is_whitespace(t@) { None } else { Some(Err(t)) },
                Node::Element(e) => Some(Ok(e)),
            },
    {
        match self {
            Node::Text(content) => {
                if is_whitespace(content.as_str()) {
                    None
                } else {
                    Some(Err(content))
                }
            },
            Node::Element(element) => Some(Ok(element)),
        }
    }

    /// Whether this node is text made only of whitespace.
    pub fn is_whitespace(&self) -> (r: bool)
        ensures
            r == self.spec_is_whitespace(),
    {
        match self {
            Node::Text(content) => is_whitespace(content.as_str()),
            Node::Element(_) => false,
        }
    }
}

/// Whether `b` is the same tree as `a`: the same texts, names and
/// attributes, node for node.
pub open spec fn same_node(a: Node, b: Node) -> bool
    decreases a, 1int,
{
    match a {
        Node::Text(t) => b matches Node::Text(u) && u@ == t@,
        Node::Element(e) => b matches Node::Element(f) && same_element(e, f),
    }
}

/// Whether `b` is the same element as `a`, everything below included.
pub open spec fn same_element(a: Element, b: Element) -> bool
    decreases a, 0int,
{
    &&& b.name@ == a.name@
    &&& b.attributes.list@ == a.attributes.list@
    &&& same_nodes(a.children, b.children)
}

/// Whether `b` holds the same trees as `a`, in order.
pub open spec fn same_nodes(a: Nodes, b: Nodes) -> bool
    decreases a, 0int,
{
    &&& b.nodes@.len() == a.nodes@.len()
    &&& forall|i: int| 0 <= i < a.nodes@.len() ==> {
        proof { assert(decreases_to!(a => a.nodes@[i])); }
        same_node(#[trigger] a.nodes@[i], b.nodes@[i])
    }
}

impl Node {
    /// A copy of this node and everything below it.
    pub fn duplicate(&self) -> (r: Node)
        ensures
            same_node(*self, r),
            r.spec_is_whitespace() == self.spec_is_whitespace(),
        decreases self,
    {
        match self {
            Node::Text(t) => Node::Text(t.clone()),
            Node::Element(e) => Node::Element(e.duplicate()),
        }
    }
}

impl Element {
    /// A copy of this element and everything below it.
    pub fn duplicate(&self) -> (r: Element)
        ensures
            same_element(*self, r),
            r.name@ == self.name@,
            r.attributes.list@ == self.attributes.list@,
            r.children.nodes@.len() == self.children.nodes@.len(),
        decreases self,
    {
        Element { name: self.name.clone(), attributes: self.attributes.duplicate(), children: self.children.duplicate() }
    }
}

impl Nodes {
    /// A copy of these nodes and everything below them.
    pub fn duplicate(&self) -> (r: Nodes)
        ensures
            same_nodes(*self, r),
            r.nodes@.len() == self.nodes@.len(),
            forall|i: int| 0 <= i < r.nodes@.len() ==> (#[trigger] r.nodes@[i]).spec_is_whitespace() == self.nodes@[i].spec_is_whitespace(),
        decreases self,
    {
        let mut v: Vec<Node> = Vec::new();
        let mut i: usize = 0;
        while i < self.nodes.len()
            invariant
                i <= self.nodes@.len(),
                v@.len() == i,
                forall|j: int| 0 <= j < i ==> same_node(#[trigger] self.nodes@[j], v@[j]),
                forall|j: int| 0 <= j < i ==> (#[trigger] v@[j]).spec_is_whitespace() == self.nodes@[j].spec_is_whitespace(),
            decreases self.nodes.len() - i,
        {
            proof {
                assert(decreases_to!(self => self.nodes@[i as int]));
            }
            v.push(self.nodes[i].duplicate());
            i = i + 1;
        }
        Nodes { nodes: v }
    }
}

impl Attributes {
    /// A copy of these attributes.
    pub fn duplicate(&self) -> (r: Attributes)
        ensures
            r.list@ == self.list@,
    {
        let mut v: Vec<(String, String)> = Vec::new();
        let mut i: usize = 0;
        while i < self.list.len()
            invariant
                i <= self.list@.len(),
                v@ == self.list@.take(i as int),
            decreases self.list.len() - i,
        {
            let pair = (self.list[i].0.clone(), self.list[i].1.clone());
            v.push(pair);
            proof {
                assert(self.list@.take(i as int + 1) == self.list@.take(i as int).push(self.list@[i as int]));
            }
            i = i + 1;
        }
        proof {
            assert(self.list@.take(i as int) == self.list@);
        }
        Attributes { list: v }
    }

    /// No attributes.
    pub fn new() -> (r: Attributes)
        ensures
            r.list@.len() == 0,
    {
        Attributes { list: Vec::new() }
    }
}

impl Element {
    /// The element named `name`, with no attributes, holding `children`.
    pub fn new(name: String, children: Nodes) -> (r: Element)
        ensures
            r.name == name,
            r.attributes.list@.len() == 0,
            r.children == children,
    {
        Element { name, attributes: Attributes::new(), children }
    }

    /// The element named `name`, with `attributes`, holding `children`.
    pub fn with_attributes(name: String, attributes: Attributes, children: Nodes) -> (r: Element)
        ensures
            r == (Element { name, attributes, children }),
    {
        Element { name, attributes, children }
    }

    /// Succeeds when this element is named `name`; otherwise the error holds a
    /// copy of this element and `name`.
    pub fn expect_named(&self, name: &str) -> (r: Result<(), Error>)
        ensures
            r is Ok <==> self.name@ == name@,
            r matches Err(Error::UnexpectedElementExpectedElement(e, n)) ==> n@ == name@ && same_element(*self, e),
            r is Err ==> r matches Err(Error::UnexpectedElementExpectedElement(_, _)),
    {
        if crate::text::str_eq(self.name.as_str(), name) {
            Ok(())
        } else {
            Err(Error::UnexpectedElementExpectedElement(self.duplicate(), name.to_owned()))
        }
    }

    /// The value of the first attribute named `attribute_name`.
    pub fn find_attribute(&self, attribute_name: &str) -> (r: Result<&String, Error>)
        ensures
            match r {
                Ok(v) => exists|i: int| 0 <= i < self.attributes.list@.len()
                    && self.attributes.list@[i].0@ == attribute_name@
                    && *v == self.attributes.list@[i].1
                    && forall|j: int| 0 <= j < i ==> (#[trigger] self.attributes.list@[j]).0@ != attribute_name@,
                Err(e) => e matches Error::MissingAttribute(n) && n@ == attribute_name@
                    && forall|j: int| 0 <= j < self.attributes.list@.len() ==> (#[trigger] self.attributes.list@[j]).0@ != attribute_name@,
            },
    {
        let list = &self.attributes.list;
        let mut i: usize = 0;
        while i < list.len()
            invariant
                i <= list@.len(),
                list@ == self.attributes.list@,
                forall|j: int| 0 <= j < i ==> (#[trigger] list@[j]).0@ != attribute_name@,
            decreases list.len() - i,
        {
            if crate::text::str_eq(list[i].0.as_str(), attribute_name) {
                let v = &list[i].1;
                assert(0 <= i < self.attributes.list@.len() && self.attributes.list@[i as int].0@ == attribute_name@
                    && *v == self.attributes.list@[i as int].1);
                return Ok(v);
            }
            i = i + 1;
        }
        Err(Error::MissingAttribute(attribute_name.to_owned()))
    }
}

} // verus!

verus! {

/// The text of the text nodes of `nodes`, one after the other.
pub open spec fn spec_concat_texts(nodes: Seq<Node>) -> Seq<char>
    decreases nodes.len(),
{
    if nodes.len() == 0 {
        Seq::empty()
    } else {
        spec_concat_texts(nodes.drop_last()) + match nodes.last() {
            Node::Text(t) => t@,
            Node::Element(_) => Seq::empty(),
        }
    }
}

/// Whether some node of `nodes` is an element.
pub open spec fn has_element(nodes: Seq<Node>) -> bool {
    exists|i: int| 0 <= i < nodes.len() && #[trigger] nodes[i] is Element
}

impl Nodes {
    /// The text of these nodes when all are text; else the first element.
    pub fn try_into_text(self) -> (r: Result<String, Element>)
        ensures
            !has_element(self.nodes@) ==> (r matches Ok(s) && s@ == spec_concat_texts(self.nodes@)),
            has_element(self.nodes@) ==> exists|i: int| 0 <= i < self.nodes@.len() && self.nodes@[i] is Element
                && r == Err::<String, Element>(self.nodes@[i]->Element_0)
                && forall|j: int| 0 <= j < i ==> !(#[trigger] self.nodes@[j] is Element),
    {
        let ghost all = self.nodes@;
        let mut out: Vec<char> = Vec::new();
        for node in it: self.nodes
            invariant
                it.seq() == all,
                out@ == spec_concat_texts(all.take(it.index() as int)),
                forall|j: int| 0 <= j < it.index() ==> !(#[trigger] all[j] is Element),
        {
            proof {
                assert(all.take(it.index() as int + 1).drop_last() == all.take(it.index() as int));
            }
            match node {
                Node::Text(t) => {
                    let chars = chars_of(t.as_str());
                    let mut k: usize = 0;
                    let ghost before = out@;
                    while k < chars.len()
                        invariant
                            k <= chars@.len(),
                            out@ == before + chars@.take(k as int),
                        decreases chars.len() - k,
                    {
                        out.push(chars[k]);
                        proof {
                            assert(chars@.take(k as int + 1) == chars@.take(k as int).push(chars@[k as int]));
                        }
                        k = k + 1;
                    }
                    proof {
                        assert(chars@.take(k as int) == chars@);
                    }
                },
                Node::Element(e) => {
                    return Err(e);
                },
            }
        }
        proof {
            assert(all.take(all.len() as int) == all);
        }
        Ok(string_from_chars(&out))
    }
}

} // verus!

verus! {

/// The nodes of `nodes` that are not whitespace text, in order.
pub open spec fn spec_non_whitespace(nodes: Seq<Node>) -> Seq<Node> {
    nodes.filter(|n: Node| !n.spec_is_whitespace())
}

/// The elements of `nodes` in order, skipping whitespace text; or the first
/// text that is not whitespace.
pub open spec fn spec_elements(nodes: Seq<Node>) -> Result<Seq<Element>, String>
    decreases nodes.len(),
{
    if nodes.len() == 0 {
        Ok(Seq::empty())
    } else {
        match nodes[0] {
            Node::Text(t) => if spec_is_whitespace(t@) { spec_elements(nodes.drop_first()) } else { Err(t) },
            Node::Element(e) => match spec_elements(nodes.drop_first()) {
                Ok(es) => Ok(seq![e] + es),
                Err(t) => Err(t),
            },
        }
    }
}

/// The first position of `name` in `names`, or -1.
pub open spec fn spec_name_index(names: Seq<Seq<char>>, name: Seq<char>) -> int
    decreases names.len(),
{
    if names.len() == 0 {
        -1
    } else if names[0] == name {
        0
    } else {
        let r = spec_name_index(names.drop_first(), name);
        if r < 0 { -1 } else { r + 1 }
    }
}

/// The element slots after reading `nodes` in order: each element whose name
/// is among `names` fills the slot of the first such name; an element whose
/// slot is already filled stops the reading with the element found first.
pub open spec fn spec_find_elements(nodes: Seq<Node>, names: Seq<Seq<char>>) -> Result<Seq<Option<Element>>, Element>
    decreases nodes.len(),
{
    if nodes.len() == 0 {
        Ok(Seq::new(names.len(), |i: int| None))
    } else {
        match spec_find_elements(nodes.drop_last(), names) {
            Err(e) => Err(e),
            Ok(slots) => match nodes.last() {
                Node::Text(_) => Ok(slots),
                Node::Element(e) => {
                    let i = spec_name_index(names, e.name@);
                    if i < 0 {
                        Ok(slots)
                    } else {
                        match slots[i] {
                            Some(first) => Err(first),
                            None => Ok(slots.update(i, Some(e))),
                        }
                    }
                },
            },
        }
    }
}

/// The views of the strings of `names`.
pub open spec fn names_view(names: Seq<&str>) -> Seq<Seq<char>> {
    names.map_values(|n: &str| n@)
}

/// A name's position is -1 or a position of the list.
pub proof fn lemma_name_index_bounds(names: Seq<Seq<char>>, name: Seq<char>)
    ensures
        -1 <= spec_name_index(names, name) < names.len(),
        spec_name_index(names, name) >= 0 ==> names[spec_name_index(names, name)] == name,
    decreases names.len(),
{
    if names.len() > 0 && names[0] != name {
        lemma_name_index_bounds(names.drop_first(), name);
    }
}

fn name_index(names: &[&str], name: &str) -> (r: Option<usize>)
    ensures
        match r {
            Some(i) => i == spec_name_index(names_view(names@), name@),
            None => spec_name_index(names_view(names@), name@) < 0,
        },
{
    let mut i: usize = 0;
    proof {
        assert(names_view(names@).skip(0) == names_view(names@));
    }
    while i < names.len()
        invariant
            i <= names@.len(),
            spec_name_index(names_view(names@), name@) == {
                let r = spec_name_index(names_view(names@).skip(i as int), name@);
                if r < 0 { -1 } else { r + i }
            },
        decreases names.len() - i,
    {
        proof {
            assert(names_view(names@).skip(i as int).drop_first() == names_view(names@).skip(i as int + 1));
        }
        if crate::text::str_eq(names[i], name) {
            return Some(i);
        }
        i = i + 1;
    }
    None
}

impl Nodes {
    /// No nodes.
    pub fn new() -> (r: Nodes)
        ensures
            r.nodes@.len() == 0,
    {
        Nodes { nodes: Vec::new() }
    }

    /// The single text node `text`.
    pub fn new_text(text: String) -> (r: Nodes)
        ensures
            r.nodes@ == seq![Node::Text(text)],
    {
        Nodes { nodes: vec![Node::Text(text)] }
    }

    /// The single node `node`.
    pub fn new_one(node: Node) -> (r: Nodes)
        ensures
            r.nodes@ == seq![node],
    {
        Nodes { nodes: vec![node] }
    }

    /// The nodes that are not whitespace text, in order.
    fn into_non_whitespace(self) -> (r: Vec<Node>)
        ensures
            r@ == spec_non_whitespace(self.nodes@),
    {
        let ghost all = self.nodes@;
        let mut out: Vec<Node> = Vec::new();
        for node in it: self.nodes
            invariant
                it.seq() == all,
                out@ == spec_non_whitespace(all.take(it.index() as int)),
        {
            proof {
                reveal_with_fuel(Seq::filter, 1);
                assert(all.take(it.index() as int + 1).drop_last() == all.take(it.index() as int));
            }
            if !node.is_whitespace() {
                out.push(node);
            }
        }
        proof {
            assert(all.take(all.len() as int) == all);
        }
        out
    }

    /// The nodes that are not whitespace text, if there are exactly `n`;
    /// otherwise the error holds them and `n`.
    pub fn try_into_nodes_array(self, n: usize) -> (r: Result<Vec<Node>, Error>)
        ensures
            match r {
                Ok(v) => v@ == spec_non_whitespace(self.nodes@) && v@.len() == n,
                Err(Error::IncorrectNodesCount(v, m)) => v@ == spec_non_whitespace(self.nodes@) && v@.len() != n && m == n,
                Err(_) => false,
            },
    {
        let v = self.into_non_whitespace();
        if v.len() == n {
            Ok(v)
        } else {
            Err(Error::IncorrectNodesCount(v, n))
        }
    }

    /// The elements, skipping whitespace text; the first other text is an
    /// error.
    pub fn try_into_elements_vec(self) -> (r: Result<Vec<Element>, Error>)
        ensures
            match spec_elements(self.nodes@) {
                Ok(es) => r matches Ok(v) && v@ == es,
                Err(t) => r == Err::<Vec<Element>, Error>(Error::UnexpectedText(t)),
            },
    {
        let ghost all = self.nodes@;
        let mut out: Vec<Element> = Vec::new();
        proof {
            assert(all.skip(0) == all);
            match spec_elements(all) {
                Ok(es) => {
                    assert(out@ + es == es);
                },
                Err(_) => {},
            }
        }
        for node in it: self.nodes
            invariant
                it.seq() == all,
                spec_elements(all) == match spec_elements(all.skip(it.index() as int)) {
                    Ok(es) => Ok(out@ + es),
                    Err(t) => Err(t),
                },
        {
            let ghost i = it.index() as int;
            proof {
                assert(all.skip(i).drop_first() == all.skip(i + 1));
                assert(all.skip(i)[0] == all[i]);
            }
            match node.into_element_ignore_whitespace() {
                None => {},
                Some(Ok(e)) => {
                    proof {
                        match spec_elements(all.skip(i + 1)) {
                            Ok(es) => {
                                assert(out@.push(e) + es == out@ + (seq![e] + es));
                            },
                            Err(_) => {},
                        }
                    }
                    out.push(e);
                },
                Some(Err(t)) => {
                    return Err(Error::UnexpectedText(t));
                },
            }
        }
        proof {
            assert(all.skip(all.len() as int) == Seq::<Node>::empty());
            assert(out@ + Seq::<Element>::empty() == out@);
        }
        Ok(out)
    }

    /// The elements, if there are exactly `n` and no text but whitespace.
    pub fn try_into_elements_array(self, n: usize) -> (r: Result<Vec<Element>, Error>)
        ensures
            match spec_elements(self.nodes@) {
                Ok(es) => if es.len() == n {
                    r matches Ok(v) && v@ == es
                } else {
                    r matches Err(Error::IncorrectElementsCount(v, m)) && v@ == es && m == n
                },
                Err(t) => r == Err::<Vec<Element>, Error>(Error::UnexpectedText(t)),
            },
    {
        let v = self.try_into_elements_vec()?;
        if v.len() == n {
            Ok(v)
        } else {
            Err(Error::IncorrectElementsCount(v, n))
        }
    }

    /// The one node that is not whitespace text.
    pub fn try_into_one_node(self) -> (r: Result<Node, Error>)
        ensures
            spec_non_whitespace(self.nodes@).len() == 1 ==> r == Ok::<Node, Error>(spec_non_whitespace(self.nodes@)[0]),
            spec_non_whitespace(self.nodes@).len() != 1 ==> (r matches Err(Error::IncorrectNodesCount(v, m))
                && v@ == spec_non_whitespace(self.nodes@) && m == 1),
    {
        let mut v = self.try_into_nodes_array(1)?;
        let node = v.pop().unwrap();
        Ok(node)
    }

    /// The one element, when it is alone but for whitespace text.
    pub fn try_into_one_element(self) -> (r: Result<Element, Error>)
        ensures
            match spec_elements(self.nodes@) {
                Ok(es) => if es.len() == 1 {
                    r == Ok::<Element, Error>(es[0])
                } else {
                    r matches Err(Error::IncorrectElementsCount(v, m)) && v@ == es && m == 1
                },
                Err(t) => r == Err::<Element, Error>(Error::UnexpectedText(t)),
            },
    {
        let mut v = self.try_into_elements_array(1)?;
        let element = v.pop().unwrap();
        Ok(element)
    }

    /// For each of `names`, the element of that name; an element found twice
    /// is an error that holds the one found first.
    pub fn find_elements(self, names: &[&str]) -> (r: Result<Vec<Option<Element>>, Error>)
        ensures
            match spec_find_elements(self.nodes@, names_view(names@)) {
                Ok(slots) => r matches Ok(v) && v@ == slots,
                Err(e) => r == Err::<Vec<Option<Element>>, Error>(Error::UnexpectedElementDuplicate(e)),
            },
    {
        let ghost all = self.nodes@;
        let ghost nv = names_view(names@);
        let mut slots: Vec<Option<Element>> = Vec::new();
        let mut k: usize = 0;
        while k < names.len()
            invariant
                k <= names@.len(),
                slots@ == Seq::new(k as nat, |i: int| None::<Element>),
            decreases names.len() - k,
        {
            slots.push(None);
            proof {
                assert(slots@ == Seq::new(k as nat + 1, |i: int| None::<Element>));
            }
            k = k + 1;
        }
        proof {
            assert(all.take(0) == Seq::<Node>::empty());
            assert(slots@ == spec_find_elements(all.take(0), nv)->Ok_0);
        }
        for node in it: self.nodes
            invariant
                it.seq() == all,
                nv == names_view(names@),
                spec_find_elements(all.take(it.index() as int), nv) == Ok::<Seq<Option<Element>>, Element>(slots@),
                slots@.len() == nv.len(),
        {
            let ghost i = it.index() as int;
            proof {
                assert(all.take(i + 1).drop_last() == all.take(i));
                assert(all.take(i + 1).last() == all[i]);
            }
            match node {
                Node::Text(_) => {},
                Node::Element(e) => {
                    let found = name_index(names, e.name.as_str());
                    proof {
                        lemma_name_index_bounds(nv, e.name@);
                    }
                    if let Some(at) = found {
                        let ghost old_slots = slots@;
                        match slots.remove(at) {
                            Some(first) => {
                                proof {
                                    assert(all[i] == Node::Element(e));
                                    assert(at as int == spec_name_index(nv, e.name@));
                                    assert(old_slots[at as int] == Some(first));
                                    assert(spec_find_elements(all.take(i + 1), nv) == Err::<Seq<Option<Element>>, Element>(first));
                                    lemma_find_elements_stays_failed(all, nv, i + 1);
                                }
                                return Err(Error::UnexpectedElementDuplicate(first));
                            },
                            None => {
                                slots.insert(at, Some(e));
                                proof {
                                    assert(slots@ == old_slots.update(at as int, Some(e)));
                                }
                            },
                        }
                    }
                },
            }
        }
        proof {
            assert(all.take(all.len() as int) == all);
        }
        Ok(slots)
    }

    /// The nodes that are not whitespace text, in order.
    pub fn iter(&self) -> (r: Vec<&Node>)
        ensures
            r@.map_values(|n: &Node| *n) == spec_non_whitespace(self.nodes@),
    {
        let mut out: Vec<&Node> = Vec::new();
        let mut i: usize = 0;
        while i < self.nodes.len()
            invariant
                i <= self.nodes@.len(),
                out@.map_values(|n: &Node| *n) == spec_non_whitespace(self.nodes@.take(i as int)),
            decreases self.nodes.len() - i,
        {
            proof {
                reveal_with_fuel(Seq::filter, 1);
                assert(self.nodes@.take(i as int + 1).drop_last() == self.nodes@.take(i as int));
            }
            let node = &self.nodes[i];
            if !node.is_whitespace() {
                let ghost before = out@;
                out.push(node);
                proof {
                    assert(out@.map_values(|n: &Node| *n) == before.map_values(|n: &Node| *n).push(*node));
                }
            }
            i = i + 1;
        }
        proof {
            assert(self.nodes@.take(i as int) == self.nodes@);
        }
        out
    }

    /// All the nodes, whitespace text included.
    pub fn into_iter_raw(self) -> (r: Vec<Node>)
        ensures
            r@ == self.nodes@,
    {
        self.nodes
    }

    /// All the nodes, whitespace text included.
    pub fn iter_raw(&self) -> (r: &[Node])
        ensures
            r@ == self.nodes@,
    {
        self.nodes.as_slice()
    }

    /// All the nodes, whitespace text included, to change in place.
    pub fn iter_mut_raw(&mut self) -> (r: &mut Vec<Node>)
        ensures
            *r == old(self).nodes,
            final(self).nodes == *final(r),
    {
        &mut self.nodes
    }
}

/// Once reading for elements has failed, reading more nodes keeps the failure.
pub proof fn lemma_find_elements_stays_failed(nodes: Seq<Node>, names: Seq<Seq<char>>, k: int)
    requires
        0 <= k <= nodes.len(),
        spec_find_elements(nodes.take(k), names) is Err,
    ensures
        spec_find_elements(nodes, names) == spec_find_elements(nodes.take(k), names),
    decreases nodes.len() - k,
{
    if k < nodes.len() {
        assert(nodes.take(k + 1).drop_last() == nodes.take(k));
        lemma_find_elements_stays_failed(nodes, names, k + 1);
    } else {
        assert(nodes.take(k) == nodes);
    }
}

} // verus!

verus! {

/// The value slots after reading `list` in order: each attribute whose name is
/// among `names` fills the slot of the first such name; an attribute whose slot
/// is already filled stops the reading with its name and the value found first.
pub open spec fn spec_find_attributes(list: Seq<(String, String)>, names: Seq<Seq<char>>) -> Result<Seq<Option<String>>, (String, String)>
    decreases list.len(),
{
    if list.len() == 0 {
        Ok(Seq::new(names.len(), |i: int| None))
    } else {
        match spec_find_attributes(list.drop_last(), names) {
            Err(e) => Err(e),
            Ok(slots) => {
                let (name, value) = list.last();
                let i = spec_name_index(names, name@);
                if i < 0 {
                    Ok(slots)
                } else {
                    match slots[i] {
                        Some(first) => Err((name, first)),
                        None => Ok(slots.update(i, Some(value))),
                    }
                }
            },
        }
    }
}

/// Once reading for attributes has failed, reading more keeps the failure.
pub proof fn lemma_find_attributes_stays_failed(list: Seq<(String, String)>, names: Seq<Seq<char>>, k: int)
    requires
        0 <= k <= list.len(),
        spec_find_attributes(list.take(k), names) is Err,
    ensures
        spec_find_attributes(list, names) == spec_find_attributes(list.take(k), names),
    decreases list.len() - k,
{
    if k < list.len() {
        assert(list.take(k + 1).drop_last() == list.take(k));
        lemma_find_attributes_stays_failed(list, names, k + 1);
    } else {
        assert(list.take(k) == list);
    }
}

impl Attributes {
    /// For each of `names`, the value of the attribute of that name; an
    /// attribute found twice is an error that holds its name and the value
    /// found first.
    pub fn find_attributes(self, names: &[&str]) -> (r: Result<Vec<Option<String>>, Error>)
        ensures
            match spec_find_attributes(self.list@, names_view(names@)) {
                Ok(slots) => r matches Ok(v) && v@ == slots,
                Err((n, v)) => r == Err::<Vec<Option<String>>, Error>(Error::UnexpectedAttributeDuplicate(n, v)),
            },
    {
        let ghost all = self.list@;
        let ghost nv = names_view(names@);
        let mut slots: Vec<Option<String>> = Vec::new();
        let mut k: usize = 0;
        while k < names.len()
            invariant
                k <= names@.len(),
                slots@ == Seq::new(k as nat, |i: int| None::<String>),
            decreases names.len() - k,
        {
            slots.push(None);
            proof {
                assert(slots@ == Seq::new(k as nat + 1, |i: int| None::<String>));
            }
            k = k + 1;
        }
        proof {
            assert(all.take(0) == Seq::<(String, String)>::empty());
            assert(slots@ == spec_find_attributes(all.take(0), nv)->Ok_0);
        }
        for pair in it: self.list
            invariant
                it.seq() == all,
                nv == names_view(names@),
                spec_find_attributes(all.take(it.index() as int), nv) == Ok::<Seq<Option<String>>, (String, String)>(slots@),
                slots@.len() == nv.len(),
        {
            let ghost i = it.index() as int;
            proof {
                assert(all.take(i + 1).drop_last() == all.take(i));
                assert(all.take(i + 1).last() == all[i]);
            }
            let (name, value) = pair;
            let found = name_index(names, name.as_str());
            proof {
                lemma_name_index_bounds(nv, name@);
            }
            if let Some(at) = found {
                let ghost old_slots = slots@;
                match slots.remove(at) {
                    Some(first) => {
                        proof {
                            assert(old_slots[at as int] == Some(first));
                            assert(spec_find_attributes(all.take(i + 1), nv) == Err::<Seq<Option<String>>, (String, String)>((name, first)));
                            lemma_find_attributes_stays_failed(all, nv, i + 1);
                        }
                        return Err(Error::UnexpectedAttributeDuplicate(name, first));
                    },
                    None => {
                        slots.insert(at, Some(value));
                        proof {
                            assert(slots@ == old_slots.update(at as int, Some(value)));
                        }
                    },
                }
            }
        }
        proof {
            assert(all.take(all.len() as int) == all);
        }
        Ok(slots)
    }
}

/// The single text node holding `text`: how a value is written through its
/// display form.
pub fn serialize_nodes_display(text: String) -> (r: Nodes)
    ensures
        r.nodes@ == seq![Node::Text(text)],
{
    Nodes::new_text(text)
}

/// Reads `nodes` as a `usize` written in decimal: their text when they hold
/// only text, parsed as `usize::from_str` does.
pub fn deserialize_nodes_parse(nodes: Nodes) -> (r: Result<usize, Error>)
    ensures
        has_element(nodes.nodes@) ==> r matches Err(Error::UnexpectedElementExpectedText(_)),
        !has_element(nodes.nodes@) ==> match spec_parse_usize(spec_concat_texts(nodes.nodes@)) {
            Some(n) => r == Ok::<usize, Error>(n),
            None => r matches Err(Error::ParseError(t)) && t@ == spec_concat_texts(nodes.nodes@),
        },
{
    match nodes.try_into_text() {
        Ok(content) => match parse_usize(content.as_str()) {
            Some(n) => Ok(n),
            None => Err(Error::ParseError(content)),
        },
        Err(element) => Err(Error::UnexpectedElementExpectedText(element)),
    }
}

impl Error {
    /// An element met twice.
    pub fn unexpected_element_duplicate(element: Element) -> (r: Error)
        ensures
            r == Error::UnexpectedElementDuplicate(element),
    {
        Error::UnexpectedElementDuplicate(element)
    }

    /// An element met where text was expected.
    pub fn unexpected_element_expected_text(element: Element) -> (r: Error)
        ensures
            r == Error::UnexpectedElementExpectedText(element),
    {
        Error::UnexpectedElementExpectedText(element)
    }

    /// An element met where the element `name` was expected.
    pub fn unexpected_element_expected_element(element: Element, name: String) -> (r: Error)
        ensures
            r == Error::UnexpectedElementExpectedElement(element, name),
    {
        Error::UnexpectedElementExpectedElement(element, name)
    }

    /// Text met where the element `name` was expected.
    pub fn unexpected_text_expected_element(text: String, name: String) -> (r: Error)
        ensures
            r == Error::UnexpectedTextExpectedElement(text, name),
    {
        Error::UnexpectedTextExpectedElement(text, name)
    }

    /// Text met where none was expected.
    pub fn unexpected_text(text: String) -> (r: Error)
        ensures
            r == Error::UnexpectedText(text),
    {
        Error::UnexpectedText(text)
    }

    /// The element `name` is missing.
    pub fn missing_element(name: String) -> (r: Error)
        ensures
            r == Error::MissingElement(name),
    {
        Error::MissingElement(name)
    }

    /// The attribute `name` is missing.
    pub fn missing_attribute(name: String) -> (r: Error)
        ensures
            r == Error::MissingAttribute(name),
    {
        Error::MissingAttribute(name)
    }
}

/// The XML declaration written before a document.
#[derive(Debug, Clone, Copy, PartialEq, Eq)]
pub struct Version {
    pub version: &'static str,
    pub encoding: Option<&'static str>,
    pub standalone: Option<&'static str>,
}

impl Version {
    /// Version 1.0, with no encoding and no standalone declaration.
    pub fn version_1_0() -> (r: Version)
        ensures
            r.version@ == "1.0"@,
            r.encoding is None,
            r.standalone is None,
    {
        Version { version: "1.0", encoding: None, standalone: None }
    }
}

impl Default for Version {
    /// Version 1.0.
    fn default() -> (r: Version)
        ensures
            r.version@ == "1.0"@,
            r.encoding is None,
            r.standalone is None,
    {
        Version::version_1_0()
    }
}

/// How written documents are indented.
#[derive(Debug, Clone, Copy, PartialEq, Eq, Structural)]
pub struct Indent {
    pub indent_char: u8,
    pub indent_size: usize,
}

impl Default for Indent {
    /// Two spaces.
    fn default() -> (r: Indent)
        ensures
            r == (Indent { indent_char: 32u8, indent_size: 2 }),
    {
        Indent { indent_char: 32u8, indent_size: 2 }
    }
}

} // verus!

verus! {

/// Reading for elements that succeeds gives one slot per name.
pub proof fn lemma_find_elements_len(nodes: Seq<Node>, names: Seq<Seq<char>>)
    ensures
        spec_find_elements(nodes, names) matches Ok(slots) ==> slots.len() == names.len(),
    decreases nodes.len(),
{
    if nodes.len() > 0 {
        lemma_find_elements_len(nodes.drop_last(), names);
        lemma_name_index_bounds(names, match nodes.last() { Node::Element(e) => e.name@, Node::Text(t) => t@ });
    }
}

/// Reading for attributes that succeeds gives one slot per name.
pub proof fn lemma_find_attributes_len(list: Seq<(String, String)>, names: Seq<Seq<char>>)
    ensures
        spec_find_attributes(list, names) matches Ok(slots) ==> slots.len() == names.len(),
    decreases list.len(),
{
    if list.len() > 0 {
        lemma_find_attributes_len(list.drop_last(), names);
        lemma_name_index_bounds(names, list.last().0@);
    }
}

} // verus!
