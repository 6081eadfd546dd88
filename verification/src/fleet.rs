use vstd::prelude::*;
use crate::xml::{Node, Element, Nodes, Error, has_element, spec_concat_texts, same_element};
use crate::text::{str_eq, chars_of, string_from_chars, parse_usize, spec_parse_usize, usize_to_decimal, spec_decimal};
use crate::naming::{apply_double_suffix, spec_apply_double_suffix, spec_strip_multiplier, strip_multiplier};

verus! {

/// Whether `n` is an element named `name`.
pub open spec fn is_named(n: Node, name: Seq<char>) -> bool {
    n matches Node::Element(e) && e.name@ == name
}

/// Whether some node of `nodes` is an element named `name`.
pub open spec fn has_named(nodes: Seq<Node>, name: Seq<char>) -> bool {
    exists|i: int| 0 <= i < nodes.len() && is_named(#[trigger] nodes[i], name)
}

/// Whether `i` is the position of the first element of `nodes` named `name`.
pub open spec fn is_first_named(nodes: Seq<Node>, name: Seq<char>, i: int) -> bool {
    &&& 0 <= i < nodes.len()
    &&& is_named(nodes[i], name)
    &&& forall|j: int| 0 <= j < i ==> !is_named(#[trigger] nodes[j], name)
}

/// The position of the first element of `nodes` named `name`.
pub fn child_index(nodes: &Vec<Node>, name: &str) -> (r: Option<usize>)
    ensures
        match r {
            Some(i) => is_first_named(nodes@, name@, i as int),
            None => !has_named(nodes@, name@),
        },
{
    let mut i: usize = 0;
    while i < nodes.len()
        invariant
            i <= nodes@.len(),
            forall|j: int| 0 <= j < i ==> !is_named(#[trigger] nodes@[j], name@),
        decreases nodes.len() - i,
    {
        if let Node::Element(e) = &nodes[i] {
            if str_eq(e.name.as_str(), name) {
                return Some(i);
            }
        }
        i = i + 1;
    }
    None
}

/// The text held by the first child element of `element` named `name`:
/// missing when there is none, and refused when it holds an element.
pub open spec fn spec_child_text(element: Element, name: Seq<char>) -> Option<Seq<char>> {
    let nodes = element.children.nodes@;
    if has_named(nodes, name) {
        let i = choose|i: int| is_first_named(nodes, name, i);
        let inner = nodes[i]->Element_0.children.nodes@;
        if has_element(inner) { None } else { Some(spec_concat_texts(inner)) }
    } else {
        None
    }
}

/// Whether the first element of `nodes` is the same tree as `found` (see
/// [`same_element`]).
pub open spec fn first_element_is(nodes: Seq<Node>, found: Element) -> bool {
    exists|j: int| #![trigger nodes[j]]
        0 <= j < nodes.len() && nodes[j] is Element && same_element(nodes[j]->Element_0, found)
        && forall|m: int| 0 <= m < j ==> !(#[trigger] nodes[m] is Element)
}

/// Whether `found` is the first element held by the first child element of
/// `element` named `name`.
pub open spec fn is_first_inner_element(element: Element, name: Seq<char>, found: Element) -> bool {
    exists|i: int| #![trigger is_first_named(element.children.nodes@, name, i)]
        is_first_named(element.children.nodes@, name, i)
        && first_element_is(element.children.nodes@[i]->Element_0.children.nodes@, found)
}

/// The text held by the first child element of `element` named `name`.
pub fn child_text(element: &Element, name: &str) -> (r: Result<String, Error>)
    ensures
        !has_named(element.children.nodes@, name@) <==> (r matches Err(Error::MissingElement(n)) && n@ == name@),
        match spec_child_text(*element, name@) {
            Some(t) => r matches Ok(s) && s@ == t,
            None => r is Err,
        },
        has_named(element.children.nodes@, name@) && spec_child_text(*element, name@) is None
            ==> (r matches Err(Error::UnexpectedElementExpectedText(e)) && is_first_inner_element(*element, name@, e)),
{
    let nodes = &element.children.nodes;
    let i = match child_index(nodes, name) {
        Some(i) => i,
        None => return Err(Error::MissingElement(name.to_owned())),
    };
    proof {
        let k = choose|k: int| is_first_named(nodes@, name@, k);
        assert(is_first_named(nodes@, name@, k));
        if k < i {
            assert(!is_named(nodes@[k], name@));
        } else if i < k {
            assert(!is_named(nodes@[i as int], name@));
        }
        assert(k == i);
    }
    let inner = match &nodes[i] {
        Node::Element(e) => &e.children.nodes,
        Node::Text(_) => return Err(Error::MissingElement(name.to_owned())),
    };
    let ghost all = inner@;
    let mut out: Vec<char> = Vec::new();
    let mut j: usize = 0;
    while j < inner.len()
        invariant
            j <= all.len(),
            all == inner@,
            is_first_named(nodes@, name@, i as int),
            all == nodes@[i as int]->Element_0.children.nodes@,
            nodes == &element.children.nodes,
            out@ == spec_concat_texts(all.take(j as int)),
            forall|m: int| 0 <= m < j ==> !(#[trigger] all[m] is Element),
        decreases inner.len() - j,
    {
        proof {
            assert(all.take(j as int + 1).drop_last() == all.take(j as int));
        }
        match &inner[j] {
            Node::Text(t) => {
                let chars = chars_of(t.as_str());
                let mut k: usize = 0;
                let ghost before = out@;
                while k < chars.len()
                    invariant
                        k <= chars@.len(),
                        out@ == before + chars@.take(k as int),
                    decreases chars.len() - k,
                {
                    out.push(chars[k]);
                    proof {
                        assert(chars@.take(k as int + 1) == chars@.take(k as int).push(chars@[k as int]));
                    }
                    k = k + 1;
                }
                proof {
                    assert(chars@.take(k as int) == chars@);
                }
            },
            Node::Element(e) => {
                proof {
                    assert(all[j as int] is Element);
                    assert(has_element(all));
                    assert(has_named(nodes@, name@));
                }
                let copy = e.duplicate();
                proof {
                    assert(first_element_is(all, copy));
                    assert(is_first_inner_element(*element, name@, copy));
                }
                return Err(Error::UnexpectedElementExpectedText(copy));
            },
        }
        j = j + 1;
    }
    proof {
        assert(all.take(j as int) == all);
    }
    Ok(string_from_chars(&out))
}

/// Whether `after` is `before` with the first child element named `name`
/// holding the single text `text` in place of its children.
pub open spec fn is_child_text_set(before: Element, after: Element, name: Seq<char>, text: Seq<char>) -> bool {
    let old_nodes = before.children.nodes@;
    let new_nodes = after.children.nodes@;
    &&& exists|i: int| {
        &&& is_first_named(old_nodes, name, i)
        &&& new_nodes.len() == old_nodes.len()
        &&& forall|j: int| 0 <= j < old_nodes.len() && j != i ==> new_nodes[j] == #[trigger] old_nodes[j]
        &&& new_nodes[i] matches Node::Element(e)
        &&& new_nodes[i]->Element_0.name@ == name
        &&& new_nodes[i]->Element_0.attributes.list@ == old_nodes[i]->Element_0.attributes.list@
        &&& new_nodes[i]->Element_0.children.nodes@.len() == 1
        &&& new_nodes[i]->Element_0.children.nodes@[0] matches Node::Text(t)
        &&& new_nodes[i]->Element_0.children.nodes@[0]->Text_0@ == text
    }
    &&& after.name == before.name
    &&& after.attributes == before.attributes
}

/// Puts the single text `text` in place of the children of the first child
/// element of `element` named `name`.
pub fn set_child_text(element: &mut Element, name: &str, text: String) -> (r: Result<(), Error>)
    ensures
        final(element).name == old(element).name,
        final(element).attributes == old(element).attributes,
        has_named(old(element).children.nodes@, name@) <==> r is Ok,
        r is Ok ==> is_child_text_set(*old(element), *final(element), name@, text@),
        r is Err ==> (r matches Err(Error::MissingElement(n)) && n@ == name@) && *final(element) == *old(element),
{
    let i = match child_index(&element.children.nodes, name) {
        Some(i) => i,
        None => return Err(Error::MissingElement(name.to_owned())),
    };
    let replacement = match &element.children.nodes[i] {
        Node::Element(e) => Element {
            name: e.name.clone(),
            attributes: e.attributes.duplicate(),
            children: Nodes::new_text(text),
        },
        Node::Text(_) => return Err(Error::MissingElement(name.to_owned())),
    };
    let ghost old_nodes = element.children.nodes@;
    element.children.nodes[i] = Node::Element(replacement);
    proof {
        assert(is_first_named(old_nodes, name@, i as int));
        assert(has_named(old_nodes, name@));
    }
    Ok(())
}

/// Whether the name and the point total of `fleet` can be doubled without
/// leaving `usize`: its name's multiplier and its total, where they can be
/// read, are at most half of `usize::MAX`.
pub open spec fn fleet_doubles(fleet: Element) -> bool {
    &&& (spec_child_text(fleet, "Name"@) matches Some(t) ==> match spec_strip_multiplier(t) {
        Some((_, n)) => n * 2 <= usize::MAX,
        None => true,
    })
    &&& (spec_child_text(fleet, "TotalPoints"@) matches Some(t) ==> match spec_parse_usize(t) {
        Some(n) => n * 2 <= usize::MAX,
        None => true,
    })
}

/// Whether [`double_fleet`] may be called on `fleet`: see [`fleet_doubles`].
pub fn can_double_fleet(fleet: &Element) -> (r: bool)
    ensures
        r == fleet_doubles(*fleet),
{
    let name_ok = match child_text(fleet, "Name") {
        Ok(name) => match strip_multiplier(name.as_str()) {
            Some((_, n)) => n <= usize::MAX / 2,
            None => true,
        },
        Err(_) => true,
    };
    let points_ok = match child_text(fleet, "TotalPoints") {
        Ok(points) => match parse_usize(points.as_str()) {
            Some(n) => n <= usize::MAX / 2,
            None => true,
        },
        Err(_) => true,
    };
    name_ok && points_ok
}

/// Renames the fleet element `fleet` as doubled (`Fleet` becomes
/// `Fleet (2x)`, see [`apply_double_suffix`]) and doubles its point total.
/// Fails, changing nothing, when the name or the total is missing, holds an
/// element, or the total is not a `usize` in decimal. The fleet is edited
/// in place: every other child, `Version`, `SortOverrideOrder` and an empty
/// `Description` among them, stays as it was written, where reading the
/// fleet into values and writing it out again would write them anew.
pub fn double_fleet(fleet: &mut Element) -> (r: Result<(), Error>)
    requires
        fleet_doubles(*old(fleet)),
    ensures
        match (spec_child_text(*old(fleet), "Name"@), spec_child_text(*old(fleet), "TotalPoints"@)) {
            (Some(name), Some(points)) => match spec_parse_usize(points) {
                Some(p) => r is Ok && (exists|mid: Element|
                    is_child_text_set(*old(fleet), mid, "Name"@, spec_apply_double_suffix(name))
                    && is_child_text_set(mid, *final(fleet), "TotalPoints"@, spec_decimal((p * 2) as nat)))
                    && spec_child_text(*final(fleet), "Name"@) == Some(spec_apply_double_suffix(name))
                    && spec_child_text(*final(fleet), "TotalPoints"@) == Some(spec_decimal((p * 2) as nat))
                    && forall|other: Seq<char>| other != "Name"@ && other != "TotalPoints"@
                        ==> #[trigger] spec_child_text(*final(fleet), other) == spec_child_text(*old(fleet), other),
                None => (r matches Err(Error::ParseError(t)) && t@ == points) && *final(fleet) == *old(fleet),
            },
            _ => r is Err && *final(fleet) == *old(fleet),
        },
        !has_named(old(fleet).children.nodes@, "Name"@) ==> (r matches Err(Error::MissingElement(n)) && n@ == "Name"@),
        spec_child_text(*old(fleet), "Name"@) is Some && !has_named(old(fleet).children.nodes@, "TotalPoints"@)
            ==> (r matches Err(Error::MissingElement(n)) && n@ == "TotalPoints"@),
{
    let name = child_text(fleet, "Name")?;
    let points_text = child_text(fleet, "TotalPoints")?;
    let points = match parse_usize(points_text.as_str()) {
        Some(p) => p,
        None => return Err(Error::ParseError(points_text)),
    };
    let doubled_name = apply_double_suffix(name.as_str());
    let doubled_points = usize_to_decimal(points * 2);
    let ghost before = *fleet;
    let named = set_child_text(fleet, "Name", doubled_name);
    let ghost mid = *fleet;
    proof {
        assert(has_named(before.children.nodes@, "Name"@));
        assert(named is Ok);
        assert(has_named(before.children.nodes@, "TotalPoints"@));
        let k = choose|k: int| 0 <= k < before.children.nodes@.len() && is_named(#[trigger] before.children.nodes@[k], "TotalPoints"@);
        assert(is_named(before.children.nodes@[k], "TotalPoints"@));
        let n = choose|n: int| is_first_named(before.children.nodes@, "Name"@, n)
            && mid.children.nodes@[n]->Element_0.name@ == "Name"@
            && forall|j: int| 0 <= j < before.children.nodes@.len() && j != n ==> mid.children.nodes@[j] == #[trigger] before.children.nodes@[j];
        if k == n {
            assert(mid.children.nodes@[k]->Element_0.name@ == "Name"@);
            assert(is_named(mid.children.nodes@[k], "TotalPoints"@));
        } else {
            assert(mid.children.nodes@[k] == before.children.nodes@[k]);
        }
        assert(is_named(mid.children.nodes@[k], "TotalPoints"@));
        assert(has_named(mid.children.nodes@, "TotalPoints"@));
    }
    let _ = set_child_text(fleet, "TotalPoints", doubled_points);
    proof {
        let after = *fleet;
        let name_text = spec_apply_double_suffix(name@);
        let points_text = spec_decimal((points * 2) as nat);
        lemma_child_text_after_set(mid, after, "TotalPoints"@, points_text);
        lemma_child_text_after_set(before, mid, "Name"@, name_text);
        reveal_strlit("Name");
        reveal_strlit("TotalPoints");
        assert("Name"@ != "TotalPoints"@) by {
            assert("Name"@.len() != "TotalPoints"@.len());
        }
        lemma_child_text_set_keeps_others(mid, after, "TotalPoints"@, points_text, "Name"@);
        assert forall|other: Seq<char>| other != "Name"@ && other != "TotalPoints"@
            implies #[trigger] spec_child_text(after, other) == spec_child_text(before, other) by {
            lemma_child_text_set_keeps_others(before, mid, "Name"@, name_text, other);
            lemma_child_text_set_keeps_others(mid, after, "TotalPoints"@, points_text, other);
        }
    }
    Ok(())
}

} // verus!

verus! {

/// Where some element has a name, a first one has it.
pub proof fn lemma_first_named_exists(nodes: Seq<Node>, name: Seq<char>, k: int)
    requires
        0 <= k < nodes.len(),
        is_named(nodes[k], name),
    ensures
        exists|i: int| is_first_named(nodes, name, i),
    decreases k,
{
    if forall|j: int| 0 <= j < k ==> !is_named(#[trigger] nodes[j], name) {
        assert(is_first_named(nodes, name, k));
    } else {
        let j = choose|j: int| 0 <= j < k && is_named(#[trigger] nodes[j], name);
        lemma_first_named_exists(nodes, name, j);
    }
}

/// A text set on a child element reads back: after [`set_child_text`], the
/// first child element named `name` holds exactly `text`.
pub proof fn lemma_child_text_after_set(before: Element, after: Element, name: Seq<char>, text: Seq<char>)
    requires
        is_child_text_set(before, after, name, text),
    ensures
        spec_child_text(after, name) == Some(text),
{
    let old_nodes = before.children.nodes@;
    let new_nodes = after.children.nodes@;
    let i = choose|i: int| {
        &&& is_first_named(old_nodes, name, i)
        &&& new_nodes.len() == old_nodes.len()
        &&& forall|j: int| 0 <= j < old_nodes.len() && j != i ==> new_nodes[j] == #[trigger] old_nodes[j]
        &&& new_nodes[i] matches Node::Element(e)
        &&& new_nodes[i]->Element_0.name@ == name
        &&& new_nodes[i]->Element_0.attributes.list@ == old_nodes[i]->Element_0.attributes.list@
        &&& new_nodes[i]->Element_0.children.nodes@.len() == 1
        &&& new_nodes[i]->Element_0.children.nodes@[0] matches Node::Text(t)
        &&& new_nodes[i]->Element_0.children.nodes@[0]->Text_0@ == text
    };
    assert forall|j: int| 0 <= j < i implies !is_named(#[trigger] new_nodes[j], name) by {
        assert(new_nodes[j] == old_nodes[j]);
    }
    assert(is_first_named(new_nodes, name, i));
    assert(has_named(new_nodes, name));
    let k = choose|k: int| is_first_named(new_nodes, name, k);
    if k < i {
        assert(!is_named(new_nodes[k], name));
    } else if i < k {
        assert(!is_named(new_nodes[i], name));
    }
    let inner = new_nodes[i]->Element_0.children.nodes@;
    assert(!has_element(inner));
    assert(inner.drop_last() == Seq::<Node>::empty());
    assert(spec_concat_texts(inner.drop_last()) == Seq::<char>::empty());
    assert(Seq::<char>::empty() + text == text);
}

/// Setting the text of one child element leaves what every child element of
/// another name holds as it was.
pub proof fn lemma_child_text_set_keeps_others(before: Element, after: Element, name: Seq<char>, text: Seq<char>, other: Seq<char>)
    requires
        is_child_text_set(before, after, name, text),
        other != name,
    ensures
        spec_child_text(after, other) == spec_child_text(before, other),
        has_named(after.children.nodes@, other) == has_named(before.children.nodes@, other),
{
    let old_nodes = before.children.nodes@;
    let new_nodes = after.children.nodes@;
    let i = choose|i: int| {
        &&& is_first_named(old_nodes, name, i)
        &&& new_nodes.len() == old_nodes.len()
        &&& forall|j: int| 0 <= j < old_nodes.len() && j != i ==> new_nodes[j] == #[trigger] old_nodes[j]
        &&& new_nodes[i] matches Node::Element(e)
        &&& new_nodes[i]->Element_0.name@ == name
        &&& new_nodes[i]->Element_0.attributes.list@ == old_nodes[i]->Element_0.attributes.list@
        &&& new_nodes[i]->Element_0.children.nodes@.len() == 1
        &&& new_nodes[i]->Element_0.children.nodes@[0] matches Node::Text(t)
        &&& new_nodes[i]->Element_0.children.nodes@[0]->Text_0@ == text
    };
    assert forall|j: int| 0 <= j < new_nodes.len() implies (is_named(#[trigger] new_nodes[j], other) <==> is_named(old_nodes[j], other)) by {
        if j != i {
            assert(new_nodes[j] == old_nodes[j]);
        }
    }
    if has_named(old_nodes, other) {
        let k = choose|k: int| 0 <= k < old_nodes.len() && is_named(#[trigger] old_nodes[k], other);
        assert(is_named(new_nodes[k], other));
    }
    if has_named(new_nodes, other) {
        let k = choose|k: int| 0 <= k < new_nodes.len() && is_named(#[trigger] new_nodes[k], other);
        assert(is_named(old_nodes[k], other));
        lemma_first_named_exists(old_nodes, other, k);
        let a = choose|a: int| is_first_named(old_nodes, other, a);
        assert(is_first_named(old_nodes, other, a));
        assert forall|j: int| 0 <= j < a implies !is_named(#[trigger] new_nodes[j], other) by {
            assert(!is_named(old_nodes[j], other));
        }
        assert(a != i);
        assert(new_nodes[a] == old_nodes[a]);
        assert(is_first_named(new_nodes, other, a));
        let b = choose|b: int| is_first_named(new_nodes, other, b);
        if b < a {
            assert(!is_named(new_nodes[b], other));
        } else if a < b {
            assert(!is_named(new_nodes[a], other));
        }
    }
}

} // verus!
