//! The typed document: schema-validated elements in an arena, built from
//! the provisional tree, and written back out as markup.
use vstd::prelude::*;

use slotmap::DefaultKey;

use crate::arena::{Arena, arena_contents, arena_get, arena_insert, arena_new};
use crate::attribute::{attribute_canonical, attribute_known, attribute_text, parse_attribute, Attribute};
use crate::bytes::{append_bytes, bytes_eq};
use crate::element::ElementType;
use crate::lexer::Lexer;
use crate::parser::{parse_tree, provisional_tree, ProvisionalTree, TreeError};

verus! {

/// Index of an element in the document's arena.
pub type NodeId = usize;

/// A schema-validated element.
#[derive(Clone, Debug)]
pub struct Element {
    pub element_type: ElementType,
    pub attributes: Vec<Attribute>,
    pub children: Vec<NodeId>,
}

/// The typed document: the arena of elements, the arena key of each element
/// in the order its opening tag appears, and the ids of the top-level
/// elements. An element's id is its position in that order.
#[derive(Debug)]
pub struct Document {
    pub nodes: Arena,
    pub keys: Vec<DefaultKey>,
    pub children: Vec<NodeId>,
}

/// Why a document was rejected.
#[derive(Clone, Debug, PartialEq, Eq)]
pub enum ParseError {
    /// The markup does not form a tree.
    Tree(TreeError),
    /// An element name that names no element kind.
    UnknownElement(Vec<u8>),
    /// An attribute value outside its attribute's grammar: name and value.
    InvalidAttributeValue(Vec<u8>, Vec<u8>),
    /// An attribute that the element kind does not accept.
    AttributeNotAllowed(Vec<u8>, ElementType),
    /// A child kind that the parent kind does not accept: parent, child.
    ChildNotAllowed(ElementType, ElementType),
    /// More elements than the arena can hold.
    TooManyElements,
}

/// Is raw attribute `j` overridden by a later one of the same name on the
/// same element?
pub open spec fn superseded(attrs: Seq<(usize, Seq<u8>, Seq<u8>)>, j: int) -> bool {
    exists|k: int| j < k < attrs.len() && (#[trigger] attrs[k]).0 == attrs[j].0 && attrs[k].1 == attrs[j].1
}

/// Does raw attribute `j` give element `i` a typed attribute?
pub open spec fn kept(attrs: Seq<(usize, Seq<u8>, Seq<u8>)>, i: int, j: int) -> bool {
    attrs[j].0 == i && !superseded(attrs, j) && attribute_known(attrs[j].1)
}

/// The raw attributes among the first `n` that element `i` keeps, in order.
pub open spec fn kept_upto(attrs: Seq<(usize, Seq<u8>, Seq<u8>)>, i: int, n: int) -> Seq<int>
    decreases n,
{
    if n <= 0 {
        Seq::empty()
    } else if kept(attrs, i, n - 1) {
        kept_upto(attrs, i, n - 1).push(n - 1)
    } else {
        kept_upto(attrs, i, n - 1)
    }
}

/// The elements among the first `n` whose parent is `p`, in order.
pub open spec fn children_upto(parents: Seq<Option<usize>>, p: Option<usize>, n: int) -> Seq<usize>
    decreases n,
{
    if n <= 0 {
        Seq::empty()
    } else if parents[n - 1] == p {
        children_upto(parents, p, n - 1).push((n - 1) as usize)
    } else {
        children_upto(parents, p, n - 1)
    }
}

/// The typed attributes `typed` are those that element `i` of `t` keeps,
/// each the parse of its raw value, and each accepted by `kind`.
#[verifier::opaque]
pub open spec fn attributes_built(
    t: &ProvisionalTree,
    i: int,
    kind: ElementType,
    typed: Seq<Attribute>,
) -> bool {
    let raw = t.raw_attributes();
    let ks = kept_upto(raw, i, raw.len() as int);
    &&& typed.len() == ks.len()
    &&& forall|k: int|
        0 <= k < typed.len() ==> {
            let a = #[trigger] typed[k];
            let r = raw[ks[k]];
            &&& a.spec_name() == r.1
            &&& a.spec_wf()
            &&& attribute_canonical(r.1, r.2) == Some(a.spec_value())
            &&& a.spec_allowed_in(kind)
        }
}

/// Raw attribute `j` of element `i` breaks the schema: its value is outside
/// its grammar, or `kind` does not accept an attribute of its name.
pub open spec fn attribute_violation(
    raw: Seq<(usize, Seq<u8>, Seq<u8>)>,
    i: int,
    j: int,
    kind: ElementType,
) -> bool {
    &&& 0 <= j < raw.len()
    &&& kept(raw, i, j)
    &&& (attribute_canonical(raw[j].1, raw[j].2) is None || exists|a: Attribute|
        a.spec_name() == raw[j].1 && !(#[trigger] a.spec_allowed_in(kind)))
}

/// The provisional tree `t` meets the schema: every element name is known,
/// every attribute kept is in its grammar and accepted by its element, and
/// every element is accepted by its parent.
pub open spec fn tree_schema_valid(t: &ProvisionalTree) -> bool {
    let names = t.names();
    let parents = t.parents();
    let raw = t.raw_attributes();
    &&& forall|i: int| 0 <= i < names.len() ==> (#[trigger] ElementType::spec_from_name(names[i])) is Some
    &&& forall|i: int, j: int|
        0 <= i < names.len() ==> !#[trigger] attribute_violation(
            raw,
            i,
            j,
            ElementType::spec_from_name(names[i])->0,
        )
    &&& forall|i: int|
        0 <= i < names.len() ==> (#[trigger] parents[i] matches Some(p) ==> ElementType::spec_from_name(
            names[p as int],
        )->0.spec_allows_child(ElementType::spec_from_name(names[i])->0))
}

impl Document {
    /// The elements in document order.
    pub open spec fn spec_nodes(&self) -> Seq<Element> {
        self.keys@.map_values(|k: DefaultKey| arena_contents(self.nodes)[k])
    }

    /// Every element is in the arena, and children come after their parent.
    pub open spec fn wf(&self) -> bool {
        &&& forall|i: int| 0 <= i < self.keys@.len() ==> arena_contents(self.nodes).contains_key(#[trigger] self.keys@[i])
        &&& forall|i: int, k: int|
            0 <= i < self.spec_nodes().len() && 0 <= k < self.spec_nodes()[i].children@.len() ==> i
                < #[trigger] self.spec_nodes()[i].children@[k] < self.spec_nodes().len()
        &&& forall|k: int| 0 <= k < self.children@.len() ==> #[trigger] self.children@[k] < self.spec_nodes().len()
    }

    /// Every attribute is accepted by its element's kind, and every child
    /// kind by its parent's kind.
    pub open spec fn schema_valid(&self) -> bool {
        &&& forall|i: int, k: int|
            0 <= i < self.spec_nodes().len() && 0 <= k < self.spec_nodes()[i].attributes@.len() ==> (
            #[trigger] self.spec_nodes()[i].attributes@[k]).spec_allowed_in(self.spec_nodes()[i].element_type)
        &&& forall|i: int, k: int|
            0 <= i < self.spec_nodes().len() && 0 <= k < self.spec_nodes()[i].children@.len()
                ==> self.spec_nodes()[i].element_type.spec_allows_child(
                self.spec_nodes()[#[trigger] self.spec_nodes()[i].children@[k] as int].element_type,
            )
    }

    /// This document is the typed form of the provisional tree `t`.
    pub open spec fn built_from(&self, t: &ProvisionalTree) -> bool {
        let names = t.names();
        let n = names.len() as int;
        &&& self.spec_nodes().len() == n
        &&& self.children@ == children_upto(t.parents(), None, n)
        &&& forall|i: int|
            0 <= i < n ==> {
                let e = #[trigger] self.spec_nodes()[i];
                &&& ElementType::spec_from_name(names[i]) == Some(e.element_type)
                &&& attributes_built(t, i, e.element_type, e.attributes@)
                &&& e.children@ == children_upto(t.parents(), Some(i as usize), n)
            }
    }
}

proof fn lemma_children_upto_bounds(parents: Seq<Option<usize>>, p: Option<usize>, n: int)
    requires
        0 <= n <= parents.len(),
        parents.len() <= usize::MAX,
        forall|i: int| 0 <= i < parents.len() ==> (#[trigger] parents[i] matches Some(q) ==> q < i),
    ensures
        forall|k: int|
            0 <= k < children_upto(parents, p, n).len() ==> #[trigger] children_upto(
                parents,
                p,
                n,
            )[k] < n && parents[children_upto(parents, p, n)[k] as int] == p,
    decreases n,
{
    if n > 0 {
        lemma_children_upto_bounds(parents, p, n - 1);
        let prev = children_upto(parents, p, n - 1);
        let cur = children_upto(parents, p, n);
        assert forall|k: int| 0 <= k < cur.len() implies #[trigger] cur[k] < n && parents[cur[k] as int] == p by {
            if k < prev.len() {
                assert(cur[k] == prev[k]);
            }
        }
    }
}

/// The elements of `t` after `i` whose parent is `i`, in order.
fn children_of(t: &ProvisionalTree, i: usize) -> (r: Vec<NodeId>)
    requires
        i < t.elements@.len(),
        forall|c: int|
            0 <= c < t.parents().len() ==> (#[trigger] t.parents()[c] matches Some(q) ==> q < c),
    ensures
        r@ == children_upto(t.parents(), Some(i), t.elements@.len() as int),
{
    let n = t.elements.len();
    let mut out: Vec<NodeId> = Vec::new();
    let mut c: usize = 0;
    while c < n
        invariant
            c <= n,
            n == t.elements@.len(),
            out@ == children_upto(t.parents(), Some(i), c as int),
        decreases n - c,
    {
        assert(t.parents()[c as int] == t.elements@[c as int].parent);
        if t.elements[c].parent == Some(i) {
            out.push(c);
        }
        c = c + 1;
    }
    out
}

fn roots_of(t: &ProvisionalTree) -> (r: Vec<NodeId>)
    ensures
        r@ == children_upto(t.parents(), None, t.elements@.len() as int),
{
    let n = t.elements.len();
    let mut out: Vec<NodeId> = Vec::new();
    let mut c: usize = 0;
    while c < n
        invariant
            c <= n,
            n == t.elements@.len(),
            out@ == children_upto(t.parents(), None, c as int),
        decreases n - c,
    {
        assert(t.parents()[c as int] == t.elements@[c as int].parent);
        if t.elements[c].parent.is_none() {
            out.push(c);
        }
        c = c + 1;
    }
    out
}

fn is_superseded(t: &ProvisionalTree, j: usize) -> (r: bool)
    requires
        j < t.attributes@.len(),
    ensures
        r == superseded(t.raw_attributes(), j as int),
{
    let ghost raw = t.raw_attributes();
    let m = t.attributes.len();
    let mut k = j + 1;
    while k < m
        invariant
            j < k <= m,
            m == t.attributes@.len(),
            raw == t.raw_attributes(),
            forall|q: int| j < q < k ==> !((#[trigger] raw[q]).0 == raw[j as int].0 && raw[q].1 == raw[j as int].1),
        decreases m - k,
    {
        assert(raw[k as int] == (t.attributes@[k as int].element, t.attributes@[k as int].name@, t.attributes@[k as int].value@));
        assert(raw[j as int] == (t.attributes@[j as int].element, t.attributes@[j as int].name@, t.attributes@[j as int].value@));
        if t.attributes[k].element == t.attributes[j].element && bytes_eq(
            t.attributes[k].name.as_slice(),
            t.attributes[j].name.as_slice(),
        ) {
            return true;
        }
        k = k + 1;
    }
    false
}

/// The typed attributes of element `i`.
fn build_attributes(t: &ProvisionalTree, i: usize, kind: ElementType) -> (r: Result<
    Vec<Attribute>,
    ParseError,
>)
    ensures
        r matches Ok(v) ==> attributes_built(t, i as int, kind, v@),
        r matches Err(e) ==> (e is InvalidAttributeValue || e is AttributeNotAllowed),
        r is Err ==> exists|j: int| attribute_violation(t.raw_attributes(), i as int, j, kind),
{
    let ghost raw = t.raw_attributes();
    let m = t.attributes.len();
    let mut out: Vec<Attribute> = Vec::new();
    let mut j: usize = 0;
    while j < m
        invariant
            j <= m,
            m == t.attributes@.len(),
            raw == t.raw_attributes(),
            out@.len() == kept_upto(raw, i as int, j as int).len(),
            forall|k: int|
                0 <= k < out@.len() ==> {
                    let a = #[trigger] out@[k];
                    let r = raw[kept_upto(raw, i as int, j as int)[k]];
                    &&& a.spec_name() == r.1
                    &&& a.spec_wf()
                    &&& attribute_canonical(r.1, r.2) == Some(a.spec_value())
                    &&& a.spec_allowed_in(kind)
                },
        decreases m - j,
    {
        let ghost before = kept_upto(raw, i as int, j as int);
        assert(raw[j as int] == (t.attributes@[j as int].element, t.attributes@[j as int].name@, t.attributes@[j as int].value@));
        if t.attributes[j].element == i && !is_superseded(t, j) {
            let name = t.attributes[j].name.as_slice();
            let value = t.attributes[j].value.as_slice();
            match parse_attribute(name, value) {
                Ok(None) => {
                    assert(kept_upto(raw, i as int, j + 1) == before);
                },
                Ok(Some(a)) => {
                    if !a.allowed_in_element(kind) {
                        assert(attribute_violation(raw, i as int, j as int, kind));
                        return Err(ParseError::AttributeNotAllowed(t.attributes[j].name.clone(), kind));
                    }
                    assert(kept_upto(raw, i as int, j + 1) == before.push(j as int));
                    out.push(a);
                },
                Err(_) => {
                    assert(attribute_violation(raw, i as int, j as int, kind));
                    return Err(
                        ParseError::InvalidAttributeValue(
                            t.attributes[j].name.clone(),
                            t.attributes[j].value.clone(),
                        ),
                    );
                },
            }
        } else {
            assert(kept_upto(raw, i as int, j + 1) == before);
        }
        j = j + 1;
    }
    proof {
        reveal(attributes_built);
    }
    Ok(out)
}

/// Turns a provisional tree into a typed document, checking every element
/// name, attribute value, attribute and nesting against the schema; the
/// first violation, in document order, rejects the whole document.
#[verifier::rlimit(100)]
pub fn build_document(t: &ProvisionalTree) -> (r: Result<Document, ParseError>)
    requires
        forall|c: int|
            0 <= c < t.parents().len() ==> (#[trigger] t.parents()[c] matches Some(q) ==> q < c),
    ensures
        r matches Ok(d) ==> d.wf() && d.schema_valid() && d.built_from(t),
        r matches Err(e) ==> !(e is Tree),
        t.names().len() + 1 >= u32::MAX ==> r == Err::<Document, ParseError>(ParseError::TooManyElements),
        tree_schema_valid(t) && t.names().len() + 1 < u32::MAX ==> r is Ok,
        r matches Err(ParseError::UnknownElement(name)) ==> exists|i: int|
            0 <= i < t.names().len() && #[trigger] t.names()[i] == name@
                && ElementType::spec_from_name(t.names()[i]) is None,
{
    let n = t.elements.len();
    if n >= 4294967294 {
        return Err(ParseError::TooManyElements);
    }
    let mut elems: Vec<Element> = Vec::new();
    let mut i: usize = 0;
    proof {
        lemma_children_upto_bounds(t.parents(), None, n as int);
    }
    while i < n
        invariant
            i <= n,
            n < 4294967294,
            n == t.elements@.len(),
            n == t.names().len(),
            n == t.parents().len(),
            elems@.len() == i,
            forall|c: int|
                0 <= c < t.parents().len() ==> (#[trigger] t.parents()[c] matches Some(q) ==> q < c),
            forall|q: int|
                0 <= q < i ==> {
                    let e = #[trigger] elems@[q];
                    &&& ElementType::spec_from_name(t.names()[q]) == Some(e.element_type)
                    &&& attributes_built(t, q, e.element_type, e.attributes@)
                    &&& e.children@ == children_upto(t.parents(), Some(q as usize), n as int)
                },
            forall|q: int|
                0 <= q < i ==> (#[trigger] t.parents()[q] matches Some(p) ==> elems@[p as int].element_type.spec_allows_child(
                    elems@[q].element_type,
                )),
        decreases n - i,
    {
        proof {
            if tree_schema_valid(t) {
                assert(ElementType::spec_from_name(t.names()[i as int]) is Some);
            }
        }
        assert(t.names()[i as int] == t.elements@[i as int].name@);
        assert(t.parents()[i as int] == t.elements@[i as int].parent);
        let kind = match ElementType::from_name(t.elements[i].name.as_slice()) {
            Some(k) => k,
            None => {
                return Err(ParseError::UnknownElement(t.elements[i].name.clone()));
            },
        };
        let attributes = match build_attributes(t, i, kind) {
            Ok(v) => v,
            Err(e) => {
                proof {
                    if tree_schema_valid(t) {
                        let j = choose|j: int| attribute_violation(t.raw_attributes(), i as int, j, kind);
                        assert(!attribute_violation(
                            t.raw_attributes(),
                            i as int,
                            j,
                            ElementType::spec_from_name(t.names()[i as int])->0,
                        ));
                    }
                }
                return Err(e);
            },
        };
        if let Some(p) = t.elements[i].parent {
            proof {
                assert(t.parents()[i as int] == Some(p));
                assert(ElementType::spec_from_name(t.names()[p as int]) == Some(elems@[p as int].element_type));
            }
            if !elems[p].element_type.is_allowed_as_child(&kind) {
                return Err(ParseError::ChildNotAllowed(elems[p].element_type, kind));
            }
        }
        let children = children_of(t, i);
        proof {
            lemma_children_upto_bounds(t.parents(), Some(i), n as int);
        }
        elems.push(Element { element_type: kind, attributes, children });
        i = i + 1;
    }
    let roots = roots_of(t);
    let ghost ev = elems@;
    let ghost rv = roots@;
    assert forall|q: int, k: int|
        0 <= q < ev.len() && 0 <= k < ev[q].children@.len() implies q
            < #[trigger] ev[q].children@[k] < ev.len() by {
        lemma_children_upto_bounds(t.parents(), Some(q as usize), n as int);
        let c = ev[q].children@[k];
        assert(t.parents()[c as int] == Some(q as usize));
    }
    assert forall|q: int, k: int|
        0 <= q < ev.len() && 0 <= k < ev[q].children@.len()
            implies ev[q].element_type.spec_allows_child(
            ev[#[trigger] ev[q].children@[k] as int].element_type,
        ) by {
        lemma_children_upto_bounds(t.parents(), Some(q as usize), n as int);
        let c = ev[q].children@[k];
        assert(t.parents()[c as int] == Some(q as usize));
    }
    assert forall|q: int, k: int|
        0 <= q < ev.len() && 0 <= k < ev[q].attributes@.len() implies (
        #[trigger] ev[q].attributes@[k]).spec_allowed_in(ev[q].element_type) by {
        reveal(attributes_built);
        let e = ev[q];
        assert(attributes_built(t, q, e.element_type, e.attributes@));
    }
    let d = Document::from_elements(elems, roots);
    assert(d.spec_nodes() == ev);
    Ok(d)
}

/// Two spaces per level of depth.
pub open spec fn indent(depth: nat) -> Seq<u8> {
    Seq::new(2 * depth, |_i: int| 32u8)
}

/// Each attribute preceded by a space.
pub open spec fn attributes_text(attrs: Seq<Attribute>) -> Seq<u8>
    decreases attrs.len(),
{
    if attrs.len() == 0 {
        Seq::empty()
    } else {
        attributes_text(attrs.drop_last()) + seq![32u8] + attribute_text(&attrs.last())
    }
}

/// `<name` and the attributes.
pub open spec fn open_tag(e: Element) -> Seq<u8> {
    seq![60u8] + e.element_type.spec_name() + attributes_text(e.attributes@)
}

/// The markup of element `i` at `depth`: self-closed when it has no
/// children, else its children one level deeper and a closing tag.
pub open spec fn node_text(d: Document, i: int, depth: nat) -> Seq<u8>
    decreases d.spec_nodes().len() - i, d.spec_nodes()[i].children@.len() + 1,
{
    if 0 <= i < d.spec_nodes().len() {
        let e = d.spec_nodes()[i];
        if e.children@.len() == 0 {
            indent(depth) + open_tag(e) + seq![47u8, 62u8, 10u8]
        } else {
            indent(depth) + open_tag(e) + seq![62u8, 10u8] + children_text(
                d,
                i,
                e.children@.len() as int,
                depth,
            ) + indent(depth) + seq![60u8, 47u8] + e.element_type.spec_name() + seq![62u8, 10u8]
        }
    } else {
        Seq::empty()
    }
}

/// The markup of the first `k` children of element `i`.
pub open spec fn children_text(d: Document, i: int, k: int, depth: nat) -> Seq<u8>
    decreases d.spec_nodes().len() - i, k,
{
    if k <= 0 || !(0 <= i < d.spec_nodes().len()) || k > d.spec_nodes()[i].children@.len() {
        Seq::empty()
    } else {
        let c = d.spec_nodes()[i].children@[k - 1] as int;
        children_text(d, i, k - 1, depth) + if i < c < d.spec_nodes().len() {
            node_text(d, c, depth + 1)
        } else {
            Seq::empty()
        }
    }
}

/// The markup of the first `k` top-level elements.
pub open spec fn roots_text(d: Document, k: int) -> Seq<u8>
    decreases k,
{
    if k <= 0 || k > d.children@.len() {
        Seq::empty()
    } else {
        roots_text(d, k - 1) + node_text(d, d.children@[k - 1] as int, 0)
    }
}

/// The markup of the whole document.
pub open spec fn document_text(d: Document) -> Seq<u8> {
    roots_text(d, d.children@.len() as int)
}

proof fn lemma_children_text_step(d: Document, i: int, k: int, depth: nat)
    requires
        0 <= i < d.spec_nodes().len(),
        0 <= k < d.spec_nodes()[i].children@.len(),
        i < d.spec_nodes()[i].children@[k] < d.spec_nodes().len(),
    ensures
        children_text(d, i, k + 1, depth) == children_text(d, i, k, depth) + node_text(
            d,
            d.spec_nodes()[i].children@[k] as int,
            depth + 1,
        ),
{
}

fn write_indent(out: &mut Vec<u8>, depth: usize)
    ensures
        final(out)@ == old(out)@ + indent(depth as nat),
{
    let mut k: usize = 0;
    while k < depth
        invariant
            k <= depth,
            out@ == old(out)@ + Seq::new(2 * k as nat, |_i: int| 32u8),
        decreases depth - k,
    {
        out.push(32u8);
        out.push(32u8);
        k = k + 1;
        assert(out@ =~= old(out)@ + Seq::new(2 * k as nat, |_i: int| 32u8));
    }
}

impl Document {
    /// Puts `elems` into a fresh arena, in order.
    fn from_elements(elems: Vec<Element>, roots: Vec<NodeId>) -> (d: Document)
        requires
            elems@.len() + 1 < u32::MAX,
        ensures
            d.spec_nodes() == elems@,
            d.children@ == roots@,
            forall|i: int| 0 <= i < d.keys@.len() ==> arena_contents(d.nodes).contains_key(#[trigger] d.keys@[i]),
    {
        let ghost all = elems@;
        let mut rest = elems;
        let mut nodes = arena_new();
        let mut keys: Vec<DefaultKey> = Vec::new();
        let mut i: usize = 0;
        while rest.len() > 0
            invariant
                all.len() + 1 < u32::MAX,
                i + rest@.len() == all.len(),
                rest@ == all.subrange(i as int, all.len() as int),
                keys@.len() == i,
                arena_contents(nodes).dom().finite(),
                arena_contents(nodes).dom().len() == i,
                forall|q: int| 0 <= q < i ==> arena_contents(nodes).contains_key(#[trigger] keys@[q]),
                forall|q: int| 0 <= q < i ==> arena_contents(nodes)[#[trigger] keys@[q]] == all[q],
            decreases rest@.len(),
        {
            let e = rest.remove(0);
            let ghost before = arena_contents(nodes);
            let k = arena_insert(&mut nodes, e);
            assert(forall|q: int| 0 <= q < i ==> keys@[q] != k);
            keys.push(k);
            i = i + 1;
            assert(rest@ =~= all.subrange(i as int, all.len() as int));
        }
        let d = Document { nodes, keys, children: roots };
        assert(d.spec_nodes() =~= all);
        d
    }

    /// The number of elements.
    pub fn len(&self) -> (r: usize)
        ensures
            r == self.spec_nodes().len(),
    {
        self.keys.len()
    }

    /// The element with id `id`.
    pub fn node(&self, id: NodeId) -> (r: &Element)
        requires
            self.wf(),
            id < self.spec_nodes().len(),
        ensures
            *r == self.spec_nodes()[id as int],
    {
        let k = self.keys[id];
        assert(arena_contents(self.nodes).contains_key(self.keys@[id as int]));
        arena_get(&self.nodes, k).unwrap()
    }

    fn write_attributes(&self, attrs: &Vec<Attribute>, out: &mut Vec<u8>)
        ensures
            final(out)@ == old(out)@ + attributes_text(attrs@),
    {
        let mut k: usize = 0;
        while k < attrs.len()
            invariant
                k <= attrs@.len(),
                out@ == old(out)@ + attributes_text(attrs@.take(k as int)),
            decreases attrs@.len() - k,
        {
            assert(attrs@.take(k + 1).drop_last() =~= attrs@.take(k as int));
            out.push(32u8);
            attrs[k].write_to(out);
            k = k + 1;
            assert(out@ =~= old(out)@ + attributes_text(attrs@.take(k as int)));
        }
        assert(attrs@.take(k as int) =~= attrs@);
    }

    /// Writes element `i` and everything under it.
    #[verifier::rlimit(100)]
    fn write_node(&self, i: usize, depth: usize, out: &mut Vec<u8>)
        requires
            self.wf(),
            i < self.spec_nodes().len(),
            depth <= i,
        ensures
            final(out)@ == old(out)@ + node_text(*self, i as int, depth as nat),
        decreases self.spec_nodes().len() - i,
    {
        let e = self.node(i);
        let name = e.element_type.name();
        write_indent(out, depth);
        out.push(60u8);
        append_bytes(out, name);
        self.write_attributes(&e.attributes, out);
        let ghost head = indent(depth as nat) + open_tag(*e);
        assert(out@ =~= old(out)@ + head);
        if e.children.len() == 0 {
            out.push(47u8);
            out.push(62u8);
            out.push(10u8);
            assert(out@ =~= old(out)@ + node_text(*self, i as int, depth as nat));
            return;
        }
        out.push(62u8);
        out.push(10u8);
        let ghost mid = out@;
        let mut k: usize = 0;
        while k < e.children.len()
            invariant
                self.wf(),
                i < self.spec_nodes().len(),
                depth <= i,
                *e == self.spec_nodes()[i as int],
                k <= e.children@.len(),
                out@ == mid + children_text(*self, i as int, k as int, depth as nat),
            decreases e.children@.len() - k,
        {
            let c = e.children[k];
            assert(i < c < self.spec_nodes().len());
            proof {
                lemma_children_text_step(*self, i as int, k as int, depth as nat);
            }
            self.write_node(c, depth + 1, out);
            k = k + 1;
            assert(out@ =~= mid + children_text(*self, i as int, k as int, depth as nat));
        }
        write_indent(out, depth);
        out.push(60u8);
        out.push(47u8);
        append_bytes(out, name);
        out.push(62u8);
        out.push(10u8);
        assert(out@ =~= old(out)@ + node_text(*self, i as int, depth as nat));
    }

    /// The markup of element `id` and everything under it.
    pub fn node_to_svg(&self, id: NodeId) -> (r: Vec<u8>)
        requires
            self.wf(),
            id < self.spec_nodes().len(),
        ensures
            r@ == node_text(*self, id as int, 0),
    {
        let mut out: Vec<u8> = Vec::new();
        self.write_node(id, 0, &mut out);
        assert(out@ =~= node_text(*self, id as int, 0));
        out
    }

    /// The markup of the whole document.
    pub fn to_svg(&self) -> (r: Vec<u8>)
        requires
            self.wf(),
        ensures
            r@ == document_text(*self),
    {
        let mut out: Vec<u8> = Vec::new();
        let mut k: usize = 0;
        while k < self.children.len()
            invariant
                self.wf(),
                k <= self.children@.len(),
                out@ == roots_text(*self, k as int),
            decreases self.children@.len() - k,
        {
            let c = self.children[k];
            self.write_node(c, 0, &mut out);
            k = k + 1;
            assert(out@ =~= roots_text(*self, k as int));
        }
        out
    }
}

/// What parsing `input` gives: the tree errors of the state machine, or
/// the typed form of the provisional tree, checked against the schema.
pub open spec fn parse_result_ok(input: Seq<u8>, r: Result<Document, ParseError>) -> bool {
    match provisional_tree(input) {
        Err(e) => r == Err::<Document, ParseError>(ParseError::Tree(e)),
        Ok(m) => !(r matches Err(ParseError::Tree(_))) && (r matches Ok(d) ==> d.wf()
            && d.schema_valid() && exists|t: ProvisionalTree| t.matches(m) && #[trigger] d.built_from(&t))
            && ((forall|t: ProvisionalTree| #[trigger] t.matches(m) ==> tree_schema_valid(&t))
            && m.names.len() + 1 < u32::MAX ==> r is Ok),
    }
}

/// Parses a whole document: lexing, the state machine, then the schema.
pub fn parse_document(input: &[u8]) -> (r: Result<Document, ParseError>)
    ensures
        parse_result_ok(input@, r),
{
    let t = match parse_tree(input) {
        Ok(t) => t,
        Err(e) => {
            return Err(ParseError::Tree(e));
        },
    };
    let ghost m = match provisional_tree(input@) {
        Ok(m) => m,
        Err(_) => arbitrary(),
    };
    assert(t.parents() == m.parents);
    assert forall|c: int|
        0 <= c < t.parents().len() implies (#[trigger] t.parents()[c] matches Some(q) ==> q < c) by {
        assert(t.parents()[c] == m.parents[c]);
    }
    let r = build_document(&t);
    assert(t.matches(m));
    match r {
        Ok(d) => {
            assert(t.matches(m) && d.built_from(&t));
            Ok(d)
        },
        Err(e) => Err(e),
    }
}

/// The parser: reads the document that a fresh lexer is set on.
pub struct Parser<'input> {
    pub lexer: Lexer<'input>,
}

impl<'input> Parser<'input> {
    pub fn new(lexer: Lexer<'input>) -> (r: Self)
        ensures
            r.lexer == lexer,
    {
        Parser { lexer }
    }

    /// Parses the whole input of the lexer, from its start.
    pub fn parse(&self) -> (r: Result<Document, ParseError>)
        ensures
            parse_result_ok(self.lexer.input.bytes@, r),
    {
        parse_document(self.lexer.input.bytes)
    }
}

} // verus!
