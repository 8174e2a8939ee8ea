//! An XML document as a flat table of nodes in document order, read from
//! the SOAP answers of the FE3 service, and the lookups the library makes
//! in it.
//!
//! Node `0` is the document root; every node's parent comes before it, its
//! children after it, and its descendants are the nodes
//! `i .. i + subtree_len`, in document order.

use vstd::prelude::*;

use vstd::string::StringSliceAdditionalSpecFns;
use vstd::utf8::{decode_utf8, is_char_boundary};

use crate::text::{chars_of, str_eq};

verus! {

// ---------------------------------------------------------------------------
// Searching sequences
// ---------------------------------------------------------------------------

/// `k` is the first position of `s` whose item satisfies `p`.
pub open spec fn is_first<T>(s: Seq<T>, p: spec_fn(T) -> bool, k: int) -> bool {
    0 <= k < s.len() && p(s[k]) && forall|j: int| 0 <= j < k ==> !p(#[trigger] s[j])
}

/// The first position of `s` whose item satisfies `p`.
pub open spec fn first_index<T>(s: Seq<T>, p: spec_fn(T) -> bool) -> Option<int> {
    if exists|k: int| is_first(s, p, k) {
        Some(choose|k: int| is_first(s, p, k))
    } else {
        None
    }
}

pub proof fn lemma_first_index_some<T>(s: Seq<T>, p: spec_fn(T) -> bool, k: int)
    requires
        is_first(s, p, k),
    ensures
        first_index(s, p) == Some(k),
{
    let w = choose|k: int| is_first(s, p, k);
    assert(is_first(s, p, w));
    if w < k {
        assert(!p(s[w]));
    } else if w > k {
        assert(!p(s[k]));
    }
}

pub proof fn lemma_first_index_none<T>(s: Seq<T>, p: spec_fn(T) -> bool)
    requires
        forall|j: int| 0 <= j < s.len() ==> !p(#[trigger] s[j]),
    ensures
        first_index(s, p) is None,
{
    if exists|k: int| is_first(s, p, k) {
        let w = choose|k: int| is_first(s, p, k);
        assert(p(s[w]));
    }
}

/// When some item satisfies `p`, a first one does.
pub proof fn lemma_first_exists<T>(s: Seq<T>, p: spec_fn(T) -> bool, i: int)
    requires
        0 <= i < s.len(),
        p(s[i]),
    ensures
        exists|k: int| is_first(s, p, k),
    decreases i,
{
    if exists|j: int| 0 <= j < i && p(#[trigger] s[j]) {
        let j = choose|j: int| 0 <= j < i && p(#[trigger] s[j]);
        lemma_first_exists(s, p, j);
    } else {
        assert(is_first(s, p, i));
    }
}

/// Without a first item satisfying `p`, no item satisfies it.
pub proof fn lemma_no_first<T>(s: Seq<T>, p: spec_fn(T) -> bool)
    requires
        !exists|k: int| is_first(s, p, k),
    ensures
        forall|i: int| 0 <= i < s.len() ==> !p(#[trigger] s[i]),
{
    assert forall|i: int| 0 <= i < s.len() implies !p(#[trigger] s[i]) by {
        if p(s[i]) {
            lemma_first_exists(s, p, i);
        }
    }
}

// ---------------------------------------------------------------------------
// The document
// ---------------------------------------------------------------------------

/// One attribute, in document order.
#[derive(Debug, Clone)]
pub struct XmlAttribute {
    /// Local name.
    pub name: String,
    pub value: String,
    /// Whether the attribute's name carries a namespace (`xsi:type`).
    pub namespaced: bool,
}

/// One node of a parsed document.
#[derive(Debug, Clone)]
pub struct XmlNode {
    /// Whether the node is an element (as opposed to the root, text,
    /// comments and processing instructions).
    pub is_element: bool,
    /// Local tag name; empty for everything but elements.
    pub name: String,
    pub attributes: Vec<XmlAttribute>,
    /// The node's text: for an element its first child when that is text,
    /// for text and comments their own text.
    pub text: Option<String>,
    pub parent: Option<usize>,
    pub children: Vec<usize>,
    /// Number of nodes in the subtree, the node itself included.
    pub subtree_len: usize,
    /// Byte range of the node in the source text.
    pub range_start: usize,
    pub range_end: usize,
}

/// A parsed document: its nodes in document order, the root first.
#[derive(Debug, Clone)]
pub struct XmlDocument {
    pub nodes: Vec<XmlNode>,
}

/// The mathematical content of a node.
pub ghost struct XmlNodeView {
    pub is_element: bool,
    pub name: Seq<char>,
    pub attributes: Seq<(Seq<char>, Seq<char>, bool)>,
    pub text: Option<Seq<char>>,
    pub parent: Option<int>,
    pub children: Seq<int>,
    pub subtree_len: int,
    pub range_start: int,
    pub range_end: int,
}

pub open spec fn opt_view(o: Option<String>) -> Option<Seq<char>> {
    match o {
        Some(s) => Some(s@),
        None => None,
    }
}

impl View for XmlNode {
    type V = XmlNodeView;

    open spec fn view(&self) -> XmlNodeView {
        XmlNodeView {
            is_element: self.is_element,
            name: self.name@,
            attributes: self.attributes@.map_values(|a: XmlAttribute| (a.name@, a.value@, a.namespaced)),
            text: opt_view(self.text),
            parent: match self.parent {
                Some(p) => Some(p as int),
                None => None,
            },
            children: self.children@.map_values(|c: usize| c as int),
            subtree_len: self.subtree_len as int,
            range_start: self.range_start as int,
            range_end: self.range_end as int,
        }
    }
}

impl View for XmlDocument {
    type V = Seq<XmlNodeView>;

    open spec fn view(&self) -> Seq<XmlNodeView> {
        self.nodes@.map_values(|n: XmlNode| n@)
    }
}

/// The links every parsed document has: a root at `0` without parent,
/// parents before children, subtrees inside the table.
pub open spec fn tree_ok(d: Seq<XmlNodeView>) -> bool {
    &&& d.len() > 0
    &&& d[0].parent is None
    &&& forall|i: int| 0 <= i < d.len() ==> links_ok(d, i)
}

pub open spec fn links_ok(d: Seq<XmlNodeView>, i: int) -> bool {
    &&& match d[i].parent {
        Some(p) => 0 <= p < i,
        None => true,
    }
    &&& forall|k: int| 0 <= k < d[i].children.len() ==> i < #[trigger] d[i].children[k] < d.len()
    &&& 1 <= d[i].subtree_len
    &&& i + d[i].subtree_len <= d.len()
}

/// Byte ranges inside the source text, on character boundaries.
pub open spec fn range_ok(d: Seq<XmlNodeView>, source: Seq<u8>, i: int) -> bool {
    &&& 0 <= d[i].range_start <= d[i].range_end <= source.len()
    &&& is_char_boundary(source, d[i].range_start)
    &&& is_char_boundary(source, d[i].range_end)
}

/// The shape every parsed document has.
pub open spec fn wf_doc(d: Seq<XmlNodeView>, source: Seq<u8>) -> bool {
    &&& tree_ok(d)
    &&& forall|i: int| 0 <= i < d.len() ==> range_ok(d, source, i)
}

/// The outcome of parsing `text` with the XML parser: the document's nodes,
/// or the text of the parser's error.
pub uninterp spec fn xml_parse(text: Seq<char>) -> Result<Seq<XmlNodeView>, Seq<char>>;

/// The views of a list of nodes.
pub open spec fn nodes_view(v: Seq<XmlNode>) -> Seq<XmlNodeView> {
    v.map_values(|n: XmlNode| n@)
}

impl XmlAttribute {
    pub fn new(name: &str, value: &str, namespaced: bool) -> (r: XmlAttribute)
        ensures
            r.name@ == name@,
            r.value@ == value@,
            r.namespaced == namespaced,
    {
        XmlAttribute { name: name.to_owned(), value: value.to_owned(), namespaced }
    }
}

impl XmlNode {
    pub fn new(
        is_element: bool,
        name: &str,
        attributes: Vec<XmlAttribute>,
        text: Option<&str>,
        parent: Option<usize>,
        children: Vec<usize>,
        subtree_len: usize,
        range: core::ops::Range<usize>,
    ) -> (r: XmlNode)
        ensures
            r.is_element == is_element,
            r.name@ == name@,
            r.attributes == attributes,
            opt_view(r.text) == match text {
                Some(t) => Some(t@),
                None => None,
            },
            r.parent == parent,
            r.children == children,
            r.subtree_len == subtree_len,
            r.range_start == range.start,
            r.range_end == range.end,
    {
        XmlNode {
            is_element,
            name: name.to_owned(),
            attributes,
            text: match text {
                Some(t) => Some(t.to_owned()),
                None => None,
            },
            parent,
            children,
            subtree_len,
            range_start: range.start,
            range_end: range.end,
        }
    }
}

/// `roxmltree::Document::parse`, its nodes copied out one for one in id
/// order (which is document order): for each node whether it is an
/// element, its local tag name, its attributes in order (local name,
/// value, whether the name has a namespace), its text, the ids
/// of its parent and children, the size of its subtree (`descendants`
/// counts the node itself) and its byte range in `text`. What the parser
/// yields is named, not restated: the same text always gives the same
/// nodes or the same error message. Of a parsed tree the contract states
/// the shape the parser builds: the root first (id `0`, no parent, range
/// `0..text.len()`), nodes appended in document order so that a parent's id
/// is below its children's and a subtree is a run of ids, and byte ranges
/// taken from the tokenizer's spans in `text`, which start and end at ASCII
/// delimiters and so on character boundaries.
#[verifier::external_body]
fn parse_raw(text: &str) -> (r: Result<Vec<XmlNode>, String>)
    ensures
        match r {
            Ok(v) => xml_parse(text@) == Ok::<Seq<XmlNodeView>, Seq<char>>(nodes_view(v@))
                && wf_doc(nodes_view(v@), text.spec_bytes()),
            Err(e) => xml_parse(text@) == Err::<Seq<XmlNodeView>, Seq<char>>(e@),
        },
{
    match roxmltree::Document::parse(text) {
        Ok(doc) => Ok(doc.descendants().map(|n| XmlNode::new(
            n.is_element(), n.tag_name().name(),
            n.attributes().map(|a| XmlAttribute::new(a.name(), a.value(), a.namespace().is_some()))
                .collect(),
            n.text(),
            n.parent().map(|p| p.id().get_usize()),
            n.children().map(|c| c.id().get_usize()).collect(), n.descendants().count(), n.range(),
        )).collect()),
        Err(e) => Err(e.to_string()),
    }
}

/// What [`parse_document`] gives for `text`: the parser's nodes, or its
/// error message.
pub open spec fn parse_document_spec(text: &str) -> Result<Seq<XmlNodeView>, Seq<char>> {
    xml_parse(text@)
}

/// Parse `text` into a document table; fails, with the parser's message,
/// exactly when the parser rejects the text.
pub fn parse_document(text: &str) -> (r: Result<XmlDocument, String>)
    ensures
        match r {
            Ok(d) => parse_document_spec(text) == Ok::<Seq<XmlNodeView>, Seq<char>>(d@) && wf_doc(
                d@,
                text.spec_bytes(),
            ),
            Err(e) => parse_document_spec(text) == Err::<Seq<XmlNodeView>, Seq<char>>(e@),
        },
{
    match parse_raw(text) {
        Ok(v) => Ok(XmlDocument { nodes: v }),
        Err(e) => Err(e),
    }
}

// ---------------------------------------------------------------------------
// Lookups
// ---------------------------------------------------------------------------

/// The value of the first attribute of node `i` named `key` without a
/// namespace (what `roxmltree`'s `Node::attribute` looks up for a plain
/// name).
pub open spec fn attr_of(d: Seq<XmlNodeView>, i: int, key: Seq<char>) -> Option<Seq<char>> {
    match first_index(d[i].attributes, plain_attr_named(key)) {
        Some(k) => Some(d[i].attributes[k].1),
        None => None,
    }
}

/// An attribute named `key` without a namespace.
pub open spec fn plain_attr_named(key: Seq<char>) -> spec_fn((Seq<char>, Seq<char>, bool)) -> bool {
    |a: (Seq<char>, Seq<char>, bool)| a.0 == key && !a.2
}

/// The first child of node `i` named `name`.
pub open spec fn child_named(d: Seq<XmlNodeView>, i: int, name: Seq<char>) -> Option<int> {
    match first_index(d[i].children, |c: int| d[c].name == name) {
        Some(k) => Some(d[i].children[k]),
        None => None,
    }
}

/// The first child of node `i` that is an element.
pub open spec fn first_element_child(d: Seq<XmlNodeView>, i: int) -> Option<int> {
    match first_index(d[i].children, |c: int| d[c].is_element) {
        Some(k) => Some(d[i].children[k]),
        None => None,
    }
}

/// The first child of node `i`, of any kind.
pub open spec fn first_child(d: Seq<XmlNodeView>, i: int) -> Option<int> {
    if d[i].children.len() > 0 {
        Some(d[i].children[0])
    } else {
        None
    }
}

/// Node `i` and its descendants, in document order.
pub open spec fn subtree(d: Seq<XmlNodeView>, i: int) -> Seq<int> {
    Seq::new(d[i].subtree_len as nat, |k: int| i + k)
}

/// The first node of the subtree of `i` (itself included) named `name`.
pub open spec fn descendant_named(d: Seq<XmlNodeView>, i: int, name: Seq<char>) -> Option<int> {
    match first_index(subtree(d, i), |c: int| d[c].name == name) {
        Some(k) => Some(i + k),
        None => None,
    }
}

/// The nearest of `i` and its ancestors named `name`.
pub open spec fn ancestor_named(d: Seq<XmlNodeView>, i: int, name: Seq<char>) -> Option<int>
    decreases i,
{
    if i < 0 || i >= d.len() {
        None
    } else if d[i].name == name {
        Some(i)
    } else {
        match d[i].parent {
            Some(p) => if 0 <= p < i {
                ancestor_named(d, p, name)
            } else {
                None
            },
            None => None,
        }
    }
}

/// The positions `0 .. n` of the whole document.
pub open spec fn all_nodes(d: Seq<XmlNodeView>) -> Seq<int> {
    Seq::new(d.len(), |k: int| k)
}

impl XmlDocument {
    /// The value of the first attribute of node `i` named `key`.
    pub fn attr(&self, i: usize, key: &str) -> (r: Option<&String>)
        requires
            i < self@.len(),
        ensures
            match r {
                Some(v) => attr_of(self@, i as int, key@) == Some(v@),
                None => attr_of(self@, i as int, key@) is None,
            },
    {
        let node = &self.nodes[i];
        assert(self@[i as int] == node@);
        let ghost p = plain_attr_named(key@);
        let n = node.attributes.len();
        for k in 0..n
            invariant
                n == node.attributes@.len(),
                i < self@.len(),
                self@[i as int] == node@,
                p == plain_attr_named(key@),
                forall|j: int| 0 <= j < k ==> !p(#[trigger] node@.attributes[j]),
        {
            let a = &node.attributes[k];
            assert(node@.attributes[k as int] == (a.name@, a.value@, a.namespaced));
            if !a.namespaced && str_eq(a.name.as_str(), key) {
                proof {
                    assert(p(node@.attributes[k as int]));
                    assert(is_first(node@.attributes, p, k as int));
                    lemma_first_index_some(node@.attributes, p, k as int);
                }
                return Some(&a.value);
            }
            assert(!p(node@.attributes[k as int]));
        }
        proof {
            lemma_first_index_none(node@.attributes, p);
        }
        None
    }

    /// Whether node `i` is named `name`.
    pub fn is_named(&self, i: usize, name: &str) -> (r: bool)
        requires
            i < self@.len(),
        ensures
            r == (self@[i as int].name == name@),
    {
        assert(self@[i as int] == self.nodes@[i as int]@);
        str_eq(self.nodes[i].name.as_str(), name)
    }

    /// The first child of node `i` named `name`.
    pub fn child_named(&self, i: usize, name: &str) -> (r: Option<usize>)
        requires
            i < self@.len(),
            tree_ok(self@),
        ensures
            match r {
                Some(c) => child_named(self@, i as int, name@) == Some(c as int) && (c as int)
                    < self@.len(),
                None => child_named(self@, i as int, name@) is None,
            },
    {
        let node = &self.nodes[i];
        assert(self@[i as int] == node@);
        let ghost d = self@;
        let ghost p = |c: int| d[c].name == name@;
        let n = node.children.len();
        for k in 0..n
            invariant
                n == node.children@.len(),
                d == self@,
                d[i as int] == node@,
                tree_ok(d),
                i < d.len(),
                p == (|c: int| d[c].name == name@),
                forall|j: int| 0 <= j < k ==> !p(#[trigger] node@.children[j]),
        {
            let c = node.children[k];
            assert(node@.children[k as int] == c as int);
            assert(links_ok(d, i as int));
            if self.is_named(c, name) {
                proof {
                    assert(node@.children[k as int] == c as int);
                    assert(d[c as int].name == name@);
                    assert(p(c as int));
                    assert(p(node@.children[k as int]));
                    assert(is_first(node@.children, p, k as int));
                    lemma_first_index_some(node@.children, p, k as int);
                }
                return Some(c);
            }
            assert(!p(node@.children[k as int]));
        }
        proof {
            lemma_first_index_none(node@.children, p);
        }
        None
    }
}


/// The first node, in document order, named `name`.
pub open spec fn first_named(d: Seq<XmlNodeView>, name: Seq<char>) -> Option<int> {
    first_index(all_nodes(d), |c: int| d[c].name == name)
}

/// The first node, in document order, named `name` whose attribute `key`
/// is `value`.
pub open spec fn first_named_with_attr(
    d: Seq<XmlNodeView>,
    name: Seq<char>,
    key: Seq<char>,
    value: Seq<char>,
) -> Option<int> {
    first_index(all_nodes(d), |c: int| d[c].name == name && attr_of(d, c, key) == Some(value))
}

/// The text of the first child of `parent` named `name`, trimmed.
pub open spec fn child_text(d: Seq<XmlNodeView>, parent: Option<int>, name: Seq<char>) -> Option<
    Seq<char>,
> {
    match parent {
        Some(p) => match child_named(d, p, name) {
            Some(c) => match d[c].text {
                Some(t) => Some(crate::text::trim(t)),
                None => None,
            },
            None => None,
        },
        None => None,
    }
}

/// The source text of node `i`: the bytes of its range, decoded.
pub open spec fn raw_text(d: Seq<XmlNodeView>, source: Seq<u8>, i: int) -> Seq<char> {
    decode_utf8(source.subrange(d[i].range_start, d[i].range_end))
}

proof fn lemma_first_node(d: Seq<XmlNodeView>, p: spec_fn(int) -> bool, k: int)
    requires
        0 <= k < d.len(),
        p(k),
        forall|j: int| 0 <= j < k ==> !p(#[trigger] all_nodes(d)[j]),
    ensures
        first_index(all_nodes(d), p) == Some(k),
{
    let s = all_nodes(d);
    assert(s[k] == k);
    lemma_first_index_some(s, p, k);
}

proof fn lemma_no_node(d: Seq<XmlNodeView>, p: spec_fn(int) -> bool)
    requires
        forall|j: int| 0 <= j < d.len() ==> !p(#[trigger] all_nodes(d)[j]),
    ensures
        first_index(all_nodes(d), p) is None,
{
    lemma_first_index_none(all_nodes(d), p);
}

impl XmlDocument {
    /// The first node, in document order, named `name`.
    pub fn first_named(&self, name: &str) -> (r: Option<usize>)
        ensures
            match r {
                Some(c) => first_named(self@, name@) == Some(c as int),
                None => first_named(self@, name@) is None,
            },
    {
        let ghost d = self@;
        let ghost p = |c: int| d[c].name == name@;
        let n = self.nodes.len();
        for k in 0..n
            invariant
                n == d.len(),
                d == self@,
                p == (|c: int| d[c].name == name@),
                forall|j: int| 0 <= j < k ==> !p(#[trigger] all_nodes(d)[j]),
        {
            assert(all_nodes(d)[k as int] == k as int);
            if self.is_named(k, name) {
                proof {
                    lemma_first_node(d, p, k as int);
                }
                return Some(k);
            }
        }
        proof {
            lemma_no_node(d, p);
        }
        None
    }

    /// The first node, in document order, named `name` whose attribute
    /// `key` is `value`.
    pub fn first_named_with_attr(&self, name: &str, key: &str, value: &str) -> (r: Option<usize>)
        ensures
            match r {
                Some(c) => first_named_with_attr(self@, name@, key@, value@) == Some(c as int),
                None => first_named_with_attr(self@, name@, key@, value@) is None,
            },
    {
        let ghost d = self@;
        let ghost p = |c: int| d[c].name == name@ && attr_of(d, c, key@) == Some(value@);
        let n = self.nodes.len();
        for k in 0..n
            invariant
                n == d.len(),
                d == self@,
                p == (|c: int| d[c].name == name@ && attr_of(d, c, key@) == Some(value@)),
                forall|j: int| 0 <= j < k ==> !p(#[trigger] all_nodes(d)[j]),
        {
            assert(all_nodes(d)[k as int] == k as int);
            if self.is_named(k, name) {
                match self.attr(k, key) {
                    Some(v) => {
                        if str_eq(v.as_str(), value) {
                            proof {
                                lemma_first_node(d, p, k as int);
                            }
                            return Some(k);
                        }
                    },
                    None => {},
                }
            }
        }
        proof {
            lemma_no_node(d, p);
        }
        None
    }

    /// The first child of node `i` that is an element.
    pub fn first_element_child(&self, i: usize) -> (r: Option<usize>)
        requires
            i < self@.len(),
            tree_ok(self@),
        ensures
            match r {
                Some(c) => first_element_child(self@, i as int) == Some(c as int) && (c as int)
                    < self@.len(),
                None => first_element_child(self@, i as int) is None,
            },
    {
        let node = &self.nodes[i];
        assert(self@[i as int] == node@);
        let ghost d = self@;
        let ghost p = |c: int| d[c].is_element;
        let n = node.children.len();
        assert(links_ok(d, i as int));
        for k in 0..n
            invariant
                n == node.children@.len(),
                d == self@,
                d[i as int] == node@,
                links_ok(d, i as int),
                i < d.len(),
                p == (|c: int| d[c].is_element),
                forall|j: int| 0 <= j < k ==> !p(#[trigger] node@.children[j]),
        {
            let c = node.children[k];
            assert(node@.children[k as int] == c as int);
            assert(d[c as int] == self.nodes@[c as int]@);
            if self.nodes[c].is_element {
                proof {
                    assert(p(node@.children[k as int]));
                    assert(is_first(node@.children, p, k as int));
                    lemma_first_index_some(node@.children, p, k as int);
                }
                return Some(c);
            }
            assert(!p(node@.children[k as int]));
        }
        proof {
            lemma_first_index_none(node@.children, p);
        }
        None
    }

    /// The first node of the subtree of `i` (itself included), in document
    /// order, named `name`.
    pub fn descendant_named(&self, i: usize, name: &str) -> (r: Option<usize>)
        requires
            i < self@.len(),
            tree_ok(self@),
        ensures
            match r {
                Some(c) => descendant_named(self@, i as int, name@) == Some(c as int) && (c as int)
                    < self@.len(),
                None => descendant_named(self@, i as int, name@) is None,
            },
    {
        let ghost d = self@;
        let ghost p = |c: int| d[c].name == name@;
        let ghost s = subtree(d, i as int);
        assert(links_ok(d, i as int));
        assert(d[i as int] == self.nodes@[i as int]@);
        let len = self.nodes[i].subtree_len;
        for k in 0..len
            invariant
                d == self@,
                s == subtree(d, i as int),
                s.len() == len,
                i + len <= d.len(),
                d.len() == self.nodes.len(),
                p == (|c: int| d[c].name == name@),
                forall|j: int| 0 <= j < k ==> !p(#[trigger] s[j]),
        {
            let c = i + k;
            assert(s[k as int] == c as int);
            if self.is_named(c, name) {
                proof {
                    assert(p(s[k as int]));
                    assert(is_first(s, p, k as int));
                    lemma_first_index_some(s, p, k as int);
                }
                return Some(c);
            }
        }
        proof {
            lemma_first_index_none(s, p);
        }
        None
    }

    /// The nearest of `i` and its ancestors named `name`.
    pub fn ancestor_named(&self, i: usize, name: &str) -> (r: Option<usize>)
        requires
            i < self@.len(),
            tree_ok(self@),
        ensures
            match r {
                Some(c) => ancestor_named(self@, i as int, name@) == Some(c as int) && (c as int)
                    < self@.len(),
                None => ancestor_named(self@, i as int, name@) is None,
            },
    {
        let ghost d = self@;
        let mut cur = i;
        loop
            invariant
                d == self@,
                tree_ok(d),
                cur < d.len(),
                ancestor_named(d, cur as int, name@) == ancestor_named(d, i as int, name@),
            decreases cur,
        {
            if self.is_named(cur, name) {
                return Some(cur);
            }
            assert(links_ok(d, cur as int));
            assert(d[cur as int] == self.nodes@[cur as int]@);
            match self.nodes[cur].parent {
                Some(p) => {
                    cur = p;
                },
                None => {
                    return None;
                },
            }
        }
    }

    /// The text of node `i`.
    pub fn text(&self, i: usize) -> (r: Option<&String>)
        requires
            i < self@.len(),
        ensures
            match r {
                Some(t) => self@[i as int].text == Some(t@),
                None => self@[i as int].text is None,
            },
    {
        assert(self@[i as int] == self.nodes@[i as int]@);
        match &self.nodes[i].text {
            Some(t) => Some(t),
            None => None,
        }
    }

    /// The text of the first child of `parent` named `name`, trimmed.
    pub fn child_text(&self, parent: Option<usize>, name: &str) -> (r: Option<String>)
        requires
            tree_ok(self@),
            match parent {
                Some(p) => p < self@.len(),
                None => true,
            },
        ensures
            opt_view(r) == child_text(
                self@,
                match parent {
                    Some(p) => Some(p as int),
                    None => None,
                },
                name@,
            ),
    {
        let p = match parent {
            Some(p) => p,
            None => {
                return None;
            },
        };
        let c = match self.child_named(p, name) {
            Some(c) => c,
            None => {
                return None;
            },
        };
        assert(links_ok(self@, p as int));
        assert(self@[p as int] == self.nodes@[p as int]@);
        assert(c < self@.len());
        assert(self@[c as int] == self.nodes@[c as int]@);
        match &self.nodes[c].text {
            Some(t) => {
                let v = chars_of(t.as_str());
                let w = crate::text::trim_chars(v.as_slice());
                Some(crate::text::string_of(w.as_slice()))
            },
            None => None,
        }
    }

    /// The source text of node `i`, cut out of `source` by its byte range.
    pub fn raw_text(&self, source: &str, i: usize) -> (r: String)
        requires
            i < self@.len(),
            wf_doc(self@, source.spec_bytes()),
        ensures
            r@ == raw_text(self@, source.spec_bytes(), i as int),
    {
        let ghost d = self@;
        let ghost bytes = source.spec_bytes();
        assert(range_ok(d, bytes, i as int));
        assert(d[i as int] == self.nodes@[i as int]@);
        let start = self.nodes[i].range_start;
        let end = self.nodes[i].range_end;
        proof {
            vstd::utf8::encode_utf8_valid_utf8(source@);
        }
        let (_, tail) = source.split_at(start);
        let ghost tb = tail.spec_bytes();
        proof {
            assert(tb =~= bytes.subrange(start as int, bytes.len() as int));
            vstd::utf8::encode_utf8_valid_utf8(tail@);
            let k = (end - start) as int;
            if k < tb.len() {
                vstd::utf8::is_char_boundary_iff_not_is_continuation_byte(bytes, end as int);
                vstd::utf8::is_char_boundary_iff_not_is_continuation_byte(tb, k);
                assert(tb[k] == bytes[end as int]);
            } else {
                vstd::utf8::is_char_boundary_start_end_of_seq(tb);
            }
        }
        let (mid, _) = tail.split_at(end - start);
        proof {
            assert(mid.spec_bytes() =~= bytes.subrange(start as int, end as int));
            vstd::utf8::encode_utf8_decode_utf8(mid@);
        }
        mid.to_owned()
    }
}

} // verus!
