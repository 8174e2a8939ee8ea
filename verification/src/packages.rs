//! Package instances read out of a `SyncUpdates` answer.
//!
//! Every `<AppxMetadata>` with a `PackageMoniker` (and at least three
//! attributes) gives one instance. Its record is stitched together from
//! three places: the `<AppxMetadata>` itself; the `<Update>` whose
//! `<Files>/<File>` names the moniker as `InstallerSpecificIdentifier`
//! (the primary binary, with the `<ExtendedProperties>`,
//! `<AppxPackageInstallData>` and `<HandlerSpecificData>` around it); and
//! the enclosing `<Xml>` and `<UpdateInfo>` of the metadata (identity,
//! `<Properties>`, `<Relationships>`, `<ApplicabilityRules>`,
//! `<Deployment>`).

use vstd::prelude::*;

use crate::error::{StoreError, StoreErrorView};
use crate::fe3_model::{
    groups_view, opt_record_view, AppxFamilyMetadata, CategoryInformation,
    CategoryInformationView, Deployment, DeploymentView, DigestEntry, ExtraAttribute,
    PackageInstance, PackageInstanceView, RelationshipGroup, Relationships, UpdateProperties,
    UpdatePropertiesView, UpdateRef,
};
use vstd::string::StringSliceAdditionalSpecFns;

use crate::text::{chars_of, parse_bool, parse_bool_spec, parse_i64, parse_i64_spec, str_eq, trim};
use crate::xml::{
    attr_of, child_named, descendant_named, first_index, is_first, lemma_first_index_none,
    lemma_first_index_some, links_ok, opt_view, tree_ok, XmlDocument, XmlNodeView,
};

verus! {

// ---------------------------------------------------------------------------
// Optional nodes
// ---------------------------------------------------------------------------

/// A node position as a mathematical integer.
pub open spec fn oi(o: Option<usize>) -> Option<int> {
    match o {
        Some(x) => Some(x as int),
        None => None,
    }
}

/// The node, when there is one, is inside the document.
pub open spec fn in_doc(d: Seq<XmlNodeView>, o: Option<int>) -> bool {
    match o {
        Some(x) => 0 <= x < d.len(),
        None => true,
    }
}

pub open spec fn opt_attr(d: Seq<XmlNodeView>, n: Option<int>, key: Seq<char>) -> Option<Seq<char>> {
    match n {
        Some(i) => attr_of(d, i, key),
        None => None,
    }
}

/// An attribute read as a `bool` (`None` when absent or not `true`/`false`).
pub open spec fn opt_bool(v: Option<Seq<char>>) -> Option<bool> {
    match v {
        Some(s) => parse_bool_spec(s),
        None => None,
    }
}

/// An attribute read as an `i64` (`None` when absent or not a number).
pub open spec fn opt_i64(v: Option<Seq<char>>) -> Option<i64> {
    match v {
        Some(s) => parse_i64_spec(s),
        None => None,
    }
}

pub open spec fn opt_child(d: Seq<XmlNodeView>, n: Option<int>, name: Seq<char>) -> Option<int> {
    match n {
        Some(i) => child_named(d, i, name),
        None => None,
    }
}

pub open spec fn opt_descendant(d: Seq<XmlNodeView>, n: Option<int>, name: Seq<char>) -> Option<
    int,
> {
    match n {
        Some(i) => descendant_named(d, i, name),
        None => None,
    }
}

/// The parent of the parent of `n`.
pub open spec fn grandparent(d: Seq<XmlNodeView>, n: Option<int>) -> Option<int> {
    match n {
        Some(i) => match d[i].parent {
            Some(p) => d[p].parent,
            None => None,
        },
        None => None,
    }
}

fn opt_attr_string(doc: &XmlDocument, n: Option<usize>, key: &str) -> (r: Option<String>)
    requires
        in_doc(doc@, oi(n)),
    ensures
        opt_view(r) == opt_attr(doc@, oi(n), key@),
{
    match n {
        Some(i) => match doc.attr(i, key) {
            Some(v) => Some(v.clone()),
            None => None,
        },
        None => None,
    }
}

fn opt_attr_bool(doc: &XmlDocument, n: Option<usize>, key: &str) -> (r: Option<bool>)
    requires
        in_doc(doc@, oi(n)),
    ensures
        r == opt_bool(opt_attr(doc@, oi(n), key@)),
{
    match n {
        Some(i) => match doc.attr(i, key) {
            Some(v) => {
                let c = chars_of(v.as_str());
                parse_bool(c.as_slice())
            },
            None => None,
        },
        None => None,
    }
}

fn opt_attr_i64(doc: &XmlDocument, n: Option<usize>, key: &str) -> (r: Option<i64>)
    requires
        in_doc(doc@, oi(n)),
    ensures
        r == opt_i64(opt_attr(doc@, oi(n), key@)),
{
    match n {
        Some(i) => match doc.attr(i, key) {
            Some(v) => {
                let c = chars_of(v.as_str());
                parse_i64(c.as_slice())
            },
            None => None,
        },
        None => None,
    }
}

fn opt_child_named(doc: &XmlDocument, n: Option<usize>, name: &str) -> (r: Option<usize>)
    requires
        tree_ok(doc@),
        in_doc(doc@, oi(n)),
    ensures
        oi(r) == opt_child(doc@, oi(n), name@),
        in_doc(doc@, oi(r)),
{
    match n {
        Some(i) => doc.child_named(i, name),
        None => None,
    }
}

fn opt_descendant_named(doc: &XmlDocument, n: Option<usize>, name: &str) -> (r: Option<usize>)
    requires
        tree_ok(doc@),
        in_doc(doc@, oi(n)),
    ensures
        oi(r) == opt_descendant(doc@, oi(n), name@),
        in_doc(doc@, oi(r)),
{
    match n {
        Some(i) => doc.descendant_named(i, name),
        None => None,
    }
}

fn grandparent_of(doc: &XmlDocument, n: Option<usize>) -> (r: Option<usize>)
    requires
        tree_ok(doc@),
        in_doc(doc@, oi(n)),
    ensures
        oi(r) == grandparent(doc@, oi(n)),
        in_doc(doc@, oi(r)),
{
    let ghost d = doc@;
    let i = match n {
        Some(i) => i,
        None => {
            return None;
        },
    };
    assert(links_ok(d, i as int));
    assert(d[i as int] == doc.nodes@[i as int]@);
    match doc.nodes[i].parent {
        Some(p) => {
            assert(links_ok(d, p as int));
            assert(d[p as int] == doc.nodes@[p as int]@);
            doc.nodes[p].parent
        },
        None => None,
    }
}

// ---------------------------------------------------------------------------
// Digests of the primary file
// ---------------------------------------------------------------------------

/// The digest children among the first `n` children `cs` of a `<File>`:
/// every `AdditionalDigest`, and the last `PiecesHashDigest` and
/// `BlockMapDigest`, each as its `Algorithm` (or empty) and its trimmed
/// text; a child whose trimmed text is empty is skipped.
pub open spec fn digest_scan(d: Seq<XmlNodeView>, cs: Seq<int>, n: int) -> (
    Seq<(Seq<char>, Seq<char>)>,
    Option<(Seq<char>, Seq<char>)>,
    Option<(Seq<char>, Seq<char>)>,
)
    decreases n,
{
    if n <= 0 {
        (Seq::empty(), None, None)
    } else {
        let prev = digest_scan(d, cs, n - 1);
        let c = cs[n - 1];
        let alg = match attr_of(d, c, "Algorithm"@) {
            Some(a) => a,
            None => Seq::empty(),
        };
        let val = trim(
            match d[c].text {
                Some(t) => t,
                None => Seq::empty(),
            },
        );
        if !d[c].is_element || val.len() == 0 {
            prev
        } else if d[c].name == "AdditionalDigest"@ {
            (prev.0.push((alg, val)), prev.1, prev.2)
        } else if d[c].name == "PiecesHashDigest"@ {
            (prev.0, Some((alg, val)), prev.2)
        } else if d[c].name == "BlockMapDigest"@ {
            (prev.0, prev.1, Some((alg, val)))
        } else {
            prev
        }
    }
}

pub open spec fn file_digests(d: Seq<XmlNodeView>, f: Option<int>) -> (
    Seq<(Seq<char>, Seq<char>)>,
    Option<(Seq<char>, Seq<char>)>,
    Option<(Seq<char>, Seq<char>)>,
) {
    match f {
        Some(i) => digest_scan(d, d[i].children, d[i].children.len() as int),
        None => (Seq::empty(), None, None),
    }
}

fn file_digests_of(doc: &XmlDocument, f: Option<usize>) -> (r: (
    Vec<DigestEntry>,
    Option<DigestEntry>,
    Option<DigestEntry>,
))
    requires
        tree_ok(doc@),
        in_doc(doc@, oi(f)),
    ensures
        (r.0@.map_values(|e: DigestEntry| e@), opt_record_view(r.1), opt_record_view(r.2))
            == file_digests(doc@, oi(f)),
{
    let ghost d = doc@;
    let mut additional: Vec<DigestEntry> = Vec::new();
    let mut pieces: Option<DigestEntry> = None;
    let mut block_map: Option<DigestEntry> = None;
    let i = match f {
        Some(i) => i,
        None => {
            return (additional, pieces, block_map);
        },
    };
    let node = &doc.nodes[i];
    assert(d[i as int] == node@);
    assert(links_ok(d, i as int));
    let m = node.children.len();
    for k in 0..m
        invariant
            m == node@.children.len(),
            d == doc@,
            d[i as int] == node@,
            links_ok(d, i as int),
            i < d.len(),
            (
                additional@.map_values(|e: DigestEntry| e@),
                opt_record_view(pieces),
                opt_record_view(block_map),
            ) == digest_scan(d, node@.children, k as int),
    {
        let c = node.children[k];
        assert(node@.children[k as int] == c as int);
        assert(d[c as int] == doc.nodes@[c as int]@);
        let alg = match doc.attr(c, "Algorithm") {
            Some(a) => a.clone(),
            None => String::new(),
        };
        let raw = match &doc.nodes[c].text {
            Some(t) => chars_of(t.as_str()),
            None => Vec::new(),
        };
        let val = crate::text::trim_chars(raw.as_slice());
        if doc.nodes[c].is_element && val.len() > 0 {
            let entry = DigestEntry { algorithm: alg, value: crate::text::string_of(val.as_slice()) };
            if doc.is_named(c, "AdditionalDigest") {
                let ghost prev = additional@.map_values(|e: DigestEntry| e@);
                additional.push(entry);
                assert(additional@.map_values(|e: DigestEntry| e@) =~= prev.push(entry@));
            } else if doc.is_named(c, "PiecesHashDigest") {
                pieces = Some(entry);
            } else if doc.is_named(c, "BlockMapDigest") {
                block_map = Some(entry);
            }
        }
    }
    (additional, pieces, block_map)
}

// ---------------------------------------------------------------------------
// Relationships
// ---------------------------------------------------------------------------

/// An `<UpdateIdentity>` as a reference: its `UpdateID` (empty when
/// absent) and its `RevisionNumber`.
pub open spec fn update_ref_spec(d: Seq<XmlNodeView>, n: int) -> (Seq<char>, Option<Seq<char>>) {
    (
        match attr_of(d, n, "UpdateID"@) {
            Some(u) => u,
            None => Seq::empty(),
        },
        attr_of(d, n, "RevisionNumber"@),
    )
}

/// The references of the `<UpdateIdentity>` nodes among the first `k`
/// nodes of the subtree of `i`, in document order.
pub open spec fn identity_refs(d: Seq<XmlNodeView>, i: int, k: int) -> Seq<
    (Seq<char>, Option<Seq<char>>),
>
    decreases k,
{
    if k <= 0 {
        Seq::empty()
    } else {
        let prev = identity_refs(d, i, k - 1);
        let c = i + k - 1;
        if d[c].name == "UpdateIdentity"@ {
            prev.push(update_ref_spec(d, c))
        } else {
            prev
        }
    }
}

/// The groups among the first `n` children `cs` of a `<Prerequisites>` or
/// `<BundledUpdates>`: an `<AtLeastOne>` gives its `IsCategory` and every
/// `<UpdateIdentity>` below it; a bare `<UpdateIdentity>` gives a group of
/// its own without `IsCategory`.
pub open spec fn groups_scan(d: Seq<XmlNodeView>, cs: Seq<int>, n: int) -> Seq<
    (Option<bool>, Seq<(Seq<char>, Option<Seq<char>>)>),
>
    decreases n,
{
    if n <= 0 {
        Seq::empty()
    } else {
        let prev = groups_scan(d, cs, n - 1);
        let c = cs[n - 1];
        if !d[c].is_element {
            prev
        } else if d[c].name == "AtLeastOne"@ {
            prev.push(
                (opt_bool(attr_of(d, c, "IsCategory"@)), identity_refs(d, c, d[c].subtree_len)),
            )
        } else if d[c].name == "UpdateIdentity"@ {
            prev.push((None, seq![update_ref_spec(d, c)]))
        } else {
            prev
        }
    }
}

pub open spec fn relationship_groups(d: Seq<XmlNodeView>, p: int) -> Seq<
    (Option<bool>, Seq<(Seq<char>, Option<Seq<char>>)>),
> {
    groups_scan(d, d[p].children, d[p].children.len() as int)
}

/// The prerequisite and bundled groups read from the first `n` children
/// `cs` of a `<Relationships>`; a later list of the same kind replaces an
/// earlier one.
pub open spec fn relationships_scan(d: Seq<XmlNodeView>, cs: Seq<int>, n: int) -> (
    Seq<(Option<bool>, Seq<(Seq<char>, Option<Seq<char>>)>)>,
    Seq<(Option<bool>, Seq<(Seq<char>, Option<Seq<char>>)>)>,
)
    decreases n,
{
    if n <= 0 {
        (Seq::empty(), Seq::empty())
    } else {
        let prev = relationships_scan(d, cs, n - 1);
        let c = cs[n - 1];
        if d[c].name == "Prerequisites"@ {
            (relationship_groups(d, c), prev.1)
        } else if d[c].name == "BundledUpdates"@ {
            (prev.0, relationship_groups(d, c))
        } else {
            prev
        }
    }
}

/// The relationships under the `<Relationships>` child of `xml_node`.
pub open spec fn relationships_of(d: Seq<XmlNodeView>, xml_node: Option<int>) -> (
    Seq<(Option<bool>, Seq<(Seq<char>, Option<Seq<char>>)>)>,
    Seq<(Option<bool>, Seq<(Seq<char>, Option<Seq<char>>)>)>,
) {
    match opt_child(d, xml_node, "Relationships"@) {
        Some(r) => relationships_scan(d, d[r].children, d[r].children.len() as int),
        None => (Seq::empty(), Seq::empty()),
    }
}

/// The update IDs of every group's references, group after group.
pub open spec fn flatten_ids(g: Seq<(Option<bool>, Seq<(Seq<char>, Option<Seq<char>>)>)>) -> Seq<
    Seq<char>,
>
    decreases g.len(),
{
    if g.len() == 0 {
        Seq::empty()
    } else {
        flatten_ids(g.drop_last()) + g.last().1.map_values(
            |r: (Seq<char>, Option<Seq<char>>)| r.0,
        )
    }
}

fn update_ref_at(doc: &XmlDocument, n: usize) -> (r: UpdateRef)
    requires
        n < doc@.len(),
    ensures
        r@ == update_ref_spec(doc@, n as int),
{
    let update_id = match doc.attr(n, "UpdateID") {
        Some(u) => u.clone(),
        None => String::new(),
    };
    let revision_number = match doc.attr(n, "RevisionNumber") {
        Some(v) => Some(v.clone()),
        None => None,
    };
    UpdateRef { update_id, revision_number }
}

fn identity_refs_of(doc: &XmlDocument, i: usize) -> (r: Vec<UpdateRef>)
    requires
        tree_ok(doc@),
        i < doc@.len(),
    ensures
        r@.map_values(|u: UpdateRef| u@) == identity_refs(doc@, i as int, doc@[i as int].subtree_len),
{
    let ghost d = doc@;
    assert(links_ok(d, i as int));
    assert(d[i as int] == doc.nodes@[i as int]@);
    let len = doc.nodes[i].subtree_len;
    let mut out: Vec<UpdateRef> = Vec::new();
    for k in 0..len
        invariant
            d == doc@,
            len == d[i as int].subtree_len,
            i + len <= d.len(),
            d.len() == doc.nodes.len(),
            out@.map_values(|u: UpdateRef| u@) == identity_refs(d, i as int, k as int),
    {
        let c = i + k;
        if doc.is_named(c, "UpdateIdentity") {
            let ghost prev = out@.map_values(|u: UpdateRef| u@);
            let u = update_ref_at(doc, c);
            out.push(u);
            assert(out@.map_values(|u: UpdateRef| u@) =~= prev.push(u@));
        }
    }
    out
}

fn relationship_groups_of(doc: &XmlDocument, p: usize) -> (r: Vec<RelationshipGroup>)
    requires
        tree_ok(doc@),
        p < doc@.len(),
    ensures
        groups_view(r@) == relationship_groups(doc@, p as int),
{
    let ghost d = doc@;
    let node = &doc.nodes[p];
    assert(d[p as int] == node@);
    assert(links_ok(d, p as int));
    let mut out: Vec<RelationshipGroup> = Vec::new();
    let m = node.children.len();
    for k in 0..m
        invariant
            m == node@.children.len(),
            d == doc@,
            tree_ok(d),
            d[p as int] == node@,
            links_ok(d, p as int),
            p < d.len(),
            groups_view(out@) == groups_scan(d, node@.children, k as int),
    {
        let c = node.children[k];
        assert(node@.children[k as int] == c as int);
        assert(d[c as int] == doc.nodes@[c as int]@);
        let ghost prev = groups_view(out@);
        if doc.nodes[c].is_element {
            if doc.is_named(c, "AtLeastOne") {
                let is_category = opt_attr_bool(doc, Some(c), "IsCategory");
                let updates = identity_refs_of(doc, c);
                let g = RelationshipGroup { is_category, updates };
                out.push(g);
                assert(groups_view(out@) =~= prev.push(g@));
            } else if doc.is_named(c, "UpdateIdentity") {
                let u = update_ref_at(doc, c);
                let ghost uv = u@;
                let mut updates: Vec<UpdateRef> = Vec::new();
                updates.push(u);
                let g = RelationshipGroup { is_category: None, updates };
                assert(g@.1 =~= seq![uv]);
                out.push(g);
                assert(groups_view(out@) =~= prev.push(g@));
            }
        }
    }
    out
}

fn relationships_of_exec(doc: &XmlDocument, xml_node: Option<usize>) -> (r: Relationships)
    requires
        tree_ok(doc@),
        in_doc(doc@, oi(xml_node)),
    ensures
        r@ == relationships_of(doc@, oi(xml_node)),
{
    let ghost d = doc@;
    let mut rel = Relationships { prerequisites: Vec::new(), bundled_updates: Vec::new() };
    let r = match opt_child_named(doc, xml_node, "Relationships") {
        Some(r) => r,
        None => {
            assert(rel@.0 =~= Seq::<(Option<bool>, Seq<(Seq<char>, Option<Seq<char>>)>)>::empty());
            assert(rel@.1 =~= Seq::<(Option<bool>, Seq<(Seq<char>, Option<Seq<char>>)>)>::empty());
            return rel;
        },
    };
    let node = &doc.nodes[r];
    assert(d[r as int] == node@);
    assert(links_ok(d, r as int));
    assert(rel@.0 =~= Seq::<(Option<bool>, Seq<(Seq<char>, Option<Seq<char>>)>)>::empty());
    assert(rel@.1 =~= Seq::<(Option<bool>, Seq<(Seq<char>, Option<Seq<char>>)>)>::empty());
    let m = node.children.len();
    for k in 0..m
        invariant
            m == node@.children.len(),
            d == doc@,
            tree_ok(d),
            d[r as int] == node@,
            links_ok(d, r as int),
            r < d.len(),
            rel@ == relationships_scan(d, node@.children, k as int),
    {
        let c = node.children[k];
        assert(node@.children[k as int] == c as int);
        if doc.is_named(c, "Prerequisites") {
            rel.prerequisites = relationship_groups_of(doc, c);
        } else if doc.is_named(c, "BundledUpdates") {
            rel.bundled_updates = relationship_groups_of(doc, c);
        }
    }
    rel
}

proof fn lemma_flatten_push(
    g: Seq<(Option<bool>, Seq<(Seq<char>, Option<Seq<char>>)>)>,
    x: (Option<bool>, Seq<(Seq<char>, Option<Seq<char>>)>),
)
    ensures
        flatten_ids(g.push(x)) == flatten_ids(g) + x.1.map_values(
            |r: (Seq<char>, Option<Seq<char>>)| r.0,
        ),
{
    assert(g.push(x).drop_last() =~= g);
}

/// The update IDs of every reference of `groups`, group after group.
pub fn flatten_update_ids(groups: &Vec<RelationshipGroup>) -> (r: Vec<String>)
    ensures
        r@.map_values(|s: String| s@) == flatten_ids(groups_view(groups@)),
{
    let ghost gv = groups_view(groups@);
    let mut out: Vec<String> = Vec::new();
    let n = groups.len();
    for k in 0..n
        invariant
            n == groups@.len(),
            gv == groups_view(groups@),
            out@.map_values(|s: String| s@) == flatten_ids(gv.take(k as int)),
    {
        let g = &groups[k];
        assert(gv[k as int] == g@);
        let ghost before = out@.map_values(|s: String| s@);
        let m = g.updates.len();
        for j in 0..m
            invariant
                m == g.updates@.len(),
                out@.map_values(|s: String| s@) == before + g@.1.take(j as int).map_values(
                    |r: (Seq<char>, Option<Seq<char>>)| r.0,
                ),
        {
            assert(g@.1[j as int] == g.updates@[j as int]@);
            let ghost prevv = out@.map_values(|s: String| s@);
            let ghost tj = g@.1.take(j as int).map_values(|r: (Seq<char>, Option<Seq<char>>)| r.0);
            let ghost tj1 = g@.1.take(j + 1).map_values(|r: (Seq<char>, Option<Seq<char>>)| r.0);
            let id = g.updates[j].update_id.clone();
            assert(tj1 =~= tj.push(id@));
            out.push(id);
            assert(out@.map_values(|s: String| s@) =~= prevv.push(id@));
            assert(out@.map_values(|s: String| s@) =~= before + tj1);
        }
        proof {
            assert(g@.1.take(m as int) =~= g@.1);
            assert(gv.take(k + 1) =~= gv.take(k as int).push(g@));
            lemma_flatten_push(gv.take(k as int), g@);
        }
    }
    assert(gv.take(n as int) =~= gv);
    out
}


// ---------------------------------------------------------------------------
// Attributes without a typed field
// ---------------------------------------------------------------------------

pub open spec fn extras_view(v: Seq<ExtraAttribute>) -> Seq<(Seq<char>, Seq<char>)> {
    v.map_values(|e: ExtraAttribute| e@)
}

pub open spec fn strs_view(v: Seq<&str>) -> Seq<Seq<char>> {
    v.map_values(|x: &str| x@)
}

/// Whether an entry has key `k`.
pub open spec fn key_is(k: Seq<char>) -> spec_fn((Seq<char>, Seq<char>)) -> bool {
    |e: (Seq<char>, Seq<char>)| e.0 == k
}

/// Map insertion on a list of entries: the value of an existing key is
/// replaced in place, a new key goes at the end.
pub open spec fn insert_entry(s: Seq<(Seq<char>, Seq<char>)>, k: Seq<char>, v: Seq<char>) -> Seq<
    (Seq<char>, Seq<char>),
> {
    match first_index(s, key_is(k)) {
        Some(j) => s.update(j, (k, v)),
        None => s.push((k, v)),
    }
}

/// The key an attribute is recorded under: `<Element>@<Attr>`.
pub open spec fn extra_key(d: Seq<XmlNodeView>, i: int, attr: Seq<char>) -> Seq<char> {
    d[i].name + "@"@ + attr
}

/// `s` after recording the first `n` attributes of node `i` that are not
/// in `known`.
pub open spec fn collect_extra_spec(
    s: Seq<(Seq<char>, Seq<char>)>,
    d: Seq<XmlNodeView>,
    i: int,
    known: Seq<Seq<char>>,
    n: int,
) -> Seq<(Seq<char>, Seq<char>)>
    decreases n,
{
    if n <= 0 {
        s
    } else {
        let prev = collect_extra_spec(s, d, i, known, n - 1);
        let a = d[i].attributes[n - 1];
        if known.contains(a.0) {
            prev
        } else {
            insert_entry(prev, extra_key(d, i, a.0), a.1)
        }
    }
}

pub open spec fn collect_extra_opt(
    s: Seq<(Seq<char>, Seq<char>)>,
    d: Seq<XmlNodeView>,
    n: Option<int>,
    known: Seq<Seq<char>>,
) -> Seq<(Seq<char>, Seq<char>)> {
    match n {
        Some(i) => collect_extra_spec(s, d, i, known, d[i].attributes.len() as int),
        None => s,
    }
}

/// No key occurs twice.
pub open spec fn keys_unique(s: Seq<(Seq<char>, Seq<char>)>) -> bool {
    forall|a: int, b: int| 0 <= a < b < s.len() ==> #[trigger] s[a].0 != #[trigger] s[b].0
}

/// Inserting keeps every key once.
pub proof fn lemma_insert_entry_unique(s: Seq<(Seq<char>, Seq<char>)>, k: Seq<char>, v: Seq<char>)
    requires
        keys_unique(s),
    ensures
        keys_unique(insert_entry(s, k, v)),
        insert_entry(s, k, v).contains((k, v)),
{
    let p = key_is(k);
    let r = insert_entry(s, k, v);
    if exists|j: int| is_first(s, p, j) {
        let j = choose|j: int| is_first(s, p, j);
        lemma_first_index_some(s, p, j);
        assert(first_index(s, p) == Some(j));
        assert(r == s.update(j, (k, v)));
        assert(r[j] == (k, v));
        assert forall|a: int, b: int| 0 <= a < b < r.len() implies #[trigger] r[a].0
            != #[trigger] r[b].0 by {
            if a == j {
                assert(s[j].0 == k);
            } else if b == j {
                assert(s[j].0 == k);
            }
        }
    } else {
        crate::xml::lemma_no_first(s, p);
        lemma_first_index_none(s, p);
        assert(r[s.len() as int] == (k, v));
        assert forall|a: int, b: int| 0 <= a < b < r.len() implies #[trigger] r[a].0
            != #[trigger] r[b].0 by {
            if b == s.len() {
                assert(!p(s[a]));
            }
        }
    }
}

fn insert_extra(v: &mut Vec<ExtraAttribute>, key: String, value: String)
    ensures
        extras_view(final(v)@) == insert_entry(extras_view(old(v)@), key@, value@),
{
    let ghost s = extras_view(v@);
    let ghost p = key_is(key@);
    let n = v.len();
    for j in 0..n
        invariant
            n == v@.len(),
            s == extras_view(v@),
            s == extras_view(old(v)@),
            p == key_is(key@),
            forall|i: int| 0 <= i < j ==> !p(#[trigger] s[i]),
    {
        assert(s[j as int] == v@[j as int]@);
        if str_eq(v[j].key.as_str(), key.as_str()) {
            proof {
                assert(is_first(s, p, j as int));
                lemma_first_index_some(s, p, j as int);
            }
            let ghost kv = key@;
            let ghost vv = value@;
            v.set(j, ExtraAttribute { key, value });
            assert(extras_view(v@) =~= s.update(j as int, (kv, vv)));
            return;
        }
    }
    proof {
        lemma_first_index_none(s, p);
    }
    let ghost kv = key@;
    let ghost vv = value@;
    v.push(ExtraAttribute { key, value });
    assert(extras_view(v@) =~= s.push((kv, vv)));
}

fn is_known(known: &[&str], name: &str) -> (r: bool)
    ensures
        r == strs_view(known@).contains(name@),
{
    let n = known.len();
    for j in 0..n
        invariant
            n == known@.len(),
            forall|i: int| 0 <= i < j ==> known@[i]@ != name@,
    {
        if str_eq(known[j], name) {
            assert(strs_view(known@)[j as int] == name@);
            return true;
        }
    }
    assert forall|i: int| 0 <= i < strs_view(known@).len() implies strs_view(known@)[i]
        != name@ by {
        assert(strs_view(known@)[i] == known@[i]@);
    }
    false
}

/// Records every attribute of node `n` whose name is not in `known`, keyed
/// `<Element>@<Attr>`.
fn collect_extra(doc: &XmlDocument, n: Option<usize>, known: &[&str], v: &mut Vec<ExtraAttribute>)
    requires
        in_doc(doc@, oi(n)),
    ensures
        extras_view(final(v)@) == collect_extra_opt(
            extras_view(old(v)@),
            doc@,
            oi(n),
            strs_view(known@),
        ),
{
    let ghost d = doc@;
    let ghost s0 = extras_view(v@);
    let i = match n {
        Some(i) => i,
        None => {
            return;
        },
    };
    let node = &doc.nodes[i];
    assert(d[i as int] == node@);
    let m = node.attributes.len();
    for k in 0..m
        invariant
            m == node@.attributes.len(),
            d == doc@,
            d[i as int] == node@,
            i < d.len(),
            extras_view(v@) == collect_extra_spec(s0, d, i as int, strs_view(known@), k as int),
    {
        let a = &node.attributes[k];
        assert(node@.attributes[k as int] == (a.name@, a.value@, a.namespaced));
        if !is_known(known, a.name.as_str()) {
            let mut key = chars_of(node.name.as_str());
            key.push('@');
            crate::text::extend_str(&mut key, a.name.as_str());
            proof {
                reveal_strlit("@");
                assert(key@ =~= extra_key(d, i as int, a.name@));
            }
            insert_extra(v, crate::text::string_of(key.as_slice()), a.value.clone());
        }
    }
}

/// The attributes of `<AppxMetadata>` with a typed field.
pub open spec fn known_appx_metadata() -> Seq<Seq<char>> {
    seq!["PackageMoniker"@, "PackageType"@, "IsAppxBundle"@]
}

/// The attributes of the primary `<File>` with a typed field.
pub open spec fn known_file() -> Seq<Seq<char>> {
    seq![
        "Digest"@,
        "DigestAlgorithm"@,
        "FileName"@,
        "InstallerSpecificIdentifier"@,
        "Modified"@,
        "PatchingType"@,
        "Size"@,
    ]
}

/// The attributes of `<ExtendedProperties>` with a typed field.
pub open spec fn known_extended_properties() -> Seq<Seq<char>> {
    seq![
        "ContentType"@,
        "CreationDate"@,
        "DefaultPropertiesLanguage"@,
        "FromStoreService"@,
        "Handler"@,
        "IsAppxFramework"@,
        "LegacyMobileProductId"@,
        "MandatoryDate"@,
        "MandatoryVersion"@,
        "MaxDownloadSize"@,
        "MinDownloadSize"@,
        "PackageContentId"@,
        "PackageIdentityName"@,
    ]
}

/// The attributes of `<AppxPackageInstallData>` with a typed field.
pub open spec fn known_install_data() -> Seq<Seq<char>> {
    seq!["MainPackage"@, "PackageFileName"@]
}

/// The attributes of `<Properties>` with a typed field.
pub open spec fn known_properties() -> Seq<Seq<char>> {
    seq![
        "ApplyPackageRank"@,
        "ExplicitlyDeployable"@,
        "IsAppxFramework"@,
        "PackageRank"@,
        "PerUser"@,
        "UpdateType"@,
    ]
}

/// The attributes of `<HandlerSpecificData>` with a typed field.
pub open spec fn known_handler_data() -> Seq<Seq<char>> {
    seq!["type"@]
}

/// The attributes of the update's own `<UpdateIdentity>` with a typed
/// field.
pub open spec fn known_identity() -> Seq<Seq<char>> {
    seq!["UpdateID"@, "RevisionNumber"@]
}

// ---------------------------------------------------------------------------
// Records
// ---------------------------------------------------------------------------

pub open spec fn update_properties_spec(d: Seq<XmlNodeView>, p: Option<int>) -> Option<
    UpdatePropertiesView,
> {
    match p {
        Some(_) => Some(
            UpdatePropertiesView {
                apply_package_rank: opt_attr(d, p, "ApplyPackageRank"@),
                explicitly_deployable: opt_attr(d, p, "ExplicitlyDeployable"@),
                is_appx_framework: opt_bool(opt_attr(d, p, "IsAppxFramework"@)),
                package_rank: opt_i64(opt_attr(d, p, "PackageRank"@)),
                per_user: opt_attr(d, p, "PerUser"@),
                update_type: opt_attr(d, p, "UpdateType"@),
            },
        ),
        None => None,
    }
}

fn update_properties_of(doc: &XmlDocument, p: Option<usize>) -> (r: Option<UpdateProperties>)
    requires
        in_doc(doc@, oi(p)),
    ensures
        opt_record_view(r) == update_properties_spec(doc@, oi(p)),
{
    match p {
        Some(_) => Some(
            UpdateProperties {
                apply_package_rank: opt_attr_string(doc, p, "ApplyPackageRank"),
                explicitly_deployable: opt_attr_string(doc, p, "ExplicitlyDeployable"),
                is_appx_framework: opt_attr_bool(doc, p, "IsAppxFramework"),
                package_rank: opt_attr_i64(doc, p, "PackageRank"),
                per_user: opt_attr_string(doc, p, "PerUser"),
                update_type: opt_attr_string(doc, p, "UpdateType"),
            },
        ),
        None => None,
    }
}

/// The `<CategoryInformation>` child of the `<HandlerSpecificData>` node.
pub open spec fn category_spec(d: Seq<XmlNodeView>, handler_data: Option<int>) -> Option<
    CategoryInformationView,
> {
    let c = opt_child(d, handler_data, "CategoryInformation"@);
    match c {
        Some(_) => Some(
            CategoryInformationView {
                category_type: opt_attr(d, c, "CategoryType"@),
                display_order: opt_i64(opt_attr(d, c, "DisplayOrder"@)),
                exclude_by_default: opt_bool(opt_attr(d, c, "ExcludeByDefault"@)),
                excluded_by_default: opt_bool(opt_attr(d, c, "ExcludedByDefault"@)),
                prohibits_subcategories: opt_bool(opt_attr(d, c, "ProhibitsSubcategories"@)),
                prohibits_updates: opt_bool(opt_attr(d, c, "ProhibitsUpdates"@)),
            },
        ),
        None => None,
    }
}

fn category_of(doc: &XmlDocument, handler_data: Option<usize>) -> (r: Option<CategoryInformation>)
    requires
        tree_ok(doc@),
        in_doc(doc@, oi(handler_data)),
    ensures
        opt_record_view(r) == category_spec(doc@, oi(handler_data)),
{
    let c = opt_child_named(doc, handler_data, "CategoryInformation");
    match c {
        Some(_) => Some(
            CategoryInformation {
                category_type: opt_attr_string(doc, c, "CategoryType"),
                display_order: opt_attr_i64(doc, c, "DisplayOrder"),
                exclude_by_default: opt_attr_bool(doc, c, "ExcludeByDefault"),
                excluded_by_default: opt_attr_bool(doc, c, "ExcludedByDefault"),
                prohibits_subcategories: opt_attr_bool(doc, c, "ProhibitsSubcategories"),
                prohibits_updates: opt_attr_bool(doc, c, "ProhibitsUpdates"),
            },
        ),
        None => None,
    }
}

/// The `<Deployment>` child of the `<UpdateInfo>` node: the trimmed text of
/// each of its fields.
pub open spec fn deployment_spec(d: Seq<XmlNodeView>, update_info: Option<int>) -> Option<
    DeploymentView,
> {
    let n = opt_child(d, update_info, "Deployment"@);
    match n {
        Some(_) => Some(
            DeploymentView {
                id: crate::xml::child_text(d, n, "ID"@),
                action: crate::xml::child_text(d, n, "Action"@),
                is_assigned: crate::xml::child_text(d, n, "IsAssigned"@),
                last_change_time: crate::xml::child_text(d, n, "LastChangeTime"@),
                auto_select: crate::xml::child_text(d, n, "AutoSelect"@),
                auto_download: crate::xml::child_text(d, n, "AutoDownload"@),
                supersedence_behavior: crate::xml::child_text(d, n, "SupersedenceBehavior"@),
                priority: crate::xml::child_text(d, n, "Priority"@),
                handler_specific_action: crate::xml::child_text(d, n, "HandlerSpecificAction"@),
                flight_id: crate::xml::child_text(d, n, "FlightId"@),
            },
        ),
        None => None,
    }
}

fn deployment_of(doc: &XmlDocument, update_info: Option<usize>) -> (r: Option<Deployment>)
    requires
        tree_ok(doc@),
        in_doc(doc@, oi(update_info)),
    ensures
        opt_record_view(r) == deployment_spec(doc@, oi(update_info)),
{
    let n = opt_child_named(doc, update_info, "Deployment");
    match n {
        Some(_) => Some(
            Deployment {
                id: doc.child_text(n, "ID"),
                action: doc.child_text(n, "Action"),
                is_assigned: doc.child_text(n, "IsAssigned"),
                last_change_time: doc.child_text(n, "LastChangeTime"),
                auto_select: doc.child_text(n, "AutoSelect"),
                auto_download: doc.child_text(n, "AutoDownload"),
                supersedence_behavior: doc.child_text(n, "SupersedenceBehavior"),
                priority: doc.child_text(n, "Priority"),
                handler_specific_action: doc.child_text(n, "HandlerSpecificAction"),
                flight_id: doc.child_text(n, "FlightId"),
            },
        ),
        None => None,
    }
}

/// The family metadata of a moniker: the first `<AppxFamilyMetadata>`
/// whose `Name` is the moniker's family (the part before its first `_`).
pub open spec fn family_spec(d: Seq<XmlNodeView>, moniker: Seq<char>) -> Option<
    (Option<Seq<char>>, Option<Seq<char>>, Option<Seq<char>>),
> {
    let fam = crate::cli::moniker_family(moniker);
    let n = crate::xml::first_named_with_attr(d, "AppxFamilyMetadata"@, "Name"@, fam);
    match n {
        Some(_) => Some(
            (Some(fam), opt_attr(d, n, "Publisher"@), opt_attr(d, n, "LegacyMobileProductId"@)),
        ),
        None => None,
    }
}

/// An `<AppxFamilyMetadata>` node that names `family`.
pub open spec fn names_family(d: Seq<XmlNodeView>, k: int, family: Seq<char>) -> bool {
    d[k].name == "AppxFamilyMetadata"@ && attr_of(d, k, "Name"@) == Some(family)
}

/// A package's family metadata is that of its own family, the part of its
/// moniker before the first `_`: when there is a record, it comes from the
/// first `<AppxFamilyMetadata>` whose `Name` is that family, names the
/// family and carries that node's `Publisher` and `LegacyMobileProductId`;
/// when no node names the family, there is no record.
pub proof fn lemma_family_metadata_is_the_family_s(d: Seq<XmlNodeView>, source: Seq<u8>, m: int)
    ensures
        ({
            let inst = instance_spec(d, source, m);
            let family = crate::cli::moniker_family(inst.package_moniker);
            &&& (inst.family_metadata matches Some(f) ==> exists|k: int|
                0 <= k < d.len() && #[trigger] names_family(d, k, family) && f == (
                    Some(family),
                    attr_of(d, k, "Publisher"@),
                    attr_of(d, k, "LegacyMobileProductId"@),
                ) && forall|j: int| 0 <= j < k ==> !#[trigger] names_family(d, j, family))
            &&& (inst.family_metadata is None ==> forall|k: int|
                0 <= k < d.len() ==> !#[trigger] names_family(d, k, family))
        }),
{
    let inst = instance_spec(d, source, m);
    let family = crate::cli::moniker_family(inst.package_moniker);
    let s = crate::xml::all_nodes(d);
    let p = |c: int|
        d[c].name == "AppxFamilyMetadata"@ && attr_of(d, c, "Name"@) == Some(family);
    assert(inst.family_metadata == family_spec(d, inst.package_moniker));
    if exists|k: int| is_first(s, p, k) {
        let k = choose|k: int| is_first(s, p, k);
        assert(is_first(s, p, k));
        assert(s[k] == k);
        assert(names_family(d, k, family));
        assert forall|j: int| 0 <= j < k implies !#[trigger] names_family(d, j, family) by {
            assert(s[j] == j);
            assert(!p(s[j]));
        }
    } else {
        crate::xml::lemma_no_first(s, p);
        assert forall|k: int| 0 <= k < d.len() implies !#[trigger] names_family(d, k, family) by {
            assert(s[k] == k);
            assert(!p(s[k]));
        }
    }
}

proof fn lemma_first_named_with_attr_in_doc(
    d: Seq<XmlNodeView>,
    name: Seq<char>,
    key: Seq<char>,
    value: Seq<char>,
    k: int,
)
    requires
        crate::xml::first_named_with_attr(d, name, key, value) == Some(k),
    ensures
        0 <= k < d.len(),
{
    let s = crate::xml::all_nodes(d);
    let p = |c: int| d[c].name == name && attr_of(d, c, key) == Some(value);
    let w = choose|j: int| is_first(s, p, j);
    assert(is_first(s, p, w));
}

fn family_of(doc: &XmlDocument, moniker: &str) -> (r: Option<AppxFamilyMetadata>)
    ensures
        opt_record_view(r) == family_spec(doc@, moniker@),
{
    let fam = crate::cli::moniker_family_of(moniker);
    let n = doc.first_named_with_attr("AppxFamilyMetadata", "Name", fam.as_str());
    match n {
        Some(k) => {
            proof {
                lemma_first_named_with_attr_in_doc(
                    doc@,
                    "AppxFamilyMetadata"@,
                    "Name"@,
                    fam@,
                    k as int,
                );
            }
            Some(
                AppxFamilyMetadata {
                    name: Some(fam.clone()),
                    publisher: opt_attr_string(doc, n, "Publisher"),
                    legacy_mobile_product_id: opt_attr_string(doc, n, "LegacyMobileProductId"),
                },
            )
        },
        None => None,
    }
}

/// The `ApplicabilityBlob` JSON: the text of the first child of the
/// `<AppxMetadata>`.
pub open spec fn blob_spec(d: Seq<XmlNodeView>, m: int) -> Option<Seq<char>> {
    match crate::xml::first_child(d, m) {
        Some(c) => d[c].text,
        None => None,
    }
}

fn blob_of(doc: &XmlDocument, m: usize) -> (r: Option<String>)
    requires
        tree_ok(doc@),
        m < doc@.len(),
    ensures
        opt_view(r) == blob_spec(doc@, m as int),
{
    let ghost d = doc@;
    assert(d[m as int] == doc.nodes@[m as int]@);
    assert(links_ok(d, m as int));
    if doc.nodes[m].children.len() == 0 {
        return None;
    }
    let c = doc.nodes[m].children[0];
    assert(d[m as int].children[0] == c as int);
    assert(d[c as int] == doc.nodes@[c as int]@);
    match &doc.nodes[c].text {
        Some(t) => Some(t.clone()),
        None => None,
    }
}

/// The source text of the `<ApplicabilityRules>` child of the update's
/// `<Xml>`.
pub open spec fn rules_xml_spec(d: Seq<XmlNodeView>, source: Seq<u8>, xml_node: Option<int>) -> Option<
    Seq<char>,
> {
    match opt_child(d, xml_node, "ApplicabilityRules"@) {
        Some(n) => Some(crate::xml::raw_text(d, source, n)),
        None => None,
    }
}

/// The source text of the `<InstallationBehavior>` child of
/// `<ExtendedProperties>`, when it has children or attributes.
pub open spec fn behavior_xml_spec(d: Seq<XmlNodeView>, source: Seq<u8>, ext: Option<int>) -> Option<
    Seq<char>,
> {
    match opt_child(d, ext, "InstallationBehavior"@) {
        Some(n) => if d[n].children.len() > 0 || d[n].attributes.len() > 0 {
            Some(crate::xml::raw_text(d, source, n))
        } else {
            None
        },
        None => None,
    }
}

fn rules_xml_of(doc: &XmlDocument, xml: &str, xml_node: Option<usize>) -> (r: Option<String>)
    requires
        crate::xml::wf_doc(doc@, xml.spec_bytes()),
        in_doc(doc@, oi(xml_node)),
    ensures
        opt_view(r) == rules_xml_spec(doc@, xml.spec_bytes(), oi(xml_node)),
{
    match opt_child_named(doc, xml_node, "ApplicabilityRules") {
        Some(n) => Some(doc.raw_text(xml, n)),
        None => None,
    }
}

fn behavior_xml_of(doc: &XmlDocument, xml: &str, ext: Option<usize>) -> (r: Option<String>)
    requires
        crate::xml::wf_doc(doc@, xml.spec_bytes()),
        in_doc(doc@, oi(ext)),
    ensures
        opt_view(r) == behavior_xml_spec(doc@, xml.spec_bytes(), oi(ext)),
{
    match opt_child_named(doc, ext, "InstallationBehavior") {
        Some(n) => {
            assert(doc@[n as int] == doc.nodes@[n as int]@);
            if doc.nodes[n].children.len() > 0 || doc.nodes[n].attributes.len() > 0 {
                Some(doc.raw_text(xml, n))
            } else {
                None
            }
        },
        None => None,
    }
}


// ---------------------------------------------------------------------------
// Instances
// ---------------------------------------------------------------------------

/// The `PackageMoniker` of an `<AppxMetadata>`.
pub open spec fn moniker_spec(d: Seq<XmlNodeView>, m: int) -> Seq<char> {
    match attr_of(d, m, "PackageMoniker"@) {
        Some(v) => v,
        None => Seq::empty(),
    }
}

/// The primary `<File>` of a moniker: the first whose
/// `InstallerSpecificIdentifier` is the moniker.
pub open spec fn primary_file_spec(d: Seq<XmlNodeView>, moniker: Seq<char>) -> Option<int> {
    crate::xml::first_named_with_attr(d, "File"@, "InstallerSpecificIdentifier"@, moniker)
}

/// Node `k` describes a package instance: an `<AppxMetadata>` with at least
/// three attributes, one of them `PackageMoniker`.
pub open spec fn is_instance_node(d: Seq<XmlNodeView>, k: int) -> bool {
    &&& d[k].name == "AppxMetadata"@
    &&& d[k].attributes.len() >= 3
    &&& attr_of(d, k, "PackageMoniker"@) is Some
}

/// The attributes without a typed field of the nodes an instance is read
/// from, in this order: the metadata, the primary file, the extended
/// properties, the install data, the properties, the handler data and the
/// update's own identity.
pub open spec fn extras_spec(
    d: Seq<XmlNodeView>,
    m: int,
    file: Option<int>,
    ext: Option<int>,
    install: Option<int>,
    props: Option<int>,
    handler_data: Option<int>,
    identity: Option<int>,
) -> Seq<(Seq<char>, Seq<char>)> {
    let s0 = collect_extra_opt(Seq::empty(), d, Some(m), known_appx_metadata());
    let s1 = collect_extra_opt(s0, d, file, known_file());
    let s2 = collect_extra_opt(s1, d, ext, known_extended_properties());
    let s3 = collect_extra_opt(s2, d, install, known_install_data());
    let s4 = collect_extra_opt(s3, d, props, known_properties());
    let s5 = collect_extra_opt(s4, d, handler_data, known_handler_data());
    collect_extra_opt(s5, d, identity, known_identity())
}

/// The instance an `<AppxMetadata>` node `m` of a document read from
/// `source` describes, before any download location is attached.
pub open spec fn instance_spec(d: Seq<XmlNodeView>, source: Seq<u8>, m: int) -> PackageInstanceView {
    let moniker = moniker_spec(d, m);
    let file = primary_file_spec(d, moniker);
    let digests = file_digests(d, file);
    let update_xml = grandparent(d, file);
    let ext = opt_child(d, update_xml, "ExtendedProperties"@);
    let install = opt_descendant(d, update_xml, "AppxPackageInstallData"@);
    let handler_data = opt_descendant(d, update_xml, "HandlerSpecificData"@);
    let new_xml = crate::xml::ancestor_named(d, m, "Xml"@);
    let identity = opt_child(d, new_xml, "UpdateIdentity"@);
    let props = opt_child(d, new_xml, "Properties"@);
    let rels = relationships_of(d, new_xml);
    let update_info = crate::xml::ancestor_named(d, m, "UpdateInfo"@);
    let max_dl = opt_i64(opt_attr(d, ext, "MaxDownloadSize"@));
    let file_name = opt_attr(d, file, "FileName"@);
    PackageInstanceView {
        package_moniker: moniker,
        package_uri: None,
        package_type: crate::helpers::package_type_of(
            match attr_of(d, m, "PackageType"@) {
                Some(t) => t,
                None => Seq::empty(),
            },
        ),
        applicability_blob_json: blob_spec(d, m),
        update_id: Seq::empty(),
        file_size: match opt_i64(opt_attr(d, file, "Size"@)) {
            Some(x) => Some(x),
            None => max_dl,
        },
        file_name: file_name,
        readable_file_name: crate::fe3_model::readable_file_name_spec(moniker, file_name),
        is_appx_bundle: opt_bool(attr_of(d, m, "IsAppxBundle"@)),
        digest: opt_attr(d, file, "Digest"@),
        digest_algorithm: opt_attr(d, file, "DigestAlgorithm"@),
        modified: opt_attr(d, file, "Modified"@),
        patching_type: opt_attr(d, file, "PatchingType"@),
        additional_digests: digests.0,
        pieces_hash_digest: digests.1,
        block_map_digest: digests.2,
        handler: opt_attr(d, ext, "Handler"@),
        is_appx_framework: opt_bool(opt_attr(d, ext, "IsAppxFramework"@)),
        max_download_size: max_dl,
        min_download_size: opt_i64(opt_attr(d, ext, "MinDownloadSize"@)),
        package_content_id: opt_attr(d, ext, "PackageContentId"@),
        package_identity_name: opt_attr(d, ext, "PackageIdentityName"@),
        creation_date: opt_attr(d, ext, "CreationDate"@),
        content_type: opt_attr(d, ext, "ContentType"@),
        mandatory_version: opt_attr(d, ext, "MandatoryVersion"@),
        mandatory_date: opt_attr(d, ext, "MandatoryDate"@),
        default_properties_language: opt_attr(d, ext, "DefaultPropertiesLanguage"@),
        from_store_service: opt_bool(opt_attr(d, ext, "FromStoreService"@)),
        legacy_mobile_product_id: opt_attr(d, ext, "LegacyMobileProductId"@),
        main_package: opt_bool(opt_attr(d, install, "MainPackage"@)),
        revision_number: opt_attr(d, identity, "RevisionNumber"@),
        update_info_id: crate::xml::child_text(d, update_info, "ID"@),
        is_leaf: opt_bool(crate::xml::child_text(d, update_info, "IsLeaf"@)),
        is_shared: opt_bool(crate::xml::child_text(d, update_info, "IsShared"@)),
        installer_specific_identifier: opt_attr(d, file, "InstallerSpecificIdentifier"@),
        package_file_name: opt_attr(d, install, "PackageFileName"@),
        handler_type: opt_attr(d, handler_data, "type"@),
        prerequisites: flatten_ids(rels.0),
        bundled_updates: flatten_ids(rels.1),
        relationships: rels,
        update_properties: update_properties_spec(d, props),
        family_metadata: family_spec(d, moniker),
        category_information: category_spec(d, handler_data),
        deployment: deployment_spec(d, update_info),
        applicability_rules_xml: rules_xml_spec(d, source, new_xml),
        installation_behavior_xml: behavior_xml_spec(d, source, ext),
        extra_attributes: extras_spec(d, m, file, ext, install, props, handler_data, identity),
        all_file_locations: Seq::empty(),
    }
}

/// The instances of the first `n` nodes, in document order.
pub open spec fn instances_spec(d: Seq<XmlNodeView>, source: Seq<u8>, n: int) -> Seq<
    PackageInstanceView,
>
    decreases n,
{
    if n <= 0 {
        Seq::empty()
    } else {
        let prev = instances_spec(d, source, n - 1);
        if is_instance_node(d, n - 1) {
            prev.push(instance_spec(d, source, n - 1))
        } else {
            prev
        }
    }
}

pub open spec fn instances_view(v: Seq<PackageInstance>) -> Seq<PackageInstanceView> {
    v.map_values(|p: PackageInstance| p@)
}

/// What a `SyncUpdates` answer yields.
pub open spec fn package_instances_spec(xml: &str) -> Result<Seq<PackageInstanceView>, StoreErrorView> {
    match crate::xml::parse_document_spec(xml) {
        Err(m) => Err(StoreErrorView::Xml(m)),
        Ok(d) => Ok(instances_spec(d, xml.spec_bytes(), d.len() as int)),
    }
}

fn extras_of(
    doc: &XmlDocument,
    m: usize,
    file: Option<usize>,
    ext: Option<usize>,
    install: Option<usize>,
    props: Option<usize>,
    handler_data: Option<usize>,
    identity: Option<usize>,
) -> (r: Vec<ExtraAttribute>)
    requires
        m < doc@.len(),
        in_doc(doc@, oi(file)),
        in_doc(doc@, oi(ext)),
        in_doc(doc@, oi(install)),
        in_doc(doc@, oi(props)),
        in_doc(doc@, oi(handler_data)),
        in_doc(doc@, oi(identity)),
    ensures
        extras_view(r@) == extras_spec(
            doc@,
            m as int,
            oi(file),
            oi(ext),
            oi(install),
            oi(props),
            oi(handler_data),
            oi(identity),
        ),
{
    let mut v: Vec<ExtraAttribute> = Vec::new();
    assert(extras_view(v@) =~= Seq::<(Seq<char>, Seq<char>)>::empty());
    let k0: [&str; 3] = ["PackageMoniker", "PackageType", "IsAppxBundle"];
    assert(strs_view(k0@) =~= known_appx_metadata());
    collect_extra(doc, Some(m), &k0, &mut v);
    let k1: [&str; 7] = [
        "Digest",
        "DigestAlgorithm",
        "FileName",
        "InstallerSpecificIdentifier",
        "Modified",
        "PatchingType",
        "Size",
    ];
    assert(strs_view(k1@) =~= known_file());
    collect_extra(doc, file, &k1, &mut v);
    let k2: [&str; 13] = [
        "ContentType",
        "CreationDate",
        "DefaultPropertiesLanguage",
        "FromStoreService",
        "Handler",
        "IsAppxFramework",
        "LegacyMobileProductId",
        "MandatoryDate",
        "MandatoryVersion",
        "MaxDownloadSize",
        "MinDownloadSize",
        "PackageContentId",
        "PackageIdentityName",
    ];
    assert(strs_view(k2@) =~= known_extended_properties());
    collect_extra(doc, ext, &k2, &mut v);
    let k3: [&str; 2] = ["MainPackage", "PackageFileName"];
    assert(strs_view(k3@) =~= known_install_data());
    collect_extra(doc, install, &k3, &mut v);
    let k4: [&str; 6] = [
        "ApplyPackageRank",
        "ExplicitlyDeployable",
        "IsAppxFramework",
        "PackageRank",
        "PerUser",
        "UpdateType",
    ];
    assert(strs_view(k4@) =~= known_properties());
    collect_extra(doc, props, &k4, &mut v);
    let k5: [&str; 1] = ["type"];
    assert(strs_view(k5@) =~= known_handler_data());
    collect_extra(doc, handler_data, &k5, &mut v);
    let k6: [&str; 2] = ["UpdateID", "RevisionNumber"];
    assert(strs_view(k6@) =~= known_identity());
    collect_extra(doc, identity, &k6, &mut v);
    v
}


#[verifier::rlimit(60)]
fn build_instance(doc: &XmlDocument, xml: &str, m: usize, moniker: String) -> (r: PackageInstance)
    requires
        crate::xml::wf_doc(doc@, xml.spec_bytes()),
        m < doc@.len(),
        moniker@ == moniker_spec(doc@, m as int),
    ensures
        r@ == instance_spec(doc@, xml.spec_bytes(), m as int),
{
    let ghost d = doc@;
    let package_type = match doc.attr(m, "PackageType") {
        Some(t) => crate::helpers::string_to_package_type(t.as_str()),
        None => {
            let empty = String::new();
            crate::helpers::string_to_package_type(empty.as_str())
        },
    };
    let is_appx_bundle = opt_attr_bool(doc, Some(m), "IsAppxBundle");
    let blob = blob_of(doc, m);

    let file = doc.first_named_with_attr("File", "InstallerSpecificIdentifier", moniker.as_str());
    proof {
        match file {
            Some(k) => lemma_first_named_with_attr_in_doc(
                d,
                "File"@,
                "InstallerSpecificIdentifier"@,
                moniker@,
                k as int,
            ),
            None => {},
        }
    }
    let file_name = opt_attr_string(doc, file, "FileName");
    let digest = opt_attr_string(doc, file, "Digest");
    let digest_algorithm = opt_attr_string(doc, file, "DigestAlgorithm");
    let file_size_attr = opt_attr_i64(doc, file, "Size");
    let modified = opt_attr_string(doc, file, "Modified");
    let patching_type = opt_attr_string(doc, file, "PatchingType");
    let installer_specific_identifier = opt_attr_string(doc, file, "InstallerSpecificIdentifier");
    let (additional_digests, pieces_hash_digest, block_map_digest) = file_digests_of(doc, file);

    let update_xml = grandparent_of(doc, file);
    let ext = opt_child_named(doc, update_xml, "ExtendedProperties");
    let handler = opt_attr_string(doc, ext, "Handler");
    let is_appx_framework = opt_attr_bool(doc, ext, "IsAppxFramework");
    let max_download_size = opt_attr_i64(doc, ext, "MaxDownloadSize");
    let min_download_size = opt_attr_i64(doc, ext, "MinDownloadSize");
    let package_content_id = opt_attr_string(doc, ext, "PackageContentId");
    let package_identity_name = opt_attr_string(doc, ext, "PackageIdentityName");
    let creation_date = opt_attr_string(doc, ext, "CreationDate");
    let content_type = opt_attr_string(doc, ext, "ContentType");
    let mandatory_version = opt_attr_string(doc, ext, "MandatoryVersion");
    let mandatory_date = opt_attr_string(doc, ext, "MandatoryDate");
    let default_properties_language = opt_attr_string(doc, ext, "DefaultPropertiesLanguage");
    let from_store_service = opt_attr_bool(doc, ext, "FromStoreService");
    let legacy_mobile_product_id = opt_attr_string(doc, ext, "LegacyMobileProductId");

    let install = opt_descendant_named(doc, update_xml, "AppxPackageInstallData");
    let main_package = opt_attr_bool(doc, install, "MainPackage");
    let package_file_name = opt_attr_string(doc, install, "PackageFileName");
    let handler_data = opt_descendant_named(doc, update_xml, "HandlerSpecificData");
    let handler_type = opt_attr_string(doc, handler_data, "type");
    let category_information = category_of(doc, handler_data);

    let new_xml = doc.ancestor_named(m, "Xml");
    let identity = opt_child_named(doc, new_xml, "UpdateIdentity");
    let revision_number = opt_attr_string(doc, identity, "RevisionNumber");
    let props = opt_child_named(doc, new_xml, "Properties");
    let update_properties = update_properties_of(doc, props);
    let relationships = relationships_of_exec(doc, new_xml);
    let prerequisites = flatten_update_ids(&relationships.prerequisites);
    let bundled_updates = flatten_update_ids(&relationships.bundled_updates);
    let applicability_rules_xml = rules_xml_of(doc, xml, new_xml);
    let installation_behavior_xml = behavior_xml_of(doc, xml, ext);

    let update_info = doc.ancestor_named(m, "UpdateInfo");
    let update_info_id = doc.child_text(update_info, "ID");
    let is_leaf = match doc.child_text(update_info, "IsLeaf") {
        Some(t) => {
            let c = chars_of(t.as_str());
            parse_bool(c.as_slice())
        },
        None => None,
    };
    let is_shared = match doc.child_text(update_info, "IsShared") {
        Some(t) => {
            let c = chars_of(t.as_str());
            parse_bool(c.as_slice())
        },
        None => None,
    };
    let deployment = deployment_of(doc, update_info);
    let family_metadata = family_of(doc, moniker.as_str());
    let extra_attributes = extras_of(
        doc,
        m,
        file,
        ext,
        install,
        props,
        handler_data,
        identity,
    );

    let file_size = match file_size_attr {
        Some(x) => Some(x),
        None => max_download_size,
    };
    let readable_file_name = PackageInstance::build_readable_file_name(
        moniker.as_str(),
        match &file_name {
            Some(f) => Some(f.as_str()),
            None => None,
        },
    );
    let r = PackageInstance {
        package_moniker: moniker,
        package_uri: None,
        package_type,
        applicability_blob_json: blob,
        update_id: String::new(),
        file_size,
        file_name,
        readable_file_name,
        is_appx_bundle,
        digest,
        digest_algorithm,
        modified,
        patching_type,
        additional_digests,
        pieces_hash_digest,
        block_map_digest,
        handler,
        is_appx_framework,
        max_download_size,
        min_download_size,
        package_content_id,
        package_identity_name,
        creation_date,
        content_type,
        mandatory_version,
        mandatory_date,
        default_properties_language,
        from_store_service,
        legacy_mobile_product_id,
        main_package,
        revision_number,
        update_info_id,
        is_leaf,
        is_shared,
        installer_specific_identifier,
        package_file_name,
        handler_type,
        prerequisites,
        bundled_updates,
        relationships,
        update_properties,
        family_metadata,
        category_information,
        deployment,
        applicability_rules_xml,
        installation_behavior_xml,
        extra_attributes,
        all_file_locations: Vec::new(),
    };
    proof {
        assert(r@.all_file_locations =~= Seq::<(Seq<char>, Option<Seq<char>>)>::empty());
        assert(r@.update_id =~= Seq::<char>::empty());
    }
    r
}

/// The package instances of a parsed `SyncUpdates` answer, `xml` being the
/// text it was parsed from: one for every `<AppxMetadata>` with a
/// `PackageMoniker` and at least three attributes, in document order,
/// without download locations yet.
pub fn instances_of(doc: &XmlDocument, xml: &str) -> (r: Vec<PackageInstance>)
    requires
        crate::xml::wf_doc(doc@, xml.spec_bytes()),
    ensures
        instances_view(r@) == instances_spec(doc@, xml.spec_bytes(), doc@.len() as int),
{
    let ghost d = doc@;
    let ghost src = xml.spec_bytes();
    let mut out: Vec<PackageInstance> = Vec::new();
    let n = doc.nodes.len();
    for k in 0..n
        invariant
            n == d.len(),
            d == doc@,
            src == xml.spec_bytes(),
            crate::xml::wf_doc(d, src),
            instances_view(out@) == instances_spec(d, src, k as int),
    {
        assert(d[k as int] == doc.nodes@[k as int]@);
        if doc.is_named(k, "AppxMetadata") && doc.nodes[k].attributes.len() >= 3 {
            match doc.attr(k, "PackageMoniker") {
                Some(mk) => {
                    let inst = build_instance(doc, xml, k, mk.clone());
                    let ghost prev = instances_view(out@);
                    let ghost iv = inst@;
                    out.push(inst);
                    assert(instances_view(out@) =~= prev.push(iv));
                },
                None => {},
            }
        }
    }
    out
}

/// Reads the package instances out of a `SyncUpdates` answer: one for every
/// `<AppxMetadata>` with a `PackageMoniker` and at least three attributes,
/// in document order, without download locations yet.
pub fn get_package_instances(xml: &str) -> (r: Result<Vec<PackageInstance>, StoreError>)
    ensures
        match r {
            Ok(v) => package_instances_spec(xml) == Ok::<
                Seq<PackageInstanceView>,
                StoreErrorView,
            >(instances_view(v@)),
            Err(e) => package_instances_spec(xml) == Err::<Seq<PackageInstanceView>, StoreErrorView>(
                e@,
            ),
        },
{
    match crate::xml::parse_document(xml) {
        Ok(doc) => Ok(instances_of(&doc, xml)),
        Err(m) => Err(StoreError::Xml(m)),
    }
}


proof fn lemma_collect_extra_unique(
    s: Seq<(Seq<char>, Seq<char>)>,
    d: Seq<XmlNodeView>,
    i: int,
    known: Seq<Seq<char>>,
    n: int,
)
    requires
        keys_unique(s),
    ensures
        keys_unique(collect_extra_spec(s, d, i, known, n)),
    decreases n,
{
    if n > 0 {
        lemma_collect_extra_unique(s, d, i, known, n - 1);
        let prev = collect_extra_spec(s, d, i, known, n - 1);
        let a = d[i].attributes[n - 1];
        if !known.contains(a.0) {
            lemma_insert_entry_unique(prev, extra_key(d, i, a.0), a.1);
        }
    }
}

proof fn lemma_collect_extra_opt_unique(
    s: Seq<(Seq<char>, Seq<char>)>,
    d: Seq<XmlNodeView>,
    n: Option<int>,
    known: Seq<Seq<char>>,
)
    requires
        keys_unique(s),
    ensures
        keys_unique(collect_extra_opt(s, d, n, known)),
{
    match n {
        Some(i) => lemma_collect_extra_unique(s, d, i, known, d[i].attributes.len() as int),
        None => {},
    }
}

/// The attributes an instance records without a typed field form a map:
/// no key occurs twice.
pub proof fn lemma_extra_attributes_unique(d: Seq<XmlNodeView>, source: Seq<u8>, m: int)
    ensures
        keys_unique(instance_spec(d, source, m).extra_attributes),
{
    let moniker = moniker_spec(d, m);
    let file = primary_file_spec(d, moniker);
    let update_xml = grandparent(d, file);
    let ext = opt_child(d, update_xml, "ExtendedProperties"@);
    let install = opt_descendant(d, update_xml, "AppxPackageInstallData"@);
    let handler_data = opt_descendant(d, update_xml, "HandlerSpecificData"@);
    let new_xml = crate::xml::ancestor_named(d, m, "Xml"@);
    let identity = opt_child(d, new_xml, "UpdateIdentity"@);
    let props = opt_child(d, new_xml, "Properties"@);
    let s = Seq::<(Seq<char>, Seq<char>)>::empty();
    lemma_collect_extra_opt_unique(s, d, Some(m), known_appx_metadata());
    let s0 = collect_extra_opt(s, d, Some(m), known_appx_metadata());
    lemma_collect_extra_opt_unique(s0, d, file, known_file());
    let s1 = collect_extra_opt(s0, d, file, known_file());
    lemma_collect_extra_opt_unique(s1, d, ext, known_extended_properties());
    let s2 = collect_extra_opt(s1, d, ext, known_extended_properties());
    lemma_collect_extra_opt_unique(s2, d, install, known_install_data());
    let s3 = collect_extra_opt(s2, d, install, known_install_data());
    lemma_collect_extra_opt_unique(s3, d, props, known_properties());
    let s4 = collect_extra_opt(s3, d, props, known_properties());
    lemma_collect_extra_opt_unique(s4, d, handler_data, known_handler_data());
    let s5 = collect_extra_opt(s4, d, handler_data, known_handler_data());
    lemma_collect_extra_opt_unique(s5, d, identity, known_identity());
}

/// The value recorded under `key`: the value of the entry with that key.
pub open spec fn lookup_entry(s: Seq<(Seq<char>, Seq<char>)>, key: Seq<char>) -> Option<Seq<char>> {
    match first_index(s, key_is(key)) {
        Some(j) => Some(s[j].1),
        None => None,
    }
}

impl PackageInstance {
    /// The attribute recorded without a typed field under `key`
    /// (`"<Element>@<Attr>"`).
    pub fn extra_attribute(&self, key: &str) -> (r: Option<&String>)
        ensures
            match r {
                Some(v) => lookup_entry(extras_view(self.extra_attributes@), key@) == Some(v@),
                None => lookup_entry(extras_view(self.extra_attributes@), key@) is None,
            },
    {
        let ghost s = extras_view(self.extra_attributes@);
        let ghost p = key_is(key@);
        let n = self.extra_attributes.len();
        for j in 0..n
            invariant
                n == self.extra_attributes@.len(),
                s == extras_view(self.extra_attributes@),
                p == key_is(key@),
                forall|i: int| 0 <= i < j ==> !p(#[trigger] s[i]),
        {
            let e = &self.extra_attributes[j];
            assert(s[j as int] == e@);
            if str_eq(e.key.as_str(), key) {
                proof {
                    assert(is_first(s, p, j as int));
                    lemma_first_index_some(s, p, j as int);
                }
                return Some(&e.value);
            }
        }
        proof {
            lemma_first_index_none(s, p);
        }
        None
    }
}


/// Reading a key back after recording it gives the value recorded, and
/// recording a key leaves every other key's value as it was.
pub proof fn lemma_insert_entry_lookup(
    s: Seq<(Seq<char>, Seq<char>)>,
    k: Seq<char>,
    v: Seq<char>,
    other: Seq<char>,
)
    ensures
        lookup_entry(insert_entry(s, k, v), k) == Some(v),
        other != k ==> lookup_entry(insert_entry(s, k, v), other) == lookup_entry(s, other),
{
    let r = insert_entry(s, k, v);
    let p = key_is(k);
    let q = key_is(other);
    if exists|j: int| is_first(s, p, j) {
        let j = choose|j: int| is_first(s, p, j);
        lemma_first_index_some(s, p, j);
        assert(r == s.update(j, (k, v)));
        assert(is_first(r, p, j));
        lemma_first_index_some(r, p, j);
        if other != k {
            if exists|i: int| is_first(s, q, i) {
                let i = choose|i: int| is_first(s, q, i);
                lemma_first_index_some(s, q, i);
                assert(i != j);
                assert(is_first(r, q, i));
                lemma_first_index_some(r, q, i);
            } else {
                crate::xml::lemma_no_first(s, q);
                lemma_first_index_none(s, q);
                assert forall|i: int| 0 <= i < r.len() implies !q(#[trigger] r[i]) by {
                    if i != j {
                        assert(r[i] == s[i]);
                    }
                }
                lemma_first_index_none(r, q);
            }
        }
    } else {
        crate::xml::lemma_no_first(s, p);
        lemma_first_index_none(s, p);
        assert(r == s.push((k, v)));
        assert(is_first(r, p, s.len() as int));
        lemma_first_index_some(r, p, s.len() as int);
        if other != k {
            if exists|i: int| is_first(s, q, i) {
                let i = choose|i: int| is_first(s, q, i);
                lemma_first_index_some(s, q, i);
                assert(is_first(r, q, i));
                lemma_first_index_some(r, q, i);
            } else {
                crate::xml::lemma_no_first(s, q);
                lemma_first_index_none(s, q);
                assert forall|i: int| 0 <= i < r.len() implies !q(#[trigger] r[i]) by {
                    if i < s.len() {
                        assert(r[i] == s[i]);
                    }
                }
                lemma_first_index_none(r, q);
            }
        }
    }
}

/// Every instance's readable file name is its moniker followed by one of
/// the package extensions.
pub proof fn lemma_instance_file_name(d: Seq<XmlNodeView>, source: Seq<u8>, m: int)
    ensures
        crate::text::starts_with(
            instance_spec(d, source, m).readable_file_name,
            instance_spec(d, source, m).package_moniker,
        ),
        exists|e: Seq<char>|
            crate::fe3_model::is_known_extension(e) && instance_spec(d, source, m).readable_file_name
                == instance_spec(d, source, m).package_moniker + e,
{
    let i = instance_spec(d, source, m);
    crate::fe3_model::lemma_readable_file_name_shape(
        i.package_moniker,
        opt_attr(d, primary_file_spec(d, i.package_moniker), "FileName"@),
    );
}


/// Some entry has key `key`.
pub open spec fn has_key(s: Seq<(Seq<char>, Seq<char>)>, key: Seq<char>) -> bool {
    exists|j: int| 0 <= j < s.len() && (#[trigger] s[j]).0 == key
}

proof fn lemma_insert_entry_keys(s: Seq<(Seq<char>, Seq<char>)>, k: Seq<char>, v: Seq<char>, key: Seq<char>)
    ensures
        has_key(insert_entry(s, k, v), k),
        has_key(s, key) ==> has_key(insert_entry(s, k, v), key),
{
    let r = insert_entry(s, k, v);
    let p = key_is(k);
    if exists|j: int| is_first(s, p, j) {
        let j = choose|j: int| is_first(s, p, j);
        lemma_first_index_some(s, p, j);
        assert(r == s.update(j, (k, v)));
        assert(r[j].0 == k);
        if has_key(s, key) {
            let i = choose|i: int| 0 <= i < s.len() && (#[trigger] s[i]).0 == key;
            assert(r[i].0 == key);
        }
    } else {
        crate::xml::lemma_no_first(s, p);
        lemma_first_index_none(s, p);
        assert(r == s.push((k, v)));
        assert(r[s.len() as int].0 == k);
        if has_key(s, key) {
            let i = choose|i: int| 0 <= i < s.len() && (#[trigger] s[i]).0 == key;
            assert(r[i].0 == key);
        }
    }
}

proof fn lemma_collect_extra_keys(
    s: Seq<(Seq<char>, Seq<char>)>,
    d: Seq<XmlNodeView>,
    i: int,
    known: Seq<Seq<char>>,
    n: int,
    key: Seq<char>,
    a: int,
)
    ensures
        has_key(s, key) ==> has_key(collect_extra_spec(s, d, i, known, n), key),
        0 <= a < n && !known.contains(d[i].attributes[a].0) ==> has_key(
            collect_extra_spec(s, d, i, known, n),
            extra_key(d, i, d[i].attributes[a].0),
        ),
    decreases n,
{
    if n > 0 {
        let prev = collect_extra_spec(s, d, i, known, n - 1);
        let at = d[i].attributes[n - 1];
        lemma_collect_extra_keys(s, d, i, known, n - 1, key, a);
        let ka = extra_key(d, i, d[i].attributes[a].0);
        lemma_collect_extra_keys(s, d, i, known, n - 1, ka, a);
        if !known.contains(at.0) {
            lemma_insert_entry_keys(prev, extra_key(d, i, at.0), at.1, key);
            lemma_insert_entry_keys(prev, extra_key(d, i, at.0), at.1, ka);
        }
    }
}

proof fn lemma_collect_extra_opt_keys(
    s: Seq<(Seq<char>, Seq<char>)>,
    d: Seq<XmlNodeView>,
    n: Option<int>,
    known: Seq<Seq<char>>,
    key: Seq<char>,
)
    ensures
        has_key(s, key) ==> has_key(collect_extra_opt(s, d, n, known), key),
{
    match n {
        Some(i) => lemma_collect_extra_keys(s, d, i, known, d[i].attributes.len() as int, key, -1),
        None => {},
    }
}

/// The nodes an instance records untyped attributes of, each with the
/// attributes that have a typed field, in the order they are read.
pub open spec fn extra_sources(d: Seq<XmlNodeView>, m: int) -> Seq<(Option<int>, Seq<Seq<char>>)> {
    let moniker = moniker_spec(d, m);
    let file = primary_file_spec(d, moniker);
    let update_xml = grandparent(d, file);
    let new_xml = crate::xml::ancestor_named(d, m, "Xml"@);
    seq![
        (Some(m), known_appx_metadata()),
        (file, known_file()),
        (opt_child(d, update_xml, "ExtendedProperties"@), known_extended_properties()),
        (opt_descendant(d, update_xml, "AppxPackageInstallData"@), known_install_data()),
        (opt_child(d, new_xml, "Properties"@), known_properties()),
        (opt_descendant(d, update_xml, "HandlerSpecificData"@), known_handler_data()),
        (opt_child(d, new_xml, "UpdateIdentity"@), known_identity()),
    ]
}

/// No attribute is dropped: every attribute without a typed field, of each
/// node an instance is read from, is recorded under its
/// `<Element>@<Attr>` key.
pub proof fn lemma_no_attribute_dropped(d: Seq<XmlNodeView>, source: Seq<u8>, m: int, j: int, a: int)
    requires
        0 <= j < 7,
        extra_sources(d, m)[j].0 is Some,
        0 <= a < d[extra_sources(d, m)[j].0->0].attributes.len(),
        !extra_sources(d, m)[j].1.contains(d[extra_sources(d, m)[j].0->0].attributes[a].0),
    ensures
        has_key(
            instance_spec(d, source, m).extra_attributes,
            extra_key(
                d,
                extra_sources(d, m)[j].0->0,
                d[extra_sources(d, m)[j].0->0].attributes[a].0,
            ),
        ),
{
    let src = extra_sources(d, m);
    let n = src[j].0->0;
    let key = extra_key(d, n, d[n].attributes[a].0);
    let e = Seq::<(Seq<char>, Seq<char>)>::empty();
    let s0 = collect_extra_opt(e, d, src[0].0, src[0].1);
    let s1 = collect_extra_opt(s0, d, src[1].0, src[1].1);
    let s2 = collect_extra_opt(s1, d, src[2].0, src[2].1);
    let s3 = collect_extra_opt(s2, d, src[3].0, src[3].1);
    let s4 = collect_extra_opt(s3, d, src[4].0, src[4].1);
    let s5 = collect_extra_opt(s4, d, src[5].0, src[5].1);
    let s6 = collect_extra_opt(s5, d, src[6].0, src[6].1);
    let len = d[n].attributes.len() as int;
    if j == 0 {
        lemma_collect_extra_keys(e, d, n, src[0].1, len, key, a);
    } else if j == 1 {
        lemma_collect_extra_keys(s0, d, n, src[1].1, len, key, a);
    } else if j == 2 {
        lemma_collect_extra_keys(s1, d, n, src[2].1, len, key, a);
    } else if j == 3 {
        lemma_collect_extra_keys(s2, d, n, src[3].1, len, key, a);
    } else if j == 4 {
        lemma_collect_extra_keys(s3, d, n, src[4].1, len, key, a);
    } else if j == 5 {
        lemma_collect_extra_keys(s4, d, n, src[5].1, len, key, a);
    } else {
        lemma_collect_extra_keys(s5, d, n, src[6].1, len, key, a);
    }
    lemma_collect_extra_opt_keys(s0, d, src[1].0, src[1].1, key);
    lemma_collect_extra_opt_keys(s1, d, src[2].0, src[2].1, key);
    lemma_collect_extra_opt_keys(s2, d, src[3].0, src[3].1, key);
    lemma_collect_extra_opt_keys(s3, d, src[4].0, src[4].1, key);
    lemma_collect_extra_opt_keys(s4, d, src[5].0, src[5].1, key);
    lemma_collect_extra_opt_keys(s5, d, src[6].0, src[6].1, key);
    assert(instance_spec(d, source, m).extra_attributes == s6);
}

} // verus!
