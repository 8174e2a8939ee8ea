//! The parts of the FE3 delivery protocol that compute: the SOAP request
//! bodies, the HTML-entity decoding of `SyncUpdates` answers, and the
//! readers that pull the cookie, the update identities and the file
//! locations out of the answers.

use vstd::prelude::*;

use crate::error::{StoreError, StoreErrorView};
use crate::fe3_model::ResolvedFileLocation;
use crate::text::{chars_of, has_char, replace_all, replace_str, string_of, trim};
use crate::xml::{
    attr_of, first_element_child, first_named, parse_document, parse_document_spec, tree_ok,
    XmlDocument, XmlNodeView,
};

verus! {

/// The device token sent when the caller brings no MSA token of its own.
pub const MSA_TOKEN: &'static str = "<Device>dAA9AEUAdwBBAHcAQQBzAE4AMwBCAEEAQQBVADEAYgB5AHMAZQBtAGIAZQBEAFYAQwArADMAZgBtADcAbwBXAHkASAA3AGIAbgBnAEcAWQBtAEEAQQBMAGoAbQBqAFYAVQB2AFEAYwA0AEsAVwBFAC8AYwBDAEwANQBYAGUANABnAHYAWABkAGkAegBHAGwAZABjADEAZAAvAFcAeQAvAHgASgBQAG4AVwBRAGUAYwBtAHYAbwBjAGkAZwA5AGoAZABwAE4AawBIAG0AYQBzAHAAVABKAEwARAArAFAAYwBBAFgAbQAvAFQAcAA3AEgAagBzAEYANAA0AEgAdABsAC8AMQBtAHUAcgAwAFMAdQBtAG8AMABZAGEAdgBqAFIANwArADQAcABoAC8AcwA4ADEANgBFAFkANQBNAFIAbQBnAFIAQwA2ADMAQwBSAEoAQQBVAHYAZgBzADQAaQB2AHgAYwB5AEwAbAA2AHoAOABlAHgAMABrAFgAOQBPAHcAYQB0ADEAdQBwAFMAOAAxAEgANgA4AEEASABzAEoAegBnAFQAQQBMAG8AbgBBADIAWQBBAEEAQQBpAGcANQBJADMAUQAvAFYASABLAHcANABBAEIAcQA5AFMAcQBhADEAQgA4AGsAVQAxAGEAbwBLAEEAdQA0AHYAbABWAG4AdwBWADMAUQB6AHMATgBtAEQAaQBqAGgANQBkAEcAcgBpADgAQQBlAEUARQBWAEcAbQBXAGgASQBCAE0AUAAyAEQAVwA0ADMAZABWAGkARABUAHoAVQB0AHQARQBMAEgAaABSAGYAcgBhAGIAWgBsAHQAQQBUAEUATABmAHMARQBGAFUAYQBRAFMASgB4ADUAeQBRADgAagBaAEUAZQAyAHgANABCADMAMQB2AEIAMgBqAC8AUgBLAGEAWQAvAHEAeQB0AHoANwBUAHYAdAB3AHQAagBzADYAUQBYAEIAZQA4AHMAZwBJAG8AOQBiADUAQQBCADcAOAAxAHMANgAvAGQAUwBFAHgATgBEAEQAYQBRAHoAQQBYAFAAWABCAFkAdQBYAFEARQBzAE8AegA4AHQAcgBpAGUATQBiAEIAZQBUAFkAOQBiAG8AQgBOAE8AaQBVADcATgBSAEYAOQAzAG8AVgArAFYAQQBiAGgAcAAwAHAAUgBQAFMAZQBmAEcARwBPAHEAdwBTAGcANwA3AHMAaAA5AEoASABNAHAARABNAFMAbgBrAHEAcgAyAGYARgBpAEMAUABrAHcAVgBvAHgANgBuAG4AeABGAEQAbwBXAC8AYQAxAHQAYQBaAHcAegB5AGwATAAxADIAdwB1AGIAbQA1AHUAbQBwAHEAeQBXAGMASwBSAGoAeQBoADIASgBUAEYASgBXADUAZwBYAEUASQA1AHAAOAAwAEcAdQAyAG4AeABMAFIATgB3AGkAdwByADcAVwBNAFIAQQBWAEsARgBXAE0AZQBSAHoAbAA5AFUAcQBnAC8AcABYAC8AdgBlAEwAdwBTAGsAMgBTAFMASABmAGEASwA2AGoAYQBvAFkAdQBuAFIARwByADgAbQBiAEUAbwBIAGwARgA2AEoAQwBhAGEAVABCAFgAQgBjAHYAdQBlAEMASgBvADkAOABoAFIAQQByAEcAdwA0ACsAUABIAGUAVABiAE4AUwBFAFgAWAB6AHYAWgA2AHUAVwA1AEUAQQBmAGQAWgBtAFMAOAA4AFYASgBjAFoAYQBGAEsANwB4AHgAZwAwAHcAbwBuADcAaAAwAHgAQwA2AFoAQgAwAGMAWQBqAEwAcgAvAEcAZQBPAHoAOQBHADQAUQBVAEgAOQBFAGsAeQAwAGQAeQBGAC8AcgBlAFUAMQBJAHkAaQBhAHAAcABoAE8AUAA4AFMAMgB0ADQAQgByAFAAWgBYAFQAdgBDADAAUAA3AHoATwArAGYARwBrAHgAVgBtACsAVQBmAFoAYgBRADUANQBzAHcARQA9ACYAcAA9AA==</Device>";

// ---------------------------------------------------------------------------
// Strings
// ---------------------------------------------------------------------------

/// The characters of each string.
pub open spec fn strings_view(v: Seq<String>) -> Seq<Seq<char>> {
    v.map_values(|s: String| s@)
}

/// The five entities of SOAP answers decoded, one after the other, each
/// over the output of the one before (`&amp;lt;` becomes `<`).
pub open spec fn html_decode_spec(s: Seq<char>) -> Seq<char> {
    replace_all(
        replace_all(
            replace_all(replace_all(replace_all(s, "&amp;"@, "&"@), "&lt;"@, "<"@), "&gt;"@, ">"@),
            "&quot;"@,
            "\""@,
        ),
        "&apos;"@,
        "'"@,
    )
}

/// Decodes the HTML entities used in SOAP responses.
pub fn html_decode(s: &str) -> (r: String)
    ensures
        r@ == html_decode_spec(s@),
{
    proof {
        reveal_strlit("&amp;");
        reveal_strlit("&lt;");
        reveal_strlit("&gt;");
        reveal_strlit("&quot;");
        reveal_strlit("&apos;");
    }
    let v = chars_of(s);
    let v = replace_str(v.as_slice(), "&amp;", "&");
    let v = replace_str(v.as_slice(), "&lt;", "<");
    let v = replace_str(v.as_slice(), "&gt;", ">");
    let v = replace_str(v.as_slice(), "&quot;", "\"");
    let v = replace_str(v.as_slice(), "&apos;", "'");
    string_of(v.as_slice())
}

/// A pattern whose first character does not occur in `s` is never replaced.
proof fn lemma_replace_absent(s: Seq<char>, pat: Seq<char>, rep: Seq<char>)
    requires
        pat.len() > 0,
        !has_char(s, pat[0]),
    ensures
        replace_all(s, pat, rep) == s,
    decreases s.len(),
{
    if s.len() >= pat.len() {
        assert(s.take(pat.len() as int) != pat) by {
            assert(s.take(pat.len() as int)[0] == s[0]);
            assert(s[0] != pat[0]);
        }
        let t = s.skip(1);
        assert(!has_char(t, pat[0])) by {
            if has_char(t, pat[0]) {
                let j = choose|j: int| 0 <= j < t.len() && t[j] == pat[0];
                assert(s[j + 1] == pat[0]);
            }
        }
        lemma_replace_absent(t, pat, rep);
        assert(seq![s[0]] + t =~= s);
    }
}

/// Text without an `&` comes out of the decoder unchanged.
pub proof fn lemma_html_decode_plain(s: Seq<char>)
    requires
        !has_char(s, '&'),
    ensures
        html_decode_spec(s) == s,
{
    reveal_strlit("&amp;");
    reveal_strlit("&lt;");
    reveal_strlit("&gt;");
    reveal_strlit("&quot;");
    reveal_strlit("&apos;");
    lemma_replace_absent(s, "&amp;"@, "&"@);
    lemma_replace_absent(s, "&lt;"@, "<"@);
    lemma_replace_absent(s, "&gt;"@, ">"@);
    lemma_replace_absent(s, "&quot;"@, "\""@);
    lemma_replace_absent(s, "&apos;"@, "'"@);
}

// ---------------------------------------------------------------------------
// Request bodies
// ---------------------------------------------------------------------------

/// The token a request carries: the caller's, else [`MSA_TOKEN`].
pub open spec fn token_spec(msa_token: Option<Seq<char>>) -> Seq<char> {
    match msa_token {
        Some(t) => t,
        None => MSA_TOKEN@,
    }
}

/// A SOAP template with `{0}`, `{1}` and `{2}` filled in, in that order.
pub open spec fn soap_body_spec(
    template: Seq<char>,
    first: Seq<char>,
    second: Seq<char>,
    msa_token: Option<Seq<char>>,
) -> Seq<char> {
    replace_all(
        replace_all(replace_all(template, "{0}"@, first), "{1}"@, second),
        "{2}"@,
        token_spec(msa_token),
    )
}

/// Fills a SOAP template: `{0}` with `first`, then `{1}` with `second`,
/// then `{2}` with the MSA token (the built-in device token when none is
/// given). `SyncUpdates` takes the cookie and the WuCategoryId,
/// `GetExtendedUpdateInfo2` the update ID and the revision number.
pub fn soap_body(template: &str, first: &str, second: &str, msa_token: Option<&str>) -> (r: String)
    ensures
        r@ == soap_body_spec(
            template@,
            first@,
            second@,
            match msa_token {
                Some(t) => Some(t@),
                None => None,
            },
        ),
{
    proof {
        reveal_strlit("{0}");
        reveal_strlit("{1}");
        reveal_strlit("{2}");
    }
    let token = match msa_token {
        Some(t) => t,
        None => MSA_TOKEN,
    };
    let v = chars_of(template);
    let v = replace_str(v.as_slice(), "{0}", first);
    let v = replace_str(v.as_slice(), "{1}", second);
    let v = replace_str(v.as_slice(), "{2}", token);
    string_of(v.as_slice())
}

/// The `GetExtendedUpdateInfo2` body for request `i`: `None` when the
/// update has no revision number, which the download loop answers with an
/// empty list of locations.
pub fn file_url_request_body(
    template: &str,
    update_ids: &[String],
    revision_ids: &[String],
    i: usize,
    msa_token: Option<&str>,
) -> (r: Option<String>)
    requires
        i < update_ids@.len(),
    ensures
        i < revision_ids@.len() <==> r is Some,
        r matches Some(b) ==> b@ == soap_body_spec(
            template@,
            update_ids@[i as int]@,
            revision_ids@[i as int]@,
            match msa_token {
                Some(t) => Some(t@),
                None => None,
            },
        ),
{
    if i < revision_ids.len() {
        Some(soap_body(template, update_ids[i].as_str(), revision_ids[i].as_str(), msa_token))
    } else {
        None
    }
}

// ---------------------------------------------------------------------------
// The cookie
// ---------------------------------------------------------------------------

pub open spec fn cookie_missing_message() -> Seq<char> {
    "EncryptedData node not found in cookie response"@
}

/// What a `GetCookie` answer yields: the text of its first `EncryptedData`
/// node.
pub open spec fn cookie_spec(xml: &str) -> Result<Seq<char>, StoreErrorView> {
    match parse_document_spec(xml) {
        Err(m) => Err(StoreErrorView::Xml(m)),
        Ok(d) => cookie_in(d),
    }
}

fn cookie_missing() -> (e: StoreError)
    ensures
        e@ == StoreErrorView::Xml(cookie_missing_message()),
{
    let m = "EncryptedData node not found in cookie response";
    StoreError::Xml(m.to_owned())
}

/// The cookie of a parsed `GetCookie` answer: the text of its first
/// `EncryptedData` node.
pub open spec fn cookie_in(d: Seq<XmlNodeView>) -> Result<Seq<char>, StoreErrorView> {
    match first_named(d, "EncryptedData"@) {
        Some(k) => match d[k].text {
            Some(t) => Ok(t),
            None => Err(StoreErrorView::Xml(cookie_missing_message())),
        },
        None => Err(StoreErrorView::Xml(cookie_missing_message())),
    }
}

/// Reads the cookie out of a parsed `GetCookie` answer.
pub fn cookie_of(doc: &XmlDocument) -> (r: Result<String, StoreError>)
    ensures
        match r {
            Ok(c) => cookie_in(doc@) == Ok::<Seq<char>, StoreErrorView>(c@),
            Err(e) => cookie_in(doc@) == Err::<Seq<char>, StoreErrorView>(e@),
        },
{
    match doc.first_named("EncryptedData") {
        Some(k) => match doc.text(k) {
            Some(t) => Ok(t.clone()),
            None => Err(cookie_missing()),
        },
        None => Err(cookie_missing()),
    }
}

/// Reads the cookie out of a `GetCookie` answer: the text of its first
/// `EncryptedData` node.
pub fn parse_cookie(xml: &str) -> (r: Result<String, StoreError>)
    ensures
        match r {
            Ok(c) => cookie_spec(xml) == Ok::<Seq<char>, StoreErrorView>(c@),
            Err(e) => cookie_spec(xml) == Err::<Seq<char>, StoreErrorView>(e@),
        },
{
    match parse_document(xml) {
        Ok(doc) => cookie_of(&doc),
        Err(m) => Err(StoreError::Xml(m)),
    }
}

// ---------------------------------------------------------------------------
// Update identities
// ---------------------------------------------------------------------------

/// For a `SecuredFragment` node `i`: the `UpdateID` and `RevisionNumber`
/// of the first element under its grandparent, when both are there.
pub open spec fn update_pair(d: Seq<XmlNodeView>, i: int) -> Option<(Seq<char>, Seq<char>)> {
    if d[i].name == "SecuredFragment"@ {
        match d[i].parent {
            Some(p) => match d[p].parent {
                Some(g) => match first_element_child(d, g) {
                    Some(c) => match (attr_of(d, c, "UpdateID"@), attr_of(d, c, "RevisionNumber"@)) {
                        (Some(u), Some(v)) => Some((u, v)),
                        _ => None,
                    },
                    None => None,
                },
                None => None,
            },
            None => None,
        }
    } else {
        None
    }
}

/// The identity pairs of the first `n` nodes, in document order.
pub open spec fn update_pairs(d: Seq<XmlNodeView>, n: int) -> Seq<(Seq<char>, Seq<char>)>
    decreases n,
{
    if n <= 0 {
        Seq::empty()
    } else {
        let prev = update_pairs(d, n - 1);
        match update_pair(d, n - 1) {
            Some(p) => prev.push(p),
            None => prev,
        }
    }
}

pub open spec fn pair_firsts(s: Seq<(Seq<char>, Seq<char>)>) -> Seq<Seq<char>> {
    s.map_values(|p: (Seq<char>, Seq<char>)| p.0)
}

pub open spec fn pair_seconds(s: Seq<(Seq<char>, Seq<char>)>) -> Seq<Seq<char>> {
    s.map_values(|p: (Seq<char>, Seq<char>)| p.1)
}

fn update_pair_at(doc: &XmlDocument, i: usize) -> (r: Option<(String, String)>)
    requires
        i < doc@.len(),
        tree_ok(doc@),
    ensures
        match r {
            Some((u, v)) => update_pair(doc@, i as int) == Some((u@, v@)),
            None => update_pair(doc@, i as int) is None,
        },
{
    let ghost d = doc@;
    if !doc.is_named(i, "SecuredFragment") {
        return None;
    }
    assert(crate::xml::links_ok(d, i as int));
    assert(d[i as int] == doc.nodes@[i as int]@);
    let p = match doc.nodes[i].parent {
        Some(p) => p,
        None => {
            return None;
        },
    };
    assert(crate::xml::links_ok(d, p as int));
    assert(d[p as int] == doc.nodes@[p as int]@);
    let g = match doc.nodes[p].parent {
        Some(g) => g,
        None => {
            return None;
        },
    };
    let c = match doc.first_element_child(g) {
        Some(c) => c,
        None => {
            return None;
        },
    };
    let u = doc.attr(c, "UpdateID");
    let v = doc.attr(c, "RevisionNumber");
    match (u, v) {
        (Some(u), Some(v)) => Some((u.clone(), v.clone())),
        _ => None,
    }
}

/// The update IDs and revision numbers of a parsed `SyncUpdates` answer:
/// for every `SecuredFragment` node, in document order, the `UpdateID` and
/// `RevisionNumber` of the first element under its grandparent (the
/// `UpdateIdentity` of the update), when both are there.
pub fn update_ids_of(doc: &XmlDocument) -> (r: (Vec<String>, Vec<String>))
    requires
        tree_ok(doc@),
    ensures
        strings_view(r.0@) == pair_firsts(update_pairs(doc@, doc@.len() as int)),
        strings_view(r.1@) == pair_seconds(update_pairs(doc@, doc@.len() as int)),
        r.0@.len() == r.1@.len(),
{
    let ghost d = doc@;
    let mut ids: Vec<String> = Vec::new();
    let mut revs: Vec<String> = Vec::new();
    let n = doc.nodes.len();
    for k in 0..n
        invariant
            n == d.len(),
            d == doc@,
            tree_ok(d),
            strings_view(ids@) == pair_firsts(update_pairs(d, k as int)),
            strings_view(revs@) == pair_seconds(update_pairs(d, k as int)),
    {
        let ghost prev = update_pairs(d, k as int);
        match update_pair_at(doc, k) {
            Some((u, v)) => {
                let ghost pair = (u@, v@);
                assert(update_pairs(d, k + 1) == prev.push(pair));
                ids.push(u);
                revs.push(v);
                proof {
                    assert(pair_firsts(prev.push(pair)) =~= pair_firsts(prev).push(pair.0));
                    assert(pair_seconds(prev.push(pair)) =~= pair_seconds(prev).push(pair.1));
                    assert(strings_view(ids@) =~= pair_firsts(update_pairs(d, k + 1)));
                    assert(strings_view(revs@) =~= pair_seconds(update_pairs(d, k + 1)));
                }
            },
            None => {
                assert(update_pairs(d, k + 1) == prev);
            },
        }
    }
    proof {
        assert(ids@.len() == strings_view(ids@).len());
        assert(revs@.len() == strings_view(revs@).len());
    }
    (ids, revs)
}

/// The update IDs and revision numbers of a `SyncUpdates` answer: for every
/// `SecuredFragment` node, in document order, the `UpdateID` and
/// `RevisionNumber` of the first element under its grandparent (the
/// `UpdateIdentity` of the update), when both are there.
pub fn process_update_ids(xml: &str) -> (r: Result<(Vec<String>, Vec<String>), StoreError>)
    ensures
        match r {
            Ok((ids, revs)) => match parse_document_spec(xml) {
                Ok(d) => strings_view(ids@) == pair_firsts(update_pairs(d, d.len() as int))
                    && strings_view(revs@) == pair_seconds(update_pairs(d, d.len() as int)),
                Err(_) => false,
            },
            Err(e) => match parse_document_spec(xml) {
                Err(m) => e@ == StoreErrorView::Xml(m),
                Ok(_) => false,
            },
        },
        r matches Ok((ids, revs)) ==> ids@.len() == revs@.len(),
{
    match parse_document(xml) {
        Ok(doc) => Ok(update_ids_of(&doc)),
        Err(m) => Err(StoreError::Xml(m)),
    }
}

// ---------------------------------------------------------------------------
// File locations
// ---------------------------------------------------------------------------

/// The `Url` and `FileDigest` read from the first `n` children `cs` of a
/// `FileLocation`: a later `Url` with text replaces an earlier one, a later
/// `FileDigest` replaces the digest (with `None` when it has no text).
pub open spec fn location_fields(d: Seq<XmlNodeView>, cs: Seq<int>, n: int) -> (
    Option<Seq<char>>,
    Option<Seq<char>>,
)
    decreases n,
{
    if n <= 0 {
        (None, None)
    } else {
        let prev = location_fields(d, cs, n - 1);
        let c = cs[n - 1];
        if d[c].name == "Url"@ {
            match d[c].text {
                Some(t) => (Some(t), prev.1),
                None => prev,
            }
        } else if d[c].name == "FileDigest"@ {
            (
                prev.0,
                match d[c].text {
                    Some(t) => Some(trim(t)),
                    None => None,
                },
            )
        } else {
            prev
        }
    }
}

/// The location a `FileLocation` node `i` describes, when it has a URL.
pub open spec fn location_at(d: Seq<XmlNodeView>, i: int) -> Option<(Seq<char>, Option<Seq<char>>)> {
    if d[i].name == "FileLocation"@ {
        let f = location_fields(d, d[i].children, d[i].children.len() as int);
        match f.0 {
            Some(u) => Some((u, f.1)),
            None => None,
        }
    } else {
        None
    }
}

/// The locations of the first `n` nodes, in document order.
pub open spec fn locations(d: Seq<XmlNodeView>, n: int) -> Seq<(Seq<char>, Option<Seq<char>>)>
    decreases n,
{
    if n <= 0 {
        Seq::empty()
    } else {
        let prev = locations(d, n - 1);
        match location_at(d, n - 1) {
            Some(l) => prev.push(l),
            None => prev,
        }
    }
}

/// What a `GetExtendedUpdateInfo2` answer yields.
pub open spec fn file_locations_spec(xml: &str) -> Result<
    Seq<(Seq<char>, Option<Seq<char>>)>,
    StoreErrorView,
> {
    match parse_document_spec(xml) {
        Err(m) => Err(StoreErrorView::Xml(m)),
        Ok(d) => Ok(locations(d, d.len() as int)),
    }
}

fn location_of(doc: &XmlDocument, i: usize) -> (r: Option<ResolvedFileLocation>)
    requires
        i < doc@.len(),
        tree_ok(doc@),
    ensures
        match r {
            Some(l) => location_at(doc@, i as int) == Some(l@),
            None => location_at(doc@, i as int) is None,
        },
{
    let ghost d = doc@;
    if !doc.is_named(i, "FileLocation") {
        return None;
    }
    let node = &doc.nodes[i];
    assert(d[i as int] == node@);
    assert(crate::xml::links_ok(d, i as int));
    let mut url: Option<String> = None;
    let mut digest: Option<String> = None;
    let m = node.children.len();
    for k in 0..m
        invariant
            m == node@.children.len(),
            d == doc@,
            d[i as int] == node@,
            crate::xml::links_ok(d, i as int),
            i < d.len(),
            (crate::xml::opt_view(url), crate::xml::opt_view(digest)) == location_fields(
                d,
                node@.children,
                k as int,
            ),
    {
        let c = node.children[k];
        assert(node@.children[k as int] == c as int);
        assert(d[c as int] == doc.nodes@[c as int]@);
        if doc.is_named(c, "Url") {
            match &doc.nodes[c].text {
                Some(t) => {
                    url = Some(t.clone());
                },
                None => {},
            }
        } else if doc.is_named(c, "FileDigest") {
            digest = match &doc.nodes[c].text {
                Some(t) => {
                    let v = chars_of(t.as_str());
                    let w = crate::text::trim_chars(v.as_slice());
                    Some(string_of(w.as_slice()))
                },
                None => None,
            };
        }
    }
    match url {
        Some(u) => Some(ResolvedFileLocation { url: u, digest }),
        None => None,
    }
}

/// The file locations of a parsed `GetExtendedUpdateInfo2` answer: every
/// `FileLocation` with a `Url`, in document order, with its trimmed
/// `FileDigest`.
pub fn file_locations_of(doc: &XmlDocument) -> (r: Vec<ResolvedFileLocation>)
    requires
        tree_ok(doc@),
    ensures
        r@.map_values(|l: ResolvedFileLocation| l@) == locations(doc@, doc@.len() as int),
{
    let ghost d = doc@;
    let mut out: Vec<ResolvedFileLocation> = Vec::new();
    let n = doc.nodes.len();
    for k in 0..n
        invariant
            n == d.len(),
            d == doc@,
            tree_ok(d),
            out@.map_values(|l: ResolvedFileLocation| l@) == locations(d, k as int),
    {
        match location_of(doc, k) {
            Some(l) => {
                out.push(l);
                assert(out@.map_values(|l: ResolvedFileLocation| l@) =~= locations(d, k + 1));
            },
            None => {},
        }
    }
    out
}

/// Reads the file locations out of a `GetExtendedUpdateInfo2` answer:
/// every `FileLocation` with a `Url`, in document order, with its trimmed
/// `FileDigest`.
pub fn parse_file_locations(xml: &str) -> (r: Result<Vec<ResolvedFileLocation>, StoreError>)
    ensures
        match r {
            Ok(v) => file_locations_spec(xml) == Ok::<
                Seq<(Seq<char>, Option<Seq<char>>)>,
                StoreErrorView,
            >(v@.map_values(|l: ResolvedFileLocation| l@)),
            Err(e) => file_locations_spec(xml) == Err::<
                Seq<(Seq<char>, Option<Seq<char>>)>,
                StoreErrorView,
            >(e@),
        },
{
    match parse_document(xml) {
        Ok(doc) => Ok(file_locations_of(&doc)),
        Err(m) => Err(StoreError::Xml(m)),
    }
}

/// The URL of an update's first resolved location, `""` when it resolved none.
pub open spec fn first_url_of(locs: Seq<(Seq<char>, Option<Seq<char>>)>) -> Seq<char> {
    if locs.len() > 0 {
        locs[0].0
    } else {
        Seq::empty()
    }
}

pub open spec fn locations_view(v: Seq<Vec<ResolvedFileLocation>>) -> Seq<
    Seq<(Seq<char>, Option<Seq<char>>)>,
> {
    v.map_values(|l: Vec<ResolvedFileLocation>| l@.map_values(|x: ResolvedFileLocation| x@))
}

/// The primary URL of each update, keyed parallel to the updates: entry `i`
/// is the first location's URL of update `i`, or `""` where it resolved
/// none. Each comes without a size, which FE3 does not give per URL.
pub fn first_urls(per_update: &[Vec<ResolvedFileLocation>]) -> (r: Vec<(String, Option<i64>)>)
    ensures
        r@.len() == per_update@.len(),
        forall|i: int|
            0 <= i < r@.len() ==> (#[trigger] r@[i]).0@ == first_url_of(
                locations_view(per_update@)[i],
            ) && r@[i].1 is None,
{
    let ghost pv = locations_view(per_update@);
    let mut out: Vec<(String, Option<i64>)> = Vec::new();
    let n = per_update.len();
    for k in 0..n
        invariant
            n == per_update@.len(),
            pv == locations_view(per_update@),
            out@.len() == k,
            forall|i: int|
                0 <= i < k ==> (#[trigger] out@[i]).0@ == first_url_of(pv[i]) && out@[i].1 is None,
    {
        let locs = &per_update[k];
        assert(pv[k as int] == locs@.map_values(|x: ResolvedFileLocation| x@));
        if locs.len() > 0 {
            assert(pv[k as int][0] == locs@[0]@);
            out.push((locs[0].url.clone(), None));
        } else {
            out.push((String::new(), None));
        }
    }
    out
}

} // verus!
