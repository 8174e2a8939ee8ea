//! The decisions of a DisplayCatalog query and of package resolution: how
//! an HTTP status settles a query, and how the FE3 locations and the
//! catalog's sizes are attached to the package instances.

use vstd::prelude::*;

use crate::enums::DisplayCatalogResult;
use crate::error::{StoreError, StoreErrorView};
use crate::fe3_model::{PackageInstance, PackageInstanceView, ResolvedFileLocation};
use crate::packages::instances_view;
use crate::text::str_eq;
use crate::xml::{first_index, is_first, lemma_first_index_none, lemma_first_index_some, opt_view};

verus! {

// ---------------------------------------------------------------------------
// Query state
// ---------------------------------------------------------------------------

/// How an HTTP status settles a single-product query.
#[derive(Debug, Clone, Copy, PartialEq, Eq, Structural)]
pub enum QueryOutcome {
    /// A 2xx status: the body holds the listing.
    Found,
    /// 404: the product does not exist.
    NotFound,
    /// Anything else: the query failed.
    Failed,
}

pub open spec fn query_outcome_spec(status: u16) -> QueryOutcome {
    if 200 <= status <= 299 {
        QueryOutcome::Found
    } else if status == 404 {
        QueryOutcome::NotFound
    } else {
        QueryOutcome::Failed
    }
}

/// The state a DisplayCatalog handler keeps about its last query.
#[derive(Debug, Clone)]
pub struct QueryState {
    /// The identifier of the last single-product query.
    pub id: Option<String>,
    pub result: Option<DisplayCatalogResult>,
    pub is_found: bool,
}

impl QueryState {
    /// The state of a handler that has not queried yet.
    pub fn new() -> (r: Self)
        ensures
            r.id is None,
            r.result is None,
            !r.is_found,
    {
        QueryState { id: None, result: None, is_found: false }
    }

    /// A single-product query for `id` starts: the id is recorded and the
    /// previous result forgotten.
    pub fn begin_single(&mut self, id: &str)
        ensures
            final(self).id matches Some(x) && x@ == id@,
            final(self).result is None,
            !final(self).is_found,
    {
        self.id = Some(id.to_owned());
        self.result = None;
        self.is_found = false;
    }

    /// A batch query starts: no single id, the previous result forgotten.
    pub fn begin_batch(&mut self)
        ensures
            final(self).id is None,
            final(self).result is None,
            !final(self).is_found,
    {
        self.id = None;
        self.result = None;
        self.is_found = false;
    }

    /// A single-product query got an HTTP `status` (and, for a 2xx, a body
    /// that parsed). Found: the result is `Found`; 404: `NotFound`; any
    /// other status leaves the state as the query began.
    pub fn finish_single(&mut self, status: u16) -> (r: QueryOutcome)
        ensures
            r == query_outcome_spec(status),
            final(self).id == old(self).id,
            match r {
                QueryOutcome::Found => final(self).result == Some(DisplayCatalogResult::Found)
                    && final(self).is_found,
                QueryOutcome::NotFound => final(self).result == Some(DisplayCatalogResult::NotFound)
                    && final(self).is_found == old(self).is_found,
                QueryOutcome::Failed => final(self).result == old(self).result
                    && final(self).is_found == old(self).is_found,
            },
    {
        if 200 <= status && status <= 299 {
            self.result = Some(DisplayCatalogResult::Found);
            self.is_found = true;
            QueryOutcome::Found
        } else if status == 404 {
            self.result = Some(DisplayCatalogResult::NotFound);
            QueryOutcome::NotFound
        } else {
            QueryOutcome::Failed
        }
    }

    /// A search got an HTTP `status` (and, for a 2xx, a body that parsed):
    /// it succeeded exactly on a 2xx, which records `Found`.
    pub fn finish_search(&mut self, status: u16) -> (r: bool)
        ensures
            r == (200 <= status <= 299),
            final(self).id == old(self).id,
            final(self).is_found == old(self).is_found,
            final(self).result == (if r {
                Some(DisplayCatalogResult::Found)
            } else {
                old(self).result
            }),
    {
        if 200 <= status && status <= 299 {
            self.result = Some(DisplayCatalogResult::Found);
            true
        } else {
            false
        }
    }

    /// A batch query's listing parsed with `count` products: the result is
    /// `Found`, and the handler has found something when `count > 0`.
    pub fn finish_batch(&mut self, count: usize)
        ensures
            final(self).id == old(self).id,
            final(self).result == Some(DisplayCatalogResult::Found),
            final(self).is_found == (count > 0),
    {
        self.result = Some(DisplayCatalogResult::Found);
        self.is_found = count > 0;
    }
}

pub open spec fn empty_batch_message() -> Seq<char> {
    "query_dcat_batch: ids must be non-empty"@
}

/// A batch query needs at least one id.
pub fn check_batch_ids(ids: &[&str]) -> (r: Result<(), StoreError>)
    ensures
        r is Ok <==> ids@.len() > 0,
        r matches Err(e) ==> e@ == StoreErrorView::Other(empty_batch_message()),
{
    if ids.len() == 0 {
        let m = "query_dcat_batch: ids must be non-empty";
        Err(StoreError::Other(m.to_owned()))
    } else {
        Ok(())
    }
}

/// The byte window `[start, end)` of a text of `len` bytes shown around a
/// JSON error at 1-based column `col`: `radius` bytes on each side of the
/// error position (clamped to the text), and the error's offset inside the
/// window.
pub fn json_context_window(len: usize, col: usize, radius: usize) -> (r: (usize, usize, usize))
    ensures
        ({
            let pos = if col == 0 {
                0
            } else if col - 1 < len {
                col - 1
            } else {
                len as int
            };
            let start = if pos >= radius {
                pos - radius
            } else {
                0
            };
            let end = if pos + radius < len {
                pos + radius
            } else {
                len as int
            };
            r.0 == start && r.1 == end && r.2 == pos - start
        }),
        r.0 <= r.1 <= len,
{
    let pos = if col == 0 {
        0
    } else if col - 1 < len {
        col - 1
    } else {
        len
    };
    let start = if pos >= radius {
        pos - radius
    } else {
        0
    };
    let end = if radius < len - pos {
        pos + radius
    } else {
        len
    };
    (start, end, pos - start)
}

// ---------------------------------------------------------------------------
// Attaching locations
// ---------------------------------------------------------------------------

/// A package's download size as DisplayCatalog lists it: its
/// `PackageFullName` (the FE3 moniker) and `MaxDownloadSizeInBytes`.
#[derive(Debug, Clone)]
pub struct CatalogPackageSize {
    pub package_full_name: String,
    pub max_download_size: i64,
}

impl View for CatalogPackageSize {
    type V = (Seq<char>, i64);

    open spec fn view(&self) -> (Seq<char>, i64) {
        (self.package_full_name@, self.max_download_size)
    }
}

pub open spec fn sizes_view(v: Seq<CatalogPackageSize>) -> Seq<(Seq<char>, i64)> {
    v.map_values(|c: CatalogPackageSize| c@)
}

/// The catalog size of `name`: the last entry for it wins.
pub open spec fn catalog_size(sizes: Seq<(Seq<char>, i64)>, name: Seq<char>) -> Option<i64>
    decreases sizes.len(),
{
    if sizes.len() == 0 {
        None
    } else if sizes.last().0 == name {
        Some(sizes.last().1)
    } else {
        catalog_size(sizes.drop_last(), name)
    }
}

pub open spec fn digest_is(want: Seq<char>) -> spec_fn((Seq<char>, Option<Seq<char>>)) -> bool {
    |l: (Seq<char>, Option<Seq<char>>)| l.1 == Some(want)
}

/// The primary download URL: the location whose digest is the binary's,
/// else the first location.
pub open spec fn primary_uri_spec(
    digest: Option<Seq<char>>,
    locs: Seq<(Seq<char>, Option<Seq<char>>)>,
) -> Option<Seq<char>> {
    let first = if locs.len() > 0 {
        Some(locs[0].0)
    } else {
        None
    };
    match digest {
        Some(want) => match first_index(locs, digest_is(want)) {
            Some(j) => Some(locs[j].0),
            None => first,
        },
        None => first,
    }
}

/// An instance once resolved: its update ID, every location, the primary
/// URL picked among them, and — when FE3 gave no size — the catalog's.
pub open spec fn resolved_spec(
    p: PackageInstanceView,
    update_id: Seq<char>,
    locs: Seq<(Seq<char>, Option<Seq<char>>)>,
    sizes: Seq<(Seq<char>, i64)>,
) -> PackageInstanceView {
    PackageInstanceView {
        update_id: update_id,
        package_uri: primary_uri_spec(p.digest, locs),
        all_file_locations: locs,
        file_size: if p.file_size is None {
            catalog_size(sizes, p.package_moniker)
        } else {
            p.file_size
        },
        ..p
    }
}

pub open spec fn locs_view(v: Seq<ResolvedFileLocation>) -> Seq<(Seq<char>, Option<Seq<char>>)> {
    v.map_values(|l: ResolvedFileLocation| l@)
}

fn catalog_size_of(sizes: &[CatalogPackageSize], name: &str) -> (r: Option<i64>)
    ensures
        r == catalog_size(sizes_view(sizes@), name@),
{
    let mut k = sizes.len();
    assert(sizes_view(sizes@).take(k as int) =~= sizes_view(sizes@));
    while k > 0
        invariant
            k <= sizes@.len(),
            catalog_size(sizes_view(sizes@), name@) == catalog_size(
                sizes_view(sizes@).take(k as int),
                name@,
            ),
        decreases k,
    {
        let ghost t = sizes_view(sizes@).take(k as int);
        assert(t.last() == sizes@[k - 1]@);
        assert(t.drop_last() =~= sizes_view(sizes@).take(k - 1));
        if str_eq(sizes[k - 1].package_full_name.as_str(), name) {
            return Some(sizes[k - 1].max_download_size);
        }
        k = k - 1;
    }
    assert(sizes_view(sizes@).take(0) =~= Seq::<(Seq<char>, i64)>::empty());
    None
}

fn primary_uri(digest: &Option<String>, locs: &Vec<ResolvedFileLocation>) -> (r: Option<String>)
    ensures
        opt_view(r) == primary_uri_spec(opt_view(*digest), locs_view(locs@)),
{
    let ghost lv = locs_view(locs@);
    let first = if locs.len() > 0 {
        assert(lv[0] == locs@[0]@);
        Some(locs[0].url.clone())
    } else {
        None
    };
    let want = match digest {
        Some(w) => w,
        None => {
            return first;
        },
    };
    assert(opt_view(*digest) == Some(want@));
    let ghost p = digest_is(want@);
    let n = locs.len();
    for j in 0..n
        invariant
            n == locs@.len(),
            lv == locs_view(locs@),
            p == digest_is(want@),
            forall|i: int| 0 <= i < j ==> !p(#[trigger] lv[i]),
            opt_view(*digest) == Some(want@),
            opt_view(first) == (if lv.len() > 0 {
                Some(lv[0].0)
            } else {
                None::<Seq<char>>
            }),
    {
        assert(lv[j as int] == locs@[j as int]@);
        let matches = match &locs[j].digest {
            Some(g) => str_eq(g.as_str(), want.as_str()),
            None => false,
        };
        if matches {
            proof {
                assert(is_first(lv, p, j as int));
                lemma_first_index_some(lv, p, j as int);
            }
            return Some(locs[j].url.clone());
        }
    }
    proof {
        lemma_first_index_none(lv, p);
    }
    first
}

/// Attaches what FE3 and the catalog resolved to one instance.
pub fn resolve_package(
    inst: PackageInstance,
    update_id: String,
    locs: Vec<ResolvedFileLocation>,
    sizes: &[CatalogPackageSize],
) -> (r: PackageInstance)
    ensures
        r@ == resolved_spec(inst@, update_id@, locs_view(locs@), sizes_view(sizes@)),
{
    let mut inst = inst;
    let ghost old_view = inst@;
    inst.update_id = update_id;
    inst.package_uri = primary_uri(&inst.digest, &locs);
    if inst.file_size.is_none() {
        inst.file_size = catalog_size_of(sizes, inst.package_moniker.as_str());
    }
    inst.all_file_locations = locs;
    inst
}

/// The instances resolved in order: instance `i` gets update ID `i` and
/// location list `i` (an empty ID or list when there is none).
pub open spec fn resolved_all(
    insts: Seq<PackageInstanceView>,
    update_ids: Seq<Seq<char>>,
    per_update: Seq<Seq<(Seq<char>, Option<Seq<char>>)>>,
    sizes: Seq<(Seq<char>, i64)>,
) -> Seq<PackageInstanceView> {
    Seq::new(
        insts.len(),
        |i: int|
            resolved_spec(
                insts[i],
                if i < update_ids.len() {
                    update_ids[i]
                } else {
                    Seq::empty()
                },
                if i < per_update.len() {
                    per_update[i]
                } else {
                    Seq::empty()
                },
                sizes,
            ),
    )
}

// ---------------------------------------------------------------------------
// Inputs of package resolution
// ---------------------------------------------------------------------------

pub open spec fn product_missing_message() -> Seq<char> {
    "Cannot get packages: product data is null."@
}

pub open spec fn wu_category_missing_message() -> Seq<char> {
    "Cannot get packages: FulfillmentData (WuCategoryId) is missing."@
}

/// The category to ask FE3 about before resolving a product's packages:
/// `product_loaded` says whether a product listing is loaded, and
/// `wu_category_id` is the `WuCategoryId` of its first SKU's fulfillment
/// data, where there is one.
pub fn wu_category_for_packages(product_loaded: bool, wu_category_id: Option<&str>) -> (r: Result<
    String,
    StoreError,
>)
    ensures
        !product_loaded ==> (r matches Err(e) && e@ == StoreErrorView::Other(
            product_missing_message(),
        )),
        product_loaded && wu_category_id is None ==> (r matches Err(e) && e@
            == StoreErrorView::Other(wu_category_missing_message())),
        product_loaded && wu_category_id is Some ==> (r matches Ok(w) && w@
            == wu_category_id.unwrap()@),
{
    if !product_loaded {
        let m = "Cannot get packages: product data is null.";
        return Err(StoreError::Other(m.to_owned()));
    }
    match wu_category_id {
        Some(w) => Ok(w.to_owned()),
        None => {
            let m = "Cannot get packages: FulfillmentData (WuCategoryId) is missing.";
            Err(StoreError::Other(m.to_owned()))
        },
    }
}

/// The catalog's package listing as (full name, maximum download size)
/// pairs, either of which the catalog may leave out.
pub open spec fn listing_view(v: Seq<(Option<String>, Option<i64>)>) -> Seq<
    (Option<Seq<char>>, Option<i64>),
> {
    v.map_values(|p: (Option<String>, Option<i64>)| (opt_view(p.0), p.1))
}

/// The size table kept from a listing: every entry that has both a name
/// and a size, in listing order.
pub open spec fn catalog_sizes_spec(listing: Seq<(Option<Seq<char>>, Option<i64>)>) -> Seq<
    (Seq<char>, i64),
>
    decreases listing.len(),
{
    if listing.len() == 0 {
        Seq::empty()
    } else {
        let prev = catalog_sizes_spec(listing.drop_last());
        match listing.last() {
            (Some(name), Some(size)) => prev.push((name, size)),
            _ => prev,
        }
    }
}

/// Builds the size table that package resolution reads from the catalog's
/// listing: every package with both a full name and a size, in order.
pub fn catalog_sizes(listing: &[(Option<String>, Option<i64>)]) -> (r: Vec<CatalogPackageSize>)
    ensures
        sizes_view(r@) == catalog_sizes_spec(listing_view(listing@)),
{
    let ghost lv = listing_view(listing@);
    let mut out: Vec<CatalogPackageSize> = Vec::new();
    let n = listing.len();
    assert(lv.take(0) =~= Seq::<(Option<Seq<char>>, Option<i64>)>::empty());
    for k in 0..n
        invariant
            n == listing@.len(),
            lv == listing_view(listing@),
            sizes_view(out@) == catalog_sizes_spec(lv.take(k as int)),
    {
        assert(lv.take(k + 1).drop_last() =~= lv.take(k as int));
        assert(lv.take(k + 1).last() == lv[k as int]);
        let entry = &listing[k];
        match (&entry.0, entry.1) {
            (Some(name), Some(size)) => {
                let ghost prev = sizes_view(out@);
                out.push(CatalogPackageSize { package_full_name: name.clone(), max_download_size: size });
                assert(sizes_view(out@) =~= prev.push((name@, size)));
            },
            _ => {},
        }
    }
    assert(lv.take(n as int) =~= lv);
    out
}

/// Attaches to each instance, in order, its update ID, its FE3 locations
/// (with the primary URL picked among them) and, when FE3 gave no size, the
/// catalog's size for its moniker.
pub fn resolve_packages(
    instances: Vec<PackageInstance>,
    update_ids: &[String],
    per_update_locs: Vec<Vec<ResolvedFileLocation>>,
    sizes: &[CatalogPackageSize],
) -> (r: Vec<PackageInstance>)
    ensures
        instances_view(r@) == resolved_all(
            instances_view(instances@),
            crate::fe3::strings_view(update_ids@),
            per_update_locs@.map_values(|v: Vec<ResolvedFileLocation>| locs_view(v@)),
            sizes_view(sizes@),
        ),
{
    let ghost iv = instances_view(instances@);
    let ghost uv = crate::fe3::strings_view(update_ids@);
    let ghost pv = per_update_locs@.map_values(|v: Vec<ResolvedFileLocation>| locs_view(v@));
    let ghost sv = sizes_view(sizes@);
    let ghost target = resolved_all(iv, uv, pv, sv);
    let n = instances.len();
    let mut rest = instances;
    let mut locs_rest = per_update_locs;
    let mut out: Vec<PackageInstance> = Vec::new();
    let mut i: usize = 0;
    while i < n
        invariant
            i <= n,
            n == iv.len(),
            target == resolved_all(iv, uv, pv, sv),
            uv == crate::fe3::strings_view(update_ids@),
            sv == sizes_view(sizes@),
            instances_view(rest@) == iv.skip(i as int),
            i <= pv.len() ==> locs_rest@.map_values(
                |v: Vec<ResolvedFileLocation>| locs_view(v@),
            ) == pv.skip(i as int),
            i > pv.len() ==> locs_rest@.len() == 0,
            instances_view(out@) == target.take(i as int),
        decreases n - i,
    {
        assert(rest@.len() == iv.skip(i as int).len());
        let ghost old_rest = rest@;
        assert(instances_view(old_rest)[0] == old_rest[0]@);
        assert(iv.skip(i as int)[0] == iv[i as int]);
        let inst = rest.remove(0);
        assert(rest@ =~= old_rest.subrange(1, old_rest.len() as int));
        assert(inst@ == iv[i as int]);
        assert forall|k: int| 0 <= k < rest@.len() implies #[trigger] instances_view(rest@)[k]
            == iv.skip(i + 1)[k] by {
            assert(instances_view(old_rest)[k + 1] == old_rest[k + 1]@);
            assert(iv.skip(i as int)[k + 1] == iv.skip(i + 1)[k]);
        }
        assert(instances_view(rest@) =~= iv.skip(i + 1));
        let uid = if i < update_ids.len() {
            update_ids[i].clone()
        } else {
            String::new()
        };
        let locs = if locs_rest.len() > 0 {
            let ghost before = locs_rest@.map_values(
                |v: Vec<ResolvedFileLocation>| locs_view(v@),
            );
            let l = locs_rest.remove(0);
            assert(before[0] == locs_view(l@));
            assert(locs_rest@.map_values(|v: Vec<ResolvedFileLocation>| locs_view(v@))
                =~= before.skip(1));
            l
        } else {
            Vec::new()
        };
        proof {
            assert(uid@ == (if (i as int) < uv.len() {
                uv[i as int]
            } else {
                Seq::<char>::empty()
            }));
            if (i as int) < pv.len() {
                assert(pv.skip(i as int)[0] == pv[i as int]);
                assert(pv.skip(i as int).skip(1) =~= pv.skip(i + 1));
            } else {
                assert(locs_view(locs@) =~= Seq::<(Seq<char>, Option<Seq<char>>)>::empty());
            }
        }
        let ghost lv = locs_view(locs@);
        let r = resolve_package(inst, uid, locs, sizes);
        assert(r@ == target[i as int]);
        let ghost prev = instances_view(out@);
        out.push(r);
        assert(instances_view(out@) =~= prev.push(target[i as int]));
        assert(target.take(i + 1) =~= target.take(i as int).push(target[i as int]));
        i = i + 1;
    }
    assert(target.take(n as int) =~= target);
    out
}

/// The primary URL is one of the locations, and there is one whenever
/// there are locations.
pub proof fn lemma_primary_uri_is_a_location(
    digest: Option<Seq<char>>,
    locs: Seq<(Seq<char>, Option<Seq<char>>)>,
)
    ensures
        primary_uri_spec(digest, locs) is Some <==> locs.len() > 0,
        primary_uri_spec(digest, locs) matches Some(u) ==> exists|j: int|
            0 <= j < locs.len() && (#[trigger] locs[j]).0 == u,
{
    match digest {
        Some(want) => {
            if exists|j: int| is_first(locs, digest_is(want), j) {
                let j = choose|j: int| is_first(locs, digest_is(want), j);
                lemma_first_index_some(locs, digest_is(want), j);
                assert(locs[j].0 == locs[j].0);
            }
        },
        None => {},
    }
}

/// A size FE3 gave is never replaced by the catalog's.
pub proof fn lemma_resolution_keeps_fe3_size(
    p: PackageInstanceView,
    update_id: Seq<char>,
    locs: Seq<(Seq<char>, Option<Seq<char>>)>,
    sizes: Seq<(Seq<char>, i64)>,
)
    requires
        p.file_size is Some,
    ensures
        resolved_spec(p, update_id, locs, sizes).file_size == p.file_size,
{
}


/// A resolved instance has a primary URL exactly when it has locations,
/// and that URL is one of its locations.
pub proof fn lemma_resolved_uri_among_locations(
    p: PackageInstanceView,
    update_id: Seq<char>,
    locs: Seq<(Seq<char>, Option<Seq<char>>)>,
    sizes: Seq<(Seq<char>, i64)>,
)
    ensures
        ({
            let r = resolved_spec(p, update_id, locs, sizes);
            &&& r.package_uri is Some <==> r.all_file_locations.len() > 0
            &&& r.package_uri matches Some(u) ==> exists|j: int|
                0 <= j < r.all_file_locations.len() && (#[trigger] r.all_file_locations[j]).0 == u
        }),
{
    lemma_primary_uri_is_a_location(p.digest, locs);
}

} // verus!
