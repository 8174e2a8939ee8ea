//! Endpoint tables and the URLs the library sends to DisplayCatalog.

use vstd::prelude::*;

use crate::enums::{
    lemma_keep_alnum_all, parse_identifier_type, platform_dependency, DCatEndpoint, DeviceFamily,
    IdentifierType,
    PackageType,
};
use crate::locale::{dcat_trail_spec, Locale};
use crate::text::{ascii_lower, is_ascii_alnum, chars_of, decimal, extend_chars, extend_str, str_eq, string_of, u64_decimal};

verus! {

// ---------------------------------------------------------------------------
// Package type
// ---------------------------------------------------------------------------

/// The package type an `AppxMetadata` `PackageType` attribute names.
pub open spec fn package_type_of(raw: Seq<char>) -> PackageType {
    if raw == "XAP"@ {
        PackageType::Xap
    } else if raw == "AppX"@ {
        PackageType::AppX
    } else if raw == "UAP"@ {
        PackageType::Uap
    } else {
        PackageType::Unknown
    }
}

/// Convert the raw string from an `AppxMetadata` XML attribute to a
/// [`PackageType`] variant (exact, case-sensitive match).
pub fn string_to_package_type(raw: &str) -> (r: PackageType)
    ensures
        r == package_type_of(raw@),
{
    if str_eq(raw, "XAP") {
        PackageType::Xap
    } else if str_eq(raw, "AppX") {
        PackageType::AppX
    } else if str_eq(raw, "UAP") {
        PackageType::Uap
    } else {
        PackageType::Unknown
    }
}

// ---------------------------------------------------------------------------
// Endpoint URL tables
// ---------------------------------------------------------------------------

/// The product base URL of each endpoint.
pub open spec fn base_url(e: DCatEndpoint) -> Seq<char> {
    match e {
        DCatEndpoint::Production => "https://displaycatalog.mp.microsoft.com/v7.0/products/"@,
        DCatEndpoint::Int => "https://displaycatalog-int.mp.microsoft.com/v7.0/products/"@,
        DCatEndpoint::Xbox => "https://xbox-displaycatalog.mp.microsoft.com/v7.0/products/"@,
        DCatEndpoint::XboxInt => "https://xbox-displaycatalog-int.mp.microsoft.com/v7.0/products/"@,
        DCatEndpoint::Dev => "https://displaycatalog-dev.mp.microsoft.com/v7.0/products/"@,
        DCatEndpoint::OneP => "https://displaycatalog1p.mp.microsoft.com/v7.0/products/"@,
        DCatEndpoint::OnePInt => "https://displaycatalog1p-int.mp.microsoft.com/v7.0/products/"@,
    }
}

/// Every endpoint has its own catalog: product URLs are `https://`
/// addresses whose path is `/v7.0/products/`, and distinct endpoints get
/// distinct URLs.
pub proof fn lemma_base_urls_distinct(a: DCatEndpoint, b: DCatEndpoint)
    ensures
        base_url(a).take(8) == "https://"@,
        base_url(a).len() > 23,
        base_url(a).skip(base_url(a).len() - 15) == "/v7.0/products/"@,
        base_url(a) == base_url(b) ==> a == b,
{
    reveal_strlit("https://");
    reveal_strlit("/v7.0/products/");
    reveal_strlit("https://displaycatalog.mp.microsoft.com/v7.0/products/");
    reveal_strlit("https://displaycatalog-int.mp.microsoft.com/v7.0/products/");
    reveal_strlit("https://xbox-displaycatalog.mp.microsoft.com/v7.0/products/");
    reveal_strlit("https://xbox-displaycatalog-int.mp.microsoft.com/v7.0/products/");
    reveal_strlit("https://displaycatalog-dev.mp.microsoft.com/v7.0/products/");
    reveal_strlit("https://displaycatalog1p.mp.microsoft.com/v7.0/products/");
    reveal_strlit("https://displaycatalog1p-int.mp.microsoft.com/v7.0/products/");
    let u = base_url(a);
    assert(u.take(8) =~= "https://"@);
    assert(u.skip(u.len() - 15) =~= "/v7.0/products/"@);
    if u == base_url(b) {
        assert(u.len() == base_url(b).len());
        assert(u[23] == base_url(b)[23]);
    }
}

/// The autosuggest search URL of each endpoint (only `Int` has its own).
pub open spec fn search_url(e: DCatEndpoint) -> Seq<char> {
    match e {
        DCatEndpoint::Int => "https://displaycatalog-int.mp.microsoft.com/v7.0/productFamilies/autosuggest?market=US&languages=en-US&query="@,
        _ => "https://displaycatalog.mp.microsoft.com/v7.0/productFamilies/autosuggest?market=US&languages=en-US&query="@,
    }
}

/// Returns the base URL for a DisplayCatalog product endpoint.
pub fn endpoint_to_base_url(endpoint: &DCatEndpoint) -> (r: &'static str)
    ensures
        r@ == base_url(*endpoint),
{
    match endpoint {
        DCatEndpoint::Production => "https://displaycatalog.mp.microsoft.com/v7.0/products/",
        DCatEndpoint::Int => "https://displaycatalog-int.mp.microsoft.com/v7.0/products/",
        DCatEndpoint::Xbox => "https://xbox-displaycatalog.mp.microsoft.com/v7.0/products/",
        DCatEndpoint::XboxInt => "https://xbox-displaycatalog-int.mp.microsoft.com/v7.0/products/",
        DCatEndpoint::Dev => "https://displaycatalog-dev.mp.microsoft.com/v7.0/products/",
        DCatEndpoint::OneP => "https://displaycatalog1p.mp.microsoft.com/v7.0/products/",
        DCatEndpoint::OnePInt => "https://displaycatalog1p-int.mp.microsoft.com/v7.0/products/",
    }
}

/// Returns the base URL for a DisplayCatalog autosuggest search endpoint.
pub fn endpoint_to_search_url(endpoint: &DCatEndpoint) -> (r: &'static str)
    ensures
        r@ == search_url(*endpoint),
{
    match endpoint {
        DCatEndpoint::Int => "https://displaycatalog-int.mp.microsoft.com/v7.0/productFamilies/autosuggest?market=US&languages=en-US&query=",
        _ => "https://displaycatalog.mp.microsoft.com/v7.0/productFamilies/autosuggest?market=US&languages=en-US&query=",
    }
}

// ---------------------------------------------------------------------------
// URI construction
// ---------------------------------------------------------------------------

/// `s` without its trailing run of `c` (std's `trim_end_matches` for a
/// character).
pub open spec fn trim_end_char(s: Seq<char>, c: char) -> Seq<char>
    decreases s.len(),
{
    if s.len() > 0 && s.last() == c {
        trim_end_char(s.drop_last(), c)
    } else {
        s
    }
}

/// The items of `list` with `sep` between consecutive ones.
pub open spec fn join(list: Seq<Seq<char>>, sep: Seq<char>) -> Seq<char>
    decreases list.len(),
{
    if list.len() == 0 {
        Seq::empty()
    } else if list.len() == 1 {
        list[0]
    } else {
        join(list.drop_last(), sep) + sep + list.last()
    }
}

/// The views of a slice of strings.
pub open spec fn str_views(ids: Seq<&str>) -> Seq<Seq<char>> {
    ids.map_values(|s: &str| s@)
}

/// The batch URL: `<base without trailing '/'>?bigIds=<ids joined by ','>&<trail>&fieldsTemplate=Details`.
pub open spec fn dcat_batch_uri_spec(e: DCatEndpoint, ids: Seq<Seq<char>>, l: Locale) -> Seq<char> {
    trim_end_char(base_url(e), '/') + "?bigIds="@ + join(ids, ","@) + "&"@ + dcat_trail_spec(l)
        + "&fieldsTemplate=Details"@
}

/// The `alternateId` name a lookup by a non-product identifier uses.
pub open spec fn alternate_id_name(t: IdentifierType) -> Seq<char> {
    match t {
        IdentifierType::ProductId => "ProductId"@,
        IdentifierType::XboxTitleId => "XboxTitleID"@,
        IdentifierType::PackageFamilyName => "PackageFamilyName"@,
        IdentifierType::ContentId => "CONTENTID"@,
        IdentifierType::LegacyWindowsPhoneProductId => "LegacyWindowsPhoneProductID"@,
        IdentifierType::LegacyWindowsStoreProductId => "LegacyWindowsStoreProductID"@,
        IdentifierType::LegacyXboxProductId => "LegacyXboxProductID"@,
    }
}

/// The `alternateId` name a lookup carries names the identifier type it is
/// for: read the way identifier-type names are read (letters and digits
/// only, case ignored) it gives back that type, so distinct types are
/// looked up under distinct names.
pub proof fn lemma_alternate_id_names_its_type(t: IdentifierType, u: IdentifierType)
    ensures
        parse_identifier_type(alternate_id_name(t)) == Some(t),
        alternate_id_name(t) == alternate_id_name(u) ==> t == u,
{
    lemma_alternate_id_name_reads_back(t);
    lemma_alternate_id_name_reads_back(u);
}

proof fn lemma_alternate_id_name_reads_back(t: IdentifierType)
    ensures
        parse_identifier_type(alternate_id_name(t)) == Some(t),
{
    let c = alternate_id_name(t);
    reveal_strlit("ProductId");
    reveal_strlit("XboxTitleID");
    reveal_strlit("PackageFamilyName");
    reveal_strlit("CONTENTID");
    reveal_strlit("LegacyWindowsPhoneProductID");
    reveal_strlit("LegacyWindowsStoreProductID");
    reveal_strlit("LegacyXboxProductID");
    assert(forall|i: int| 0 <= i < c.len() ==> is_ascii_alnum(#[trigger] c[i]));
    lemma_keep_alnum_all(c);
    reveal_strlit("productid");
    reveal_strlit("xboxtitleid");
    reveal_strlit("packagefamilyname");
    reveal_strlit("contentid");
    reveal_strlit("legacywindowsphoneproductid");
    reveal_strlit("legacywindowsstoreproductid");
    reveal_strlit("legacyxboxproductid");
    match t {
        IdentifierType::ProductId => {
            assert(ascii_lower(c) =~= "productid"@);
        },
        IdentifierType::XboxTitleId => {
            assert(ascii_lower(c) =~= "xboxtitleid"@);
            assert(ascii_lower(c)[0] != "productid"@[0]);
        },
        IdentifierType::PackageFamilyName => {
            assert(ascii_lower(c) =~= "packagefamilyname"@);
        },
        IdentifierType::ContentId => {
            assert(ascii_lower(c) =~= "contentid"@);
            assert(ascii_lower(c)[0] != "productid"@[0]);
        },
        IdentifierType::LegacyWindowsPhoneProductId => {
            assert(ascii_lower(c) =~= "legacywindowsphoneproductid"@);
        },
        IdentifierType::LegacyWindowsStoreProductId => {
            assert(ascii_lower(c) =~= "legacywindowsstoreproductid"@);
            assert(ascii_lower(c)[13] != "legacywindowsphoneproductid"@[13]);
        },
        IdentifierType::LegacyXboxProductId => {
            assert(ascii_lower(c) =~= "legacyxboxproductid"@);
        },
    }
}

/// The product URL: `<base><id>?<trail>&fieldsTemplate=Details` for a product
/// ID, otherwise `<base>lookup?alternateId=<name>&Value=<id>&<trail>&fieldsTemplate=Details`.
pub open spec fn dcat_uri_spec(e: DCatEndpoint, id: Seq<char>, t: IdentifierType, l: Locale) -> Seq<
    char,
> {
    match t {
        IdentifierType::ProductId => base_url(e) + id + "?"@ + dcat_trail_spec(l)
            + "&fieldsTemplate=Details"@,
        _ => base_url(e) + "lookup?alternateId="@ + alternate_id_name(t) + "&Value="@ + id + "&"@
            + dcat_trail_spec(l) + "&fieldsTemplate=Details"@,
    }
}

/// The autosuggest URL for a query, device family and number of skipped
/// results (`&skipItems=<n>` only when `n > 0`).
pub open spec fn search_uri_spec(e: DCatEndpoint, query: Seq<char>, f: DeviceFamily, skip: u32) -> Seq<
    char,
> {
    search_url(e) + query + "&productFamilyNames=apps,games&platformDependencyName="@
        + platform_dependency(f) + (if skip > 0 {
        "&skipItems="@ + decimal(skip as nat)
    } else {
        Seq::<char>::empty()
    })
}

fn trim_end_slash(s: &[char]) -> (r: Vec<char>)
    ensures
        r@ == trim_end_char(s@, '/'),
{
    let mut k = s.len();
    assert(s@.take(k as int) =~= s@);
    while k > 0 && s[k - 1] == '/'
        invariant
            k <= s@.len(),
            trim_end_char(s@.take(k as int), '/') == trim_end_char(s@, '/'),
        decreases k,
    {
        assert(s@.take(k as int).drop_last() =~= s@.take(k - 1));
        k = k - 1;
    }
    let mut r: Vec<char> = Vec::new();
    for i in 0..k
        invariant
            k <= s@.len(),
            r@ == s@.take(i as int),
    {
        r.push(s[i]);
        assert(r@ =~= s@.take(i + 1));
    }
    assert(r@ =~= s@.take(k as int));
    if k > 0 {
        assert(s@.take(k as int).last() == s@[k - 1]);
    }
    r
}

/// Build a DisplayCatalog batch URL that fetches several products in one
/// request through the `bigIds=A,B,C` parameter. `ids` should hold Microsoft
/// Store product IDs only.
pub fn create_dcat_batch_uri(endpoint: &DCatEndpoint, ids: &[&str], locale: &Locale) -> (r: String)
    ensures
        r@ == dcat_batch_uri_spec(*endpoint, str_views(ids@), *locale),
{
    let base = chars_of(endpoint_to_base_url(endpoint));
    let mut v = trim_end_slash(base.as_slice());
    extend_str(&mut v, "?bigIds=");
    let ghost prefix = v@;
    let n = ids.len();
    for i in 0..n
        invariant
            n == ids@.len(),
            v@ == prefix + join(str_views(ids@).take(i as int), ","@),
    {
        let ghost list = str_views(ids@).take(i + 1);
        assert(list.drop_last() =~= str_views(ids@).take(i as int));
        assert(list.last() == ids@[i as int]@);
        if i > 0 {
            extend_str(&mut v, ",");
        }
        extend_str(&mut v, ids[i]);
        proof {
            if i == 0 {
                assert(list.len() == 1);
                assert(join(str_views(ids@).take(0), ","@) =~= Seq::<char>::empty());
            }
        }
        assert(v@ =~= prefix + join(list, ","@));
    }
    assert(str_views(ids@).take(n as int) =~= str_views(ids@));
    extend_str(&mut v, "&");
    let trail = locale.dcat_trail();
    extend_str(&mut v, trail.as_str());
    extend_str(&mut v, "&fieldsTemplate=Details");
    string_of(v.as_slice())
}

/// Build a full DisplayCatalog request URL for an identifier of the given
/// type.
pub fn create_dcat_uri(endpoint: &DCatEndpoint, id: &str, id_type: &IdentifierType, locale: &Locale) -> (r:
    String)
    ensures
        r@ == dcat_uri_spec(*endpoint, id@, *id_type, *locale),
{
    let mut v = chars_of(endpoint_to_base_url(endpoint));
    let trail = locale.dcat_trail();
    match id_type {
        IdentifierType::ProductId => {
            extend_str(&mut v, id);
            extend_str(&mut v, "?");
        },
        _ => {
            extend_str(&mut v, "lookup?alternateId=");
            let name = match id_type {
                IdentifierType::XboxTitleId => "XboxTitleID",
                IdentifierType::PackageFamilyName => "PackageFamilyName",
                IdentifierType::ContentId => "CONTENTID",
                IdentifierType::LegacyWindowsPhoneProductId => "LegacyWindowsPhoneProductID",
                IdentifierType::LegacyWindowsStoreProductId => "LegacyWindowsStoreProductID",
                _ => "LegacyXboxProductID",
            };
            assert(name@ == alternate_id_name(*id_type));
            extend_str(&mut v, name);
            extend_str(&mut v, "&Value=");
            extend_str(&mut v, id);
            extend_str(&mut v, "&");
        },
    }
    extend_str(&mut v, trail.as_str());
    extend_str(&mut v, "&fieldsTemplate=Details");
    string_of(v.as_slice())
}

/// Build the autosuggest search URL for `query` on `device_family`,
/// skipping `skip_count` results when it is positive.
pub fn create_search_uri(endpoint: &DCatEndpoint, query: &str, device_family: &DeviceFamily, skip_count: u32) -> (r: String)
    ensures
        r@ == search_uri_spec(*endpoint, query@, *device_family, skip_count),
{
    let mut v = chars_of(endpoint_to_search_url(endpoint));
    extend_str(&mut v, query);
    extend_str(&mut v, "&productFamilyNames=apps,games&platformDependencyName=");
    extend_str(&mut v, device_family.platform_dependency_name());
    let ghost before = v@;
    if skip_count > 0 {
        extend_str(&mut v, "&skipItems=");
        let digits = u64_decimal(skip_count as u64);
        extend_chars(&mut v, digits.as_slice());
    }
    assert(v@ =~= before + (if skip_count > 0 {
        "&skipItems="@ + decimal(skip_count as nat)
    } else {
        Seq::<char>::empty()
    }));
    string_of(v.as_slice())
}

} // verus!
