//! Enumerations shared by every part of the library: endpoints, package
//! formats, identifier kinds, image purposes, device families and query
//! outcomes.

use vstd::prelude::*;

use crate::text::{ascii_lower, chars_eq_str, chars_of, is_ascii_alnum, lower_chars};

verus! {

/// Which DisplayCatalog endpoint to query.
#[derive(Debug, Clone, Copy, PartialEq, Eq, Structural)]
pub enum DCatEndpoint {
    Production,
    Int,
    Xbox,
    XboxInt,
    Dev,
    OneP,
    OnePInt,
}

/// Package format type returned by the FE3 service.
#[derive(Debug, Clone, Copy, PartialEq, Eq, Structural)]
pub enum PackageType {
    Uap,
    Xap,
    AppX,
    Unknown,
}

impl Default for PackageType {
    fn default() -> (r: Self)
        ensures
            r == PackageType::Unknown,
    {
        PackageType::Unknown
    }
}

/// How to interpret the product identifier passed to a DCat query.
#[derive(Debug, Clone, Copy, PartialEq, Eq, Structural)]
pub enum IdentifierType {
    ProductId,
    XboxTitleId,
    PackageFamilyName,
    ContentId,
    LegacyWindowsPhoneProductId,
    LegacyWindowsStoreProductId,
    LegacyXboxProductId,
}

/// The canonical camelCase wire form of an identifier type.
pub open spec fn identifier_type_code(t: IdentifierType) -> Seq<char> {
    match t {
        IdentifierType::ProductId => "productId"@,
        IdentifierType::XboxTitleId => "xboxTitleId"@,
        IdentifierType::PackageFamilyName => "packageFamilyName"@,
        IdentifierType::ContentId => "contentId"@,
        IdentifierType::LegacyWindowsPhoneProductId => "legacyWindowsPhoneProductId"@,
        IdentifierType::LegacyWindowsStoreProductId => "legacyWindowsStoreProductId"@,
        IdentifierType::LegacyXboxProductId => "legacyXboxProductId"@,
    }
}

/// The ASCII letters and digits of `s`, in order.
pub open spec fn keep_alnum(s: Seq<char>) -> Seq<char>
    decreases s.len(),
{
    if s.len() == 0 {
        s
    } else if is_ascii_alnum(s.last()) {
        keep_alnum(s.drop_last()).push(s.last())
    } else {
        keep_alnum(s.drop_last())
    }
}

/// The form in which identifier-type names are compared: ASCII letters and
/// digits only, lower-cased.
pub open spec fn normalize_identifier_name(s: Seq<char>) -> Seq<char> {
    ascii_lower(keep_alnum(s))
}

/// The identifier type a tolerant spelling names, if any.
pub open spec fn parse_identifier_type(raw: Seq<char>) -> Option<IdentifierType> {
    let n = normalize_identifier_name(raw);
    if n == "productid"@ {
        Some(IdentifierType::ProductId)
    } else if n == "xboxtitleid"@ {
        Some(IdentifierType::XboxTitleId)
    } else if n == "packagefamilyname"@ {
        Some(IdentifierType::PackageFamilyName)
    } else if n == "contentid"@ {
        Some(IdentifierType::ContentId)
    } else if n == "legacywindowsphoneproductid"@ {
        Some(IdentifierType::LegacyWindowsPhoneProductId)
    } else if n == "legacywindowsstoreproductid"@ {
        Some(IdentifierType::LegacyWindowsStoreProductId)
    } else if n == "legacyxboxproductid"@ {
        Some(IdentifierType::LegacyXboxProductId)
    } else {
        None
    }
}

fn keep_alnum_chars(s: &[char]) -> (r: Vec<char>)
    ensures
        r@ == keep_alnum(s@),
{
    let mut r: Vec<char> = Vec::new();
    let n = s.len();
    for i in 0..n
        invariant
            n == s@.len(),
            r@ == keep_alnum(s@.take(i as int)),
    {
        let c = s[i];
        assert(s@.take(i + 1).drop_last() =~= s@.take(i as int));
        if ('a' <= c && c <= 'z') || ('A' <= c && c <= 'Z') || ('0' <= c && c <= '9') {
            r.push(c);
        }
    }
    assert(s@.take(n as int) =~= s@);
    r
}

/// If every character is a letter or digit, nothing is dropped.
pub proof fn lemma_keep_alnum_all(s: Seq<char>)
    requires
        forall|i: int| 0 <= i < s.len() ==> is_ascii_alnum(#[trigger] s[i]),
    ensures
        keep_alnum(s) == s,
    decreases s.len(),
{
    if s.len() > 0 {
        let t = s.drop_last();
        assert forall|i: int| 0 <= i < t.len() implies is_ascii_alnum(#[trigger] t[i]) by {
            assert(t[i] == s[i]);
        }
        lemma_keep_alnum_all(t);
        assert(t.push(s.last()) =~= s);
    }
}

impl IdentifierType {
    /// Canonical camelCase wire form.
    pub fn as_str(&self) -> (r: &'static str)
        ensures
            r@ == identifier_type_code(*self),
    {
        match self {
            IdentifierType::ProductId => "productId",
            IdentifierType::XboxTitleId => "xboxTitleId",
            IdentifierType::PackageFamilyName => "packageFamilyName",
            IdentifierType::ContentId => "contentId",
            IdentifierType::LegacyWindowsPhoneProductId => "legacyWindowsPhoneProductId",
            IdentifierType::LegacyWindowsStoreProductId => "legacyWindowsStoreProductId",
            IdentifierType::LegacyXboxProductId => "legacyXboxProductId",
        }
    }

    /// Parse a string in any common casing (`ProductId`, `productId`,
    /// `product-id`, `PRODUCT_ID`, `product_id`) into the canonical enum.
    /// Everything but ASCII letters and digits is dropped before comparison.
    pub fn parse_tolerant(raw: &str) -> (r: Option<IdentifierType>)
        ensures
            r == parse_identifier_type(raw@),
    {
        let chars = chars_of(raw);
        let kept = keep_alnum_chars(chars.as_slice());
        let n = lower_chars(kept.as_slice());
        let s = n.as_slice();
        if chars_eq_str(s, "productid") {
            Some(IdentifierType::ProductId)
        } else if chars_eq_str(s, "xboxtitleid") {
            Some(IdentifierType::XboxTitleId)
        } else if chars_eq_str(s, "packagefamilyname") {
            Some(IdentifierType::PackageFamilyName)
        } else if chars_eq_str(s, "contentid") {
            Some(IdentifierType::ContentId)
        } else if chars_eq_str(s, "legacywindowsphoneproductid") {
            Some(IdentifierType::LegacyWindowsPhoneProductId)
        } else if chars_eq_str(s, "legacywindowsstoreproductid") {
            Some(IdentifierType::LegacyWindowsStoreProductId)
        } else if chars_eq_str(s, "legacyxboxproductid") {
            Some(IdentifierType::LegacyXboxProductId)
        } else {
            None
        }
    }
}

/// Purpose / role of an image asset attached to a product.
#[derive(Debug, Clone, Copy, PartialEq, Eq, Structural)]
pub enum ImagePurpose {
    Logo,
    Tile,
    Screenshot,
    BoxArt,
    BrandedKeyArt,
    Poster,
    FeaturePromotionalSquareArt,
    ImageGallery,
    SuperHeroArt,
    TitledHeroArt,
}

/// High-level product category.
#[derive(Debug, Clone, Copy, PartialEq, Eq, Structural)]
pub enum ProductKind {
    Game,
    Application,
    Book,
    Movie,
    Physical,
    Software,
}

/// Target device family for search / package filtering.
#[derive(Debug, Clone, Copy, PartialEq, Eq, Structural)]
pub enum DeviceFamily {
    Desktop,
    Mobile,
    Xbox,
    ServerCore,
    IotCore,
    HoloLens,
    Andromeda,
    Universal,
    Wcos,
}

/// The `platformDependencyName` a device family is searched under.
pub open spec fn platform_dependency(f: DeviceFamily) -> Seq<char> {
    match f {
        DeviceFamily::Desktop => "Windows.Desktop"@,
        DeviceFamily::Mobile => "Windows.Mobile"@,
        DeviceFamily::Xbox => "Windows.Xbox"@,
        DeviceFamily::ServerCore => "Windows.Server"@,
        DeviceFamily::IotCore => "Windows.Iot"@,
        DeviceFamily::HoloLens => "Windows.Holographic"@,
        DeviceFamily::Andromeda => "Windows.8828080"@,
        DeviceFamily::Universal => "Windows.Universal"@,
        DeviceFamily::Wcos => "Windows.Core"@,
    }
}

/// Every device family searches its own platform: each name is
/// `Windows.` followed by a non-empty platform name, and distinct families
/// get distinct names.
pub proof fn lemma_platform_dependency_distinct(a: DeviceFamily, b: DeviceFamily)
    ensures
        platform_dependency(a).len() > 8,
        platform_dependency(a).take(8) == "Windows."@,
        platform_dependency(a) == platform_dependency(b) ==> a == b,
{
    reveal_strlit("Windows.");
    reveal_strlit("Windows.Desktop");
    reveal_strlit("Windows.Mobile");
    reveal_strlit("Windows.Xbox");
    reveal_strlit("Windows.Server");
    reveal_strlit("Windows.Iot");
    reveal_strlit("Windows.Holographic");
    reveal_strlit("Windows.8828080");
    reveal_strlit("Windows.Universal");
    reveal_strlit("Windows.Core");
    assert(platform_dependency(a).take(8) =~= "Windows."@);
    if platform_dependency(a) == platform_dependency(b) {
        assert(platform_dependency(a)[8] == platform_dependency(b)[8]);
    }
}

impl DeviceFamily {
    /// Returns the `platformDependencyName` string used in search URLs.
    pub fn platform_dependency_name(&self) -> (r: &'static str)
        ensures
            r@ == platform_dependency(*self),
    {
        match self {
            DeviceFamily::Desktop => "Windows.Desktop",
            DeviceFamily::Mobile => "Windows.Mobile",
            DeviceFamily::Xbox => "Windows.Xbox",
            DeviceFamily::ServerCore => "Windows.Server",
            DeviceFamily::IotCore => "Windows.Iot",
            DeviceFamily::HoloLens => "Windows.Holographic",
            DeviceFamily::Andromeda => "Windows.8828080",
            DeviceFamily::Universal => "Windows.Universal",
            DeviceFamily::Wcos => "Windows.Core",
        }
    }
}

/// Result status of a DisplayCatalog query.
#[derive(Debug, Clone, Copy, PartialEq, Eq, Structural)]
pub enum DisplayCatalogResult {
    NotFound,
    Restricted,
    TimedOut,
    Error,
    Found,
}

/// Every identifier type is read back from its canonical form: tolerant
/// parsing of `as_str()` gives the same variant.
pub proof fn lemma_identifier_type_round_trip(t: IdentifierType)
    ensures
        parse_identifier_type(identifier_type_code(t)) == Some(t),
{
    let c = identifier_type_code(t);
    assert(forall|i: int| 0 <= i < c.len() ==> is_ascii_alnum(#[trigger] c[i])) by {
        reveal_strlit("productId");
        reveal_strlit("xboxTitleId");
        reveal_strlit("packageFamilyName");
        reveal_strlit("contentId");
        reveal_strlit("legacyWindowsPhoneProductId");
        reveal_strlit("legacyWindowsStoreProductId");
        reveal_strlit("legacyXboxProductId");
    }
    lemma_keep_alnum_all(c);
    reveal_strlit("productId");
    reveal_strlit("xboxTitleId");
    reveal_strlit("packageFamilyName");
    reveal_strlit("contentId");
    reveal_strlit("legacyWindowsPhoneProductId");
    reveal_strlit("legacyWindowsStoreProductId");
    reveal_strlit("legacyXboxProductId");
    reveal_strlit("productid");
    reveal_strlit("xboxtitleid");
    reveal_strlit("packagefamilyname");
    reveal_strlit("contentid");
    reveal_strlit("legacywindowsphoneproductid");
    reveal_strlit("legacywindowsstoreproductid");
    reveal_strlit("legacyxboxproductid");
    match t {
        IdentifierType::ProductId => {
            assert(ascii_lower(c) =~= "productid"@);
        },
        IdentifierType::XboxTitleId => {
            assert(ascii_lower(c) =~= "xboxtitleid"@);
            assert(ascii_lower(c)[0] != "productid"@[0]);
        },
        IdentifierType::PackageFamilyName => {
            assert(ascii_lower(c) =~= "packagefamilyname"@);
        },
        IdentifierType::ContentId => {
            assert(ascii_lower(c) =~= "contentid"@);
            assert(ascii_lower(c)[0] != "productid"@[0]);
        },
        IdentifierType::LegacyWindowsPhoneProductId => {
            assert(ascii_lower(c) =~= "legacywindowsphoneproductid"@);
        },
        IdentifierType::LegacyWindowsStoreProductId => {
            assert(ascii_lower(c) =~= "legacywindowsstoreproductid"@);
            assert(ascii_lower(c)[13] != "legacywindowsphoneproductid"@[13]);
        },
        IdentifierType::LegacyXboxProductId => {
            assert(ascii_lower(c) =~= "legacyxboxproductid"@);
        },
    }
}


/// A lightweight representation of a Store add-on (DLC / IAP).
#[derive(Debug, Clone)]
pub struct Addon {
    pub product_id: String,
    pub product_type: ProductKind,
    pub display_name: String,
}

} // verus!
