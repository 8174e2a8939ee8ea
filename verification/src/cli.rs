//! Decisions of the command-line downloader: which packages to fetch and
//! the file names they are saved under.

use vstd::prelude::*;

use crate::enums::{DeviceFamily, IdentifierType};
use crate::fe3_model::PackageInstance;
use crate::text::{chars_of, find_char, has_char, push_char, starts_with};

verus! {

/// `char::is_control`: the general category Cc (U+0000–U+001F, U+007F–U+009F).
pub open spec fn is_control(c: char) -> bool {
    let u = c as u32;
    u <= 0x1f || (0x7f <= u && u <= 0x9f)
}

/// The characters Windows reserves in file names, plus both separators.
pub open spec fn is_reserved_file_char(c: char) -> bool {
    c == '/' || c == '\\' || c == ':' || c == '*' || c == '?' || c == '"' || c == '<' || c == '>'
        || c == '|'
}

/// A character as it stands in a saved file name.
pub open spec fn file_name_char(c: char) -> char {
    if is_reserved_file_char(c) || is_control(c) {
        '_'
    } else {
        c
    }
}

/// `s` with every reserved or control character replaced by `_`.
pub open spec fn sanitize_spec(s: Seq<char>) -> Seq<char> {
    s.map_values(|c: char| file_name_char(c))
}

/// Make a name safe to write to disk on Windows: every separator, reserved
/// character and control character becomes `_`.
pub fn sanitize_filename(s: &str) -> (r: String)
    ensures
        r@ == sanitize_spec(s@),
{
    let chars = chars_of(s);
    let mut r = String::new();
    let n = chars.len();
    for i in 0..n
        invariant
            n == chars@.len(),
            chars@ == s@,
            r@ == sanitize_spec(s@.take(i as int)),
    {
        let c = chars[i];
        let u = c as u32;
        let bad = c == '/' || c == '\\' || c == ':' || c == '*' || c == '?' || c == '"' || c
            == '<' || c == '>' || c == '|' || u <= 0x1f || (0x7f <= u && u <= 0x9f);
        let out = if bad {
            '_'
        } else {
            c
        };
        push_char(&mut r, out);
        assert(sanitize_spec(s@.take(i + 1)) =~= sanitize_spec(s@.take(i as int)).push(out));
    }
    assert(s@.take(n as int) =~= s@);
    r
}

/// A sanitized name keeps its length, holds no reserved or control
/// character, and sanitizing it again changes nothing.
pub proof fn lemma_sanitize_clean(s: Seq<char>)
    ensures
        sanitize_spec(s).len() == s.len(),
        forall|i: int|
            0 <= i < s.len() ==> !is_reserved_file_char(#[trigger] sanitize_spec(s)[i]) && !is_control(
                sanitize_spec(s)[i],
            ),
        sanitize_spec(sanitize_spec(s)) == sanitize_spec(s),
{
    assert(sanitize_spec(sanitize_spec(s)) =~= sanitize_spec(s));
}

/// Full Unicode lower-casing of a string (std's `str::to_lowercase`).
pub uninterp spec fn unicode_lowercase(s: Seq<char>) -> Seq<char>;

/// std's `str::to_lowercase`; its result is named, not restated.
#[verifier::external_body]
fn to_lowercase(s: &str) -> (r: String)
    ensures
        r@ == unicode_lowercase(s@),
{
    s.to_lowercase()
}

/// The family part of a moniker: everything before its first `_` (all of
/// it when there is none).
pub open spec fn moniker_family(m: Seq<char>) -> Seq<char> {
    if has_char(m, '_') {
        m.take(choose|i: int| 0 <= i < m.len() && m[i] == '_' && forall|j: int| 0 <= j < i ==> m[j] != '_')
    } else {
        m
    }
}

/// Families of the framework packages almost every Store app depends on,
/// lower-cased.
pub open spec fn is_framework_prefix(p: Seq<char>) -> bool {
    p == "microsoft.vclibs"@ || p == "microsoft.net.native.framework"@
        || p == "microsoft.net.native.runtime"@ || p == "microsoft.netcore.universalwindowsplatform"@
        || p == "microsoft.ui.xaml"@ || p == "microsoft.directx"@
        || p == "microsoft.services.store.engagement"@
}

/// A lower-cased family names a framework when it starts with one of the
/// framework prefixes.
pub open spec fn is_framework_family_spec(family_lower: Seq<char>) -> bool {
    exists|p: Seq<char>| is_framework_prefix(p) && starts_with(family_lower, p)
}

/// The seven framework families are recognised, and nothing else is: a
/// lower-cased family is a framework exactly when it starts with
/// `microsoft.vclibs`, `microsoft.net.native.framework`,
/// `microsoft.net.native.runtime`,
/// `microsoft.netcore.universalwindowsplatform`, `microsoft.ui.xaml`,
/// `microsoft.directx` or `microsoft.services.store.engagement`.
pub proof fn lemma_framework_families(f: Seq<char>)
    ensures
        is_framework_family_spec(f) <==> (starts_with(f, "microsoft.vclibs"@) || starts_with(
            f,
            "microsoft.net.native.framework"@,
        ) || starts_with(f, "microsoft.net.native.runtime"@) || starts_with(
            f,
            "microsoft.netcore.universalwindowsplatform"@,
        ) || starts_with(f, "microsoft.ui.xaml"@) || starts_with(f, "microsoft.directx"@)
            || starts_with(f, "microsoft.services.store.engagement"@)),
{
    assert(is_framework_prefix("microsoft.vclibs"@));
    assert(is_framework_prefix("microsoft.net.native.framework"@));
    assert(is_framework_prefix("microsoft.net.native.runtime"@));
    assert(is_framework_prefix("microsoft.netcore.universalwindowsplatform"@));
    assert(is_framework_prefix("microsoft.ui.xaml"@));
    assert(is_framework_prefix("microsoft.directx"@));
    assert(is_framework_prefix("microsoft.services.store.engagement"@));
}

/// Whether a moniker's package is a framework / dependency package.
pub open spec fn is_framework_spec(moniker: Seq<char>) -> bool {
    is_framework_family_spec(unicode_lowercase(moniker_family(moniker)))
}

/// Whether an already lower-cased family starts with one of the framework
/// prefixes.
pub fn is_framework_family(family_lower: &str) -> (r: bool)
    ensures
        r == is_framework_family_spec(family_lower@),
{
    let f = chars_of(family_lower);
    let s = f.as_slice();
    let p1 = chars_of("microsoft.vclibs");
    let p2 = chars_of("microsoft.net.native.framework");
    let p3 = chars_of("microsoft.net.native.runtime");
    let p4 = chars_of("microsoft.netcore.universalwindowsplatform");
    let p5 = chars_of("microsoft.ui.xaml");
    let p6 = chars_of("microsoft.directx");
    let p7 = chars_of("microsoft.services.store.engagement");
    let r = crate::text::chars_starts_with(s, p1.as_slice()) || crate::text::chars_starts_with(
        s,
        p2.as_slice(),
    ) || crate::text::chars_starts_with(s, p3.as_slice()) || crate::text::chars_starts_with(
        s,
        p4.as_slice(),
    ) || crate::text::chars_starts_with(s, p5.as_slice()) || crate::text::chars_starts_with(
        s,
        p6.as_slice(),
    ) || crate::text::chars_starts_with(s, p7.as_slice());
    proof {
        if r {
            if starts_with(f@, p1@) {
                assert(is_framework_prefix(p1@));
            } else if starts_with(f@, p2@) {
                assert(is_framework_prefix(p2@));
            } else if starts_with(f@, p3@) {
                assert(is_framework_prefix(p3@));
            } else if starts_with(f@, p4@) {
                assert(is_framework_prefix(p4@));
            } else if starts_with(f@, p5@) {
                assert(is_framework_prefix(p5@));
            } else if starts_with(f@, p6@) {
                assert(is_framework_prefix(p6@));
            } else {
                assert(is_framework_prefix(p7@));
            }
        }
    }
    r
}

/// The family part of a moniker: everything before its first `_`.
pub fn moniker_family_of(moniker: &str) -> (r: String)
    ensures
        r@ == moniker_family(moniker@),
{
    let m = chars_of(moniker);
    let family: Vec<char> = match find_char(m.as_slice(), '_') {
        Some(k) => {
            let mut f: Vec<char> = Vec::new();
            for i in 0..k
                invariant
                    k <= m@.len(),
                    f@ == m@.take(i as int),
            {
                f.push(m[i]);
                assert(f@ =~= m@.take(i + 1));
            }
            proof {
                let w = choose|i: int|
                    0 <= i < m@.len() && m@[i] == '_' && forall|j: int| 0 <= j < i ==> m@[j] != '_';
                assert(w == k as int) by {
                    if w < k {
                        assert(m@[w] != '_');
                    } else if w > k {
                        assert(m@[k as int] != '_');
                    }
                }
            }
            f
        },
        None => m,
    };
    crate::text::string_of(family.as_slice())
}

/// Known framework / dependency package families that are part of almost
/// every Store app and rarely what callers want to download. The family is
/// the moniker up to its first `_`, compared lower-cased.
pub fn is_framework(package_moniker: &str) -> (r: bool)
    ensures
        r == is_framework_spec(package_moniker@),
{
    let family_str = moniker_family_of(package_moniker);
    let lower = to_lowercase(family_str.as_str());
    is_framework_family(lower.as_str())
}

/// The packages the downloader fetches, as positions in `packages`: those
/// with a download URL, and — when `skip_framework` is set — only those that
/// are not framework packages.
pub open spec fn planned_download(p: PackageInstance, skip_framework: bool) -> bool {
    p.package_uri is Some && !(skip_framework && is_framework_spec(p.package_moniker@))
}

/// The positions, in order, of the first `n` packages that are downloaded.
pub open spec fn planned_indices(packages: Seq<PackageInstance>, skip_framework: bool, n: int) -> Seq<
    usize,
>
    decreases n,
{
    if n <= 0 {
        Seq::empty()
    } else if planned_download(packages[n - 1], skip_framework) {
        planned_indices(packages, skip_framework, n - 1).push((n - 1) as usize)
    } else {
        planned_indices(packages, skip_framework, n - 1)
    }
}

/// Every planned position names a downloadable package (one with a URL,
/// and no framework when frameworks are skipped), and the positions are
/// increasing, so no package is fetched twice.
pub proof fn lemma_planned_downloads(packages: Seq<PackageInstance>, skip_framework: bool, n: int)
    requires
        n <= packages.len() <= usize::MAX,
    ensures
        ({
            let r = planned_indices(packages, skip_framework, n);
            &&& forall|k: int|
                0 <= k < r.len() ==> (#[trigger] r[k]) < n && planned_download(
                    packages[r[k] as int],
                    skip_framework,
                )
            &&& forall|a: int, b: int| 0 <= a < b < r.len() ==> #[trigger] r[a] < #[trigger] r[b]
        }),
    decreases n,
{
    if n > 0 {
        lemma_planned_downloads(packages, skip_framework, n - 1);
        let prev = planned_indices(packages, skip_framework, n - 1);
        let r = planned_indices(packages, skip_framework, n);
        if planned_download(packages[n - 1], skip_framework) {
            assert(r == prev.push((n - 1) as usize));
            assert forall|k: int| 0 <= k < r.len() implies (#[trigger] r[k]) < n
                && planned_download(packages[r[k] as int], skip_framework) by {
                if k < prev.len() {
                    assert(r[k] == prev[k]);
                }
            }
            assert forall|a: int, b: int| 0 <= a < b < r.len() implies #[trigger] r[a]
                < #[trigger] r[b] by {
                assert(r[a] == prev[a]);
                if b < prev.len() {
                    assert(r[b] == prev[b]);
                }
            }
        }
    }
}

/// Choose which resolved packages to download, keeping their order.
pub fn plan_downloads(packages: &[PackageInstance], skip_framework: bool) -> (r: Vec<usize>)
    ensures
        r@ == planned_indices(packages@, skip_framework, packages@.len() as int),
{
    let mut r: Vec<usize> = Vec::new();
    let n = packages.len();
    for i in 0..n
        invariant
            n == packages@.len(),
            r@ == planned_indices(packages@, skip_framework, i as int),
    {
        let p = &packages[i];
        let keep = p.package_uri.is_some() && !(skip_framework && is_framework(
            p.package_moniker.as_str(),
        ));
        if keep {
            r.push(i);
        }
    }
    r
}


/// The name a package is saved under: its readable file name, sanitized.
pub fn filename_for_package(pkg: &PackageInstance) -> (r: String)
    ensures
        r@ == sanitize_spec(pkg.readable_file_name@),
{
    sanitize_filename(pkg.readable_file_name.as_str())
}

// ---------------------------------------------------------------------------
// Command line
// ---------------------------------------------------------------------------

/// Logging verbosity.
#[derive(Debug, Clone, Copy, PartialEq, Eq, Structural)]
pub enum LogLevel {
    Error,
    Warn,
    Info,
    Debug,
    Trace,
}

/// The identifier types the command line names.
#[derive(Debug, Clone, Copy, PartialEq, Eq, Structural)]
pub enum IdType {
    ProductId,
    Pfn,
    ContentId,
    XboxTitleId,
    LegacyPhone,
    LegacyStore,
    LegacyXbox,
}

/// The device families the command line names.
#[derive(Debug, Clone, Copy, PartialEq, Eq, Structural)]
pub enum Family {
    Desktop,
    Mobile,
    Xbox,
    Universal,
    Holographic,
    Iot,
    Server,
    Andromeda,
    Wcos,
}

pub open spec fn identifier_type_of(t: IdType) -> IdentifierType {
    match t {
        IdType::ProductId => IdentifierType::ProductId,
        IdType::Pfn => IdentifierType::PackageFamilyName,
        IdType::ContentId => IdentifierType::ContentId,
        IdType::XboxTitleId => IdentifierType::XboxTitleId,
        IdType::LegacyPhone => IdentifierType::LegacyWindowsPhoneProductId,
        IdType::LegacyStore => IdentifierType::LegacyWindowsStoreProductId,
        IdType::LegacyXbox => IdentifierType::LegacyXboxProductId,
    }
}

pub open spec fn device_family_of(f: Family) -> DeviceFamily {
    match f {
        Family::Desktop => DeviceFamily::Desktop,
        Family::Mobile => DeviceFamily::Mobile,
        Family::Xbox => DeviceFamily::Xbox,
        Family::Universal => DeviceFamily::Universal,
        Family::Holographic => DeviceFamily::HoloLens,
        Family::Iot => DeviceFamily::IotCore,
        Family::Server => DeviceFamily::ServerCore,
        Family::Andromeda => DeviceFamily::Andromeda,
        Family::Wcos => DeviceFamily::Wcos,
    }
}

impl From<IdType> for IdentifierType {
    fn from(t: IdType) -> (r: IdentifierType) {
        match t {
            IdType::ProductId => IdentifierType::ProductId,
            IdType::Pfn => IdentifierType::PackageFamilyName,
            IdType::ContentId => IdentifierType::ContentId,
            IdType::XboxTitleId => IdentifierType::XboxTitleId,
            IdType::LegacyPhone => IdentifierType::LegacyWindowsPhoneProductId,
            IdType::LegacyStore => IdentifierType::LegacyWindowsStoreProductId,
            IdType::LegacyXbox => IdentifierType::LegacyXboxProductId,
        }
    }
}

impl vstd::std_specs::convert::FromSpecImpl<IdType> for IdentifierType {
    open spec fn obeys_from_spec() -> bool {
        true
    }

    open spec fn from_spec(t: IdType) -> IdentifierType {
        identifier_type_of(t)
    }
}

impl From<Family> for DeviceFamily {
    fn from(f: Family) -> (r: DeviceFamily) {
        match f {
            Family::Desktop => DeviceFamily::Desktop,
            Family::Mobile => DeviceFamily::Mobile,
            Family::Xbox => DeviceFamily::Xbox,
            Family::Universal => DeviceFamily::Universal,
            Family::Holographic => DeviceFamily::HoloLens,
            Family::Iot => DeviceFamily::IotCore,
            Family::Server => DeviceFamily::ServerCore,
            Family::Andromeda => DeviceFamily::Andromeda,
            Family::Wcos => DeviceFamily::Wcos,
        }
    }
}

impl vstd::std_specs::convert::FromSpecImpl<Family> for DeviceFamily {
    open spec fn obeys_from_spec() -> bool {
        true
    }

    open spec fn from_spec(f: Family) -> DeviceFamily {
        device_family_of(f)
    }
}

/// Distinct command-line identifier types select distinct identifier
/// types.
pub proof fn lemma_identifier_type_of_injective(a: IdType, b: IdType)
    ensures
        identifier_type_of(a) == identifier_type_of(b) ==> a == b,
{
}

/// Distinct command-line families select distinct device families.
pub proof fn lemma_device_family_of_injective(a: Family, b: Family)
    ensures
        device_family_of(a) == device_family_of(b) ==> a == b,
{
}

/// The subcommands of the command-line tool.
#[derive(Debug, Clone)]
pub enum Command {
    /// Fetch direct download URLs for a product's packages.
    Packages { id: String, token: Option<String>, id_type: IdType },
    /// Query detailed product information.
    Query { id: String, id_type: IdType, token: Option<String> },
    /// Search the store catalog.
    Search { query: String, family: Family, skip: u32 },
    /// Resolve a product's packages and stream them to disk.
    Download {
        id: String,
        token: Option<String>,
        id_type: IdType,
        out: String,
        skip_framework: bool,
        force: bool,
    },
}

/// The parsed command line.
#[derive(Debug, Clone)]
pub struct Cli {
    pub log_level: LogLevel,
    pub command: Command,
}

} // verus!
