//! Package instances resolved through the FE3 delivery service, and the
//! records they carry from its `SyncUpdates` and `GetExtendedUpdateInfo2`
//! answers.

use vstd::prelude::*;

use crate::enums::PackageType;
use crate::xml::opt_view;
use crate::text::{
    ascii_lower, chars_eq_str, chars_of, ends_with, extend_str, has_char, lower_chars, starts_with,
    string_of,
};

verus! {

/// A named hash returned by FE3 (`AdditionalDigest`, `PiecesHashDigest`,
/// `BlockMapDigest`). `algorithm` is the wire string (e.g. `"SHA256"`).
#[derive(Debug, Clone, Default)]
pub struct DigestEntry {
    pub algorithm: String,
    pub value: String,
}

/// One `<FileLocation>` from a `GetExtendedUpdateInfo2` answer: a URL and
/// the `<FileDigest>` that ties it to a `<File>` entry.
#[derive(Debug, Clone, Default)]
pub struct ResolvedFileLocation {
    pub url: String,
    pub digest: Option<String>,
}

impl View for ResolvedFileLocation {
    type V = (Seq<char>, Option<Seq<char>>);

    open spec fn view(&self) -> (Seq<char>, Option<Seq<char>>) {
        (self.url@, opt_view(self.digest))
    }
}

/// One `<UpdateIdentity>` reference inside `<Relationships>`.
#[derive(Debug, Clone, Default)]
pub struct UpdateRef {
    pub update_id: String,
    pub revision_number: Option<String>,
}

/// An `<AtLeastOne IsCategory="...">` group, or a bare `<UpdateIdentity>`
/// (then `is_category` is `None` and the group holds that one reference).
#[derive(Debug, Clone, Default)]
pub struct RelationshipGroup {
    pub is_category: Option<bool>,
    pub updates: Vec<UpdateRef>,
}

/// The `<Relationships>` block of an update.
#[derive(Debug, Clone, Default)]
pub struct Relationships {
    pub prerequisites: Vec<RelationshipGroup>,
    pub bundled_updates: Vec<RelationshipGroup>,
}

/// The `<Properties>` attributes of an update.
#[derive(Debug, Clone, Default)]
pub struct UpdateProperties {
    pub apply_package_rank: Option<String>,
    pub explicitly_deployable: Option<String>,
    pub is_appx_framework: Option<bool>,
    pub package_rank: Option<i64>,
    pub per_user: Option<String>,
    pub update_type: Option<String>,
}

/// An `<AppxFamilyMetadata>` record, matched to a package by the family
/// prefix of its moniker.
#[derive(Debug, Clone, Default)]
pub struct AppxFamilyMetadata {
    pub name: Option<String>,
    pub publisher: Option<String>,
    pub legacy_mobile_product_id: Option<String>,
}

/// The `<CategoryInformation>` record of an update.
#[derive(Debug, Clone, Default)]
pub struct CategoryInformation {
    pub category_type: Option<String>,
    pub display_order: Option<i64>,
    pub exclude_by_default: Option<bool>,
    pub excluded_by_default: Option<bool>,
    pub prohibits_subcategories: Option<bool>,
    pub prohibits_updates: Option<bool>,
}

/// The `<Deployment>` block of an `<UpdateInfo>` envelope.
#[derive(Debug, Clone, Default)]
pub struct Deployment {
    pub id: Option<String>,
    pub action: Option<String>,
    pub is_assigned: Option<String>,
    pub last_change_time: Option<String>,
    pub auto_select: Option<String>,
    pub auto_download: Option<String>,
    pub supersedence_behavior: Option<String>,
    pub priority: Option<String>,
    pub handler_specific_action: Option<String>,
    pub flight_id: Option<String>,
}

/// An attribute not mapped to a typed field, keyed `"<Element>@<Attr>"`.
#[derive(Debug, Clone, Default)]
pub struct ExtraAttribute {
    pub key: String,
    pub value: String,
}

/// Applicability metadata carried, as JSON, inside `<AppxMetadata>`.
#[derive(Debug, Clone, Default)]
pub struct ApplicabilityBlob {
    pub blob_version: Option<i64>,
    pub content_is_main: Option<bool>,
    pub content_package_id: Option<String>,
    pub content_product_id: Option<String>,
    pub content_target_platforms: Option<Vec<ContentTargetPlatform>>,
    pub content_type: Option<i32>,
}

/// Per-platform targeting inside an [`ApplicabilityBlob`].
#[derive(Debug, Clone, Default)]
pub struct ContentTargetPlatform {
    pub platform_max_version_tested: Option<i64>,
    pub platform_min_version: Option<i64>,
    pub platform_target: Option<i32>,
}

/// A resolved package instance with its download location and the update
/// metadata FE3 returned for it.
#[derive(Debug, Clone)]
pub struct PackageInstance {
    pub package_moniker: String,
    /// Primary download URL: the location whose digest matches the binary's,
    /// else the first location.
    pub package_uri: Option<String>,
    pub package_type: PackageType,
    /// The `ApplicabilityBlob` JSON text carried inside `<AppxMetadata>`.
    pub applicability_blob_json: Option<String>,
    pub update_id: String,
    /// Download size in bytes: `<File Size>`, else `<ExtendedProperties
    /// MaxDownloadSize>`, else DisplayCatalog's `MaxDownloadSizeInBytes`.
    pub file_size: Option<i64>,
    /// FE3's raw `<File FileName>`.
    pub file_name: Option<String>,
    /// `<package_moniker><extension>`, the extension taken from `file_name`
    /// when it is a known package format, `.appx` otherwise.
    pub readable_file_name: String,
    pub is_appx_bundle: Option<bool>,
    pub digest: Option<String>,
    pub digest_algorithm: Option<String>,
    pub modified: Option<String>,
    pub patching_type: Option<String>,
    pub additional_digests: Vec<DigestEntry>,
    pub pieces_hash_digest: Option<DigestEntry>,
    pub block_map_digest: Option<DigestEntry>,
    pub handler: Option<String>,
    pub is_appx_framework: Option<bool>,
    pub max_download_size: Option<i64>,
    pub min_download_size: Option<i64>,
    pub package_content_id: Option<String>,
    pub package_identity_name: Option<String>,
    pub creation_date: Option<String>,
    pub content_type: Option<String>,
    pub mandatory_version: Option<String>,
    pub mandatory_date: Option<String>,
    pub default_properties_language: Option<String>,
    pub from_store_service: Option<bool>,
    pub legacy_mobile_product_id: Option<String>,
    pub main_package: Option<bool>,
    pub revision_number: Option<String>,
    pub update_info_id: Option<String>,
    pub is_leaf: Option<bool>,
    pub is_shared: Option<bool>,
    pub installer_specific_identifier: Option<String>,
    pub package_file_name: Option<String>,
    pub handler_type: Option<String>,
    /// Update IDs of every prerequisite, in document order.
    pub prerequisites: Vec<String>,
    /// Update IDs of every bundled update, in document order.
    pub bundled_updates: Vec<String>,
    pub relationships: Relationships,
    pub update_properties: Option<UpdateProperties>,
    pub family_metadata: Option<AppxFamilyMetadata>,
    pub category_information: Option<CategoryInformation>,
    pub deployment: Option<Deployment>,
    pub applicability_rules_xml: Option<String>,
    pub installation_behavior_xml: Option<String>,
    /// Attributes not mapped to a typed field, in the order they were read
    /// (a later entry with the same key replaces an earlier one).
    pub extra_attributes: Vec<ExtraAttribute>,
    /// Every location FE3 returned for this update.
    pub all_file_locations: Vec<ResolvedFileLocation>,
}

/// The view of an instance with every field empty.
pub open spec fn empty_instance_view() -> PackageInstanceView {
    PackageInstanceView {
        package_moniker: Seq::empty(),
        package_uri: None,
        package_type: PackageType::Unknown,
        applicability_blob_json: None,
        update_id: Seq::empty(),
        file_size: None,
        file_name: None,
        readable_file_name: Seq::empty(),
        is_appx_bundle: None,
        digest: None,
        digest_algorithm: None,
        modified: None,
        patching_type: None,
        additional_digests: Seq::empty(),
        pieces_hash_digest: None,
        block_map_digest: None,
        handler: None,
        is_appx_framework: None,
        max_download_size: None,
        min_download_size: None,
        package_content_id: None,
        package_identity_name: None,
        creation_date: None,
        content_type: None,
        mandatory_version: None,
        mandatory_date: None,
        default_properties_language: None,
        from_store_service: None,
        legacy_mobile_product_id: None,
        main_package: None,
        revision_number: None,
        update_info_id: None,
        is_leaf: None,
        is_shared: None,
        installer_specific_identifier: None,
        package_file_name: None,
        handler_type: None,
        prerequisites: Seq::empty(),
        bundled_updates: Seq::empty(),
        relationships: (Seq::empty(), Seq::empty()),
        update_properties: None,
        family_metadata: None,
        category_information: None,
        deployment: None,
        applicability_rules_xml: None,
        installation_behavior_xml: None,
        extra_attributes: Seq::empty(),
        all_file_locations: Seq::empty(),
    }
}

impl Default for PackageInstance {
    fn default() -> (r: Self)
        ensures
            r@ == empty_instance_view(),
    {
        let r = PackageInstance {
            package_moniker: String::new(),
            package_uri: None,
            package_type: PackageType::Unknown,
            applicability_blob_json: None,
            update_id: String::new(),
            file_size: None,
            file_name: None,
            readable_file_name: String::new(),
            is_appx_bundle: None,
            digest: None,
            digest_algorithm: None,
            modified: None,
            patching_type: None,
            additional_digests: Vec::new(),
            pieces_hash_digest: None,
            block_map_digest: None,
            handler: None,
            is_appx_framework: None,
            max_download_size: None,
            min_download_size: None,
            package_content_id: None,
            package_identity_name: None,
            creation_date: None,
            content_type: None,
            mandatory_version: None,
            mandatory_date: None,
            default_properties_language: None,
            from_store_service: None,
            legacy_mobile_product_id: None,
            main_package: None,
            revision_number: None,
            update_info_id: None,
            is_leaf: None,
            is_shared: None,
            installer_specific_identifier: None,
            package_file_name: None,
            handler_type: None,
            prerequisites: Vec::new(),
            bundled_updates: Vec::new(),
            relationships: Relationships { prerequisites: Vec::new(), bundled_updates: Vec::new() },
            update_properties: None,
            family_metadata: None,
            category_information: None,
            deployment: None,
            applicability_rules_xml: None,
            installation_behavior_xml: None,
            extra_attributes: Vec::new(),
            all_file_locations: Vec::new(),
        };
        assert(r@ =~~= empty_instance_view());
        r
    }
}

// ---------------------------------------------------------------------------
// Views
// ---------------------------------------------------------------------------

impl View for DigestEntry {
    type V = (Seq<char>, Seq<char>);

    open spec fn view(&self) -> (Seq<char>, Seq<char>) {
        (self.algorithm@, self.value@)
    }
}

impl View for UpdateRef {
    type V = (Seq<char>, Option<Seq<char>>);

    open spec fn view(&self) -> (Seq<char>, Option<Seq<char>>) {
        (self.update_id@, opt_view(self.revision_number))
    }
}

impl View for RelationshipGroup {
    type V = (Option<bool>, Seq<(Seq<char>, Option<Seq<char>>)>);

    open spec fn view(&self) -> (Option<bool>, Seq<(Seq<char>, Option<Seq<char>>)>) {
        (self.is_category, self.updates@.map_values(|u: UpdateRef| u@))
    }
}

/// The groups of a relationship list.
pub open spec fn groups_view(v: Seq<RelationshipGroup>) -> Seq<
    (Option<bool>, Seq<(Seq<char>, Option<Seq<char>>)>),
> {
    v.map_values(|g: RelationshipGroup| g@)
}

impl View for Relationships {
    type V = (
        Seq<(Option<bool>, Seq<(Seq<char>, Option<Seq<char>>)>)>,
        Seq<(Option<bool>, Seq<(Seq<char>, Option<Seq<char>>)>)>,
    );

    open spec fn view(&self) -> Self::V {
        (groups_view(self.prerequisites@), groups_view(self.bundled_updates@))
    }
}

pub ghost struct UpdatePropertiesView {
    pub apply_package_rank: Option<Seq<char>>,
    pub explicitly_deployable: Option<Seq<char>>,
    pub is_appx_framework: Option<bool>,
    pub package_rank: Option<i64>,
    pub per_user: Option<Seq<char>>,
    pub update_type: Option<Seq<char>>,
}

impl View for UpdateProperties {
    type V = UpdatePropertiesView;

    open spec fn view(&self) -> UpdatePropertiesView {
        UpdatePropertiesView {
            apply_package_rank: opt_view(self.apply_package_rank),
            explicitly_deployable: opt_view(self.explicitly_deployable),
            is_appx_framework: self.is_appx_framework,
            package_rank: self.package_rank,
            per_user: opt_view(self.per_user),
            update_type: opt_view(self.update_type),
        }
    }
}

impl View for AppxFamilyMetadata {
    type V = (Option<Seq<char>>, Option<Seq<char>>, Option<Seq<char>>);

    open spec fn view(&self) -> Self::V {
        (opt_view(self.name), opt_view(self.publisher), opt_view(self.legacy_mobile_product_id))
    }
}

pub ghost struct CategoryInformationView {
    pub category_type: Option<Seq<char>>,
    pub display_order: Option<i64>,
    pub exclude_by_default: Option<bool>,
    pub excluded_by_default: Option<bool>,
    pub prohibits_subcategories: Option<bool>,
    pub prohibits_updates: Option<bool>,
}

impl View for CategoryInformation {
    type V = CategoryInformationView;

    open spec fn view(&self) -> CategoryInformationView {
        CategoryInformationView {
            category_type: opt_view(self.category_type),
            display_order: self.display_order,
            exclude_by_default: self.exclude_by_default,
            excluded_by_default: self.excluded_by_default,
            prohibits_subcategories: self.prohibits_subcategories,
            prohibits_updates: self.prohibits_updates,
        }
    }
}

pub ghost struct DeploymentView {
    pub id: Option<Seq<char>>,
    pub action: Option<Seq<char>>,
    pub is_assigned: Option<Seq<char>>,
    pub last_change_time: Option<Seq<char>>,
    pub auto_select: Option<Seq<char>>,
    pub auto_download: Option<Seq<char>>,
    pub supersedence_behavior: Option<Seq<char>>,
    pub priority: Option<Seq<char>>,
    pub handler_specific_action: Option<Seq<char>>,
    pub flight_id: Option<Seq<char>>,
}

impl View for Deployment {
    type V = DeploymentView;

    open spec fn view(&self) -> DeploymentView {
        DeploymentView {
            id: opt_view(self.id),
            action: opt_view(self.action),
            is_assigned: opt_view(self.is_assigned),
            last_change_time: opt_view(self.last_change_time),
            auto_select: opt_view(self.auto_select),
            auto_download: opt_view(self.auto_download),
            supersedence_behavior: opt_view(self.supersedence_behavior),
            priority: opt_view(self.priority),
            handler_specific_action: opt_view(self.handler_specific_action),
            flight_id: opt_view(self.flight_id),
        }
    }
}

impl View for ExtraAttribute {
    type V = (Seq<char>, Seq<char>);

    open spec fn view(&self) -> (Seq<char>, Seq<char>) {
        (self.key@, self.value@)
    }
}

/// The view of an optional record.
pub open spec fn opt_record_view<T: View>(o: Option<T>) -> Option<T::V> {
    match o {
        Some(x) => Some(x@),
        None => None,
    }
}

/// The mathematical content of a package instance, field for field.
#[verifier::ext_equal]
pub ghost struct PackageInstanceView {
    pub package_moniker: Seq<char>,
    pub package_uri: Option<Seq<char>>,
    pub package_type: PackageType,
    pub applicability_blob_json: Option<Seq<char>>,
    pub update_id: Seq<char>,
    pub file_size: Option<i64>,
    pub file_name: Option<Seq<char>>,
    pub readable_file_name: Seq<char>,
    pub is_appx_bundle: Option<bool>,
    pub digest: Option<Seq<char>>,
    pub digest_algorithm: Option<Seq<char>>,
    pub modified: Option<Seq<char>>,
    pub patching_type: Option<Seq<char>>,
    pub additional_digests: Seq<(Seq<char>, Seq<char>)>,
    pub pieces_hash_digest: Option<(Seq<char>, Seq<char>)>,
    pub block_map_digest: Option<(Seq<char>, Seq<char>)>,
    pub handler: Option<Seq<char>>,
    pub is_appx_framework: Option<bool>,
    pub max_download_size: Option<i64>,
    pub min_download_size: Option<i64>,
    pub package_content_id: Option<Seq<char>>,
    pub package_identity_name: Option<Seq<char>>,
    pub creation_date: Option<Seq<char>>,
    pub content_type: Option<Seq<char>>,
    pub mandatory_version: Option<Seq<char>>,
    pub mandatory_date: Option<Seq<char>>,
    pub default_properties_language: Option<Seq<char>>,
    pub from_store_service: Option<bool>,
    pub legacy_mobile_product_id: Option<Seq<char>>,
    pub main_package: Option<bool>,
    pub revision_number: Option<Seq<char>>,
    pub update_info_id: Option<Seq<char>>,
    pub is_leaf: Option<bool>,
    pub is_shared: Option<bool>,
    pub installer_specific_identifier: Option<Seq<char>>,
    pub package_file_name: Option<Seq<char>>,
    pub handler_type: Option<Seq<char>>,
    pub prerequisites: Seq<Seq<char>>,
    pub bundled_updates: Seq<Seq<char>>,
    pub relationships: (
        Seq<(Option<bool>, Seq<(Seq<char>, Option<Seq<char>>)>)>,
        Seq<(Option<bool>, Seq<(Seq<char>, Option<Seq<char>>)>)>,
    ),
    pub update_properties: Option<UpdatePropertiesView>,
    pub family_metadata: Option<(Option<Seq<char>>, Option<Seq<char>>, Option<Seq<char>>)>,
    pub category_information: Option<CategoryInformationView>,
    pub deployment: Option<DeploymentView>,
    pub applicability_rules_xml: Option<Seq<char>>,
    pub installation_behavior_xml: Option<Seq<char>>,
    pub extra_attributes: Seq<(Seq<char>, Seq<char>)>,
    pub all_file_locations: Seq<(Seq<char>, Option<Seq<char>>)>,
}

impl View for PackageInstance {
    type V = PackageInstanceView;

    open spec fn view(&self) -> PackageInstanceView {
        PackageInstanceView {
            package_moniker: self.package_moniker@,
            package_uri: opt_view(self.package_uri),
            package_type: self.package_type,
            applicability_blob_json: opt_view(self.applicability_blob_json),
            update_id: self.update_id@,
            file_size: self.file_size,
            file_name: opt_view(self.file_name),
            readable_file_name: self.readable_file_name@,
            is_appx_bundle: self.is_appx_bundle,
            digest: opt_view(self.digest),
            digest_algorithm: opt_view(self.digest_algorithm),
            modified: opt_view(self.modified),
            patching_type: opt_view(self.patching_type),
            additional_digests: self.additional_digests@.map_values(|e: DigestEntry| e@),
            pieces_hash_digest: opt_record_view(self.pieces_hash_digest),
            block_map_digest: opt_record_view(self.block_map_digest),
            handler: opt_view(self.handler),
            is_appx_framework: self.is_appx_framework,
            max_download_size: self.max_download_size,
            min_download_size: self.min_download_size,
            package_content_id: opt_view(self.package_content_id),
            package_identity_name: opt_view(self.package_identity_name),
            creation_date: opt_view(self.creation_date),
            content_type: opt_view(self.content_type),
            mandatory_version: opt_view(self.mandatory_version),
            mandatory_date: opt_view(self.mandatory_date),
            default_properties_language: opt_view(self.default_properties_language),
            from_store_service: self.from_store_service,
            legacy_mobile_product_id: opt_view(self.legacy_mobile_product_id),
            main_package: self.main_package,
            revision_number: opt_view(self.revision_number),
            update_info_id: opt_view(self.update_info_id),
            is_leaf: self.is_leaf,
            is_shared: self.is_shared,
            installer_specific_identifier: opt_view(self.installer_specific_identifier),
            package_file_name: opt_view(self.package_file_name),
            handler_type: opt_view(self.handler_type),
            prerequisites: self.prerequisites@.map_values(|s: String| s@),
            bundled_updates: self.bundled_updates@.map_values(|s: String| s@),
            relationships: self.relationships@,
            update_properties: opt_record_view(self.update_properties),
            family_metadata: opt_record_view(self.family_metadata),
            category_information: opt_record_view(self.category_information),
            deployment: opt_record_view(self.deployment),
            applicability_rules_xml: opt_view(self.applicability_rules_xml),
            installation_behavior_xml: opt_view(self.installation_behavior_xml),
            extra_attributes: self.extra_attributes@.map_values(|e: ExtraAttribute| e@),
            all_file_locations: self.all_file_locations@.map_values(|l: ResolvedFileLocation| l@),
        }
    }
}

/// The index of the last `c` in `s`.
pub open spec fn last_index_of(s: Seq<char>, c: char) -> Option<int>
    decreases s.len(),
{
    if s.len() == 0 {
        None
    } else if s.last() == c {
        Some(s.len() - 1)
    } else {
        last_index_of(s.drop_last(), c)
    }
}

proof fn lemma_last_index_of(s: Seq<char>, c: char, i: Option<int>)
    requires
        match i {
            Some(k) => 0 <= k < s.len() && s[k] == c && forall|j: int| k < j < s.len() ==> s[j]
                != c,
            None => !has_char(s, c),
        },
    ensures
        last_index_of(s, c) == i,
    decreases s.len(),
{
    if s.len() > 0 {
        let t = s.drop_last();
        if s.last() != c {
            match i {
                Some(k) => {
                    assert forall|j: int| k < j < t.len() implies t[j] != c by {
                        assert(t[j] == s[j]);
                    }
                    lemma_last_index_of(t, c, i);
                },
                None => {
                    assert(!has_char(t, c)) by {
                        if has_char(t, c) {
                            let j = choose|j: int| 0 <= j < t.len() && t[j] == c;
                            assert(s[j] == c);
                        }
                    }
                    lemma_last_index_of(t, c, i);
                },
            }
        } else {
            match i {
                Some(k) => {},
                None => {
                    assert(s[s.len() - 1] == c);
                },
            }
        }
    }
}

/// The package formats FE3 serves, as the extensions they are saved with.
pub open spec fn is_known_extension(e: Seq<char>) -> bool {
    e == ".appx"@ || e == ".appxbundle"@ || e == ".msix"@ || e == ".msixbundle"@ || e == ".eappx"@
        || e == ".eappxbundle"@ || e == ".emsix"@ || e == ".emsixbundle"@ || e == ".xap"@
}

/// The canonical extension of an FE3 `FileName`: everything from its last
/// `.`, ASCII lower-cased, when that is a known package format.
pub open spec fn package_extension_spec(file_name: Seq<char>) -> Option<Seq<char>> {
    match last_index_of(file_name, '.') {
        Some(d) => {
            let e = ascii_lower(file_name.skip(d));
            if is_known_extension(e) {
                Some(e)
            } else {
                None
            }
        },
        None => None,
    }
}

/// `<moniker><extension of file_name>`, with `.appx` when the name is
/// missing or its extension is not a package format.
pub open spec fn readable_file_name_spec(moniker: Seq<char>, file_name: Option<Seq<char>>) -> Seq<
    char,
> {
    let ext = match file_name {
        Some(f) => match package_extension_spec(f) {
            Some(e) => e,
            None => ".appx"@,
        },
        None => ".appx"@,
    };
    moniker + ext
}

impl PackageInstance {
    /// The canonical extension (`.appx`, `.appxbundle`, `.msix`,
    /// `.msixbundle`, `.eappx`, `.eappxbundle`, `.emsix`, `.emsixbundle`,
    /// `.xap`) of an FE3 `FileName`, or `None` when it has no extension or
    /// one outside that list.
    pub fn package_extension(file_name: &str) -> (r: Option<&'static str>)
        ensures
            match r {
                Some(x) => package_extension_spec(file_name@) == Some(x@),
                None => package_extension_spec(file_name@) is None,
            },
    {
        let chars = chars_of(file_name);
        let dot = match crate::text::rfind_char(chars.as_slice(), '.') {
            Some(d) => d,
            None => {
                proof {
                    lemma_last_index_of(file_name@, '.', None);
                }
                return None;
            },
        };
        proof {
            lemma_last_index_of(file_name@, '.', Some(dot as int));
        }
        let mut tail: Vec<char> = Vec::new();
        let n = chars.len();
        for i in dot..n
            invariant
                n == chars@.len(),
                dot <= n,
                tail@ == chars@.subrange(dot as int, i as int),
        {
            tail.push(chars[i]);
            assert(tail@ =~= chars@.subrange(dot as int, i + 1));
        }
        assert(tail@ =~= chars@.skip(dot as int));
        let e = lower_chars(tail.as_slice());
        let s = e.as_slice();
        if chars_eq_str(s, ".appx") {
            Some(".appx")
        } else if chars_eq_str(s, ".appxbundle") {
            Some(".appxbundle")
        } else if chars_eq_str(s, ".msix") {
            Some(".msix")
        } else if chars_eq_str(s, ".msixbundle") {
            Some(".msixbundle")
        } else if chars_eq_str(s, ".eappx") {
            Some(".eappx")
        } else if chars_eq_str(s, ".eappxbundle") {
            Some(".eappxbundle")
        } else if chars_eq_str(s, ".emsix") {
            Some(".emsix")
        } else if chars_eq_str(s, ".emsixbundle") {
            Some(".emsixbundle")
        } else if chars_eq_str(s, ".xap") {
            Some(".xap")
        } else {
            None
        }
    }

    /// Build the `readable_file_name` from a moniker and FE3's raw
    /// `FileName`: `<moniker><extension>`, falling back to `.appx`.
    pub fn build_readable_file_name(moniker: &str, file_name: Option<&str>) -> (r: String)
        ensures
            r@ == readable_file_name_spec(
                moniker@,
                match file_name {
                    Some(f) => Some(f@),
                    None => None,
                },
            ),
    {
        let ext = match file_name {
            Some(f) => match PackageInstance::package_extension(f) {
                Some(e) => e,
                None => ".appx",
            },
            None => ".appx",
        };
        let mut v = chars_of(moniker);
        extend_str(&mut v, ext);
        string_of(v.as_slice())
    }
}

/// A readable file name always starts with the moniker and ends with one of
/// the package extensions.
pub proof fn lemma_readable_file_name_shape(moniker: Seq<char>, file_name: Option<Seq<char>>)
    ensures
        starts_with(readable_file_name_spec(moniker, file_name), moniker),
        exists|e: Seq<char>|
            is_known_extension(e) && ends_with(readable_file_name_spec(moniker, file_name), e)
                && readable_file_name_spec(moniker, file_name) == moniker + e,
{
    let r = readable_file_name_spec(moniker, file_name);
    let e = match file_name {
        Some(f) => match package_extension_spec(f) {
            Some(x) => x,
            None => ".appx"@,
        },
        None => ".appx"@,
    };
    assert(r == moniker + e);
    assert(is_known_extension(e));
    assert(r.take(moniker.len() as int) =~= moniker);
    assert(r.skip(r.len() - e.len()) =~= e);
}

} // verus!
