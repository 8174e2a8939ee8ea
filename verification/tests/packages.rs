use storelib_rs::enums::PackageType;
use storelib_rs::error::StoreError;
use storelib_rs::packages::{get_package_instances, instances_of};
use storelib_rs::xml::parse_document;

const SYNC_WITH_PREREQS: &str = r#"<?xml version="1.0"?>
<root>
  <UpdateInfo>
    <ID>1</ID>
    <Xml>
      <UpdateIdentity UpdateID="own-app-update-id" RevisionNumber="1"/>
      <Properties><SecuredFragment/></Properties>
      <Relationships>
        <Prerequisites>
          <AtLeastOne IsCategory="true">
            <UpdateIdentity UpdateID="cat-framework-1"/>
          </AtLeastOne>
          <AtLeastOne IsCategory="true">
            <UpdateIdentity UpdateID="cat-framework-2"/>
          </AtLeastOne>
        </Prerequisites>
      </Relationships>
      <ApplicabilityRules>
        <Metadata>
          <AppxPackageMetadata>
            <AppxMetadata PackageMoniker="App.Pkg_1.0_x64__hash" PackageType="AppX" IsAppxBundle="false">{"content.packageId":"abc"}</AppxMetadata>
          </AppxPackageMetadata>
        </Metadata>
      </ApplicabilityRules>
    </Xml>
  </UpdateInfo>
</root>"#;

#[test]
fn get_package_instances_extracts_prerequisites() {
    let instances = get_package_instances(SYNC_WITH_PREREQS).unwrap();
    assert_eq!(instances.len(), 1);
    let inst = &instances[0];
    assert_eq!(inst.package_moniker, "App.Pkg_1.0_x64__hash");
    assert_eq!(
        inst.prerequisites,
        vec!["cat-framework-1".to_string(), "cat-framework-2".to_string()],
    );
    assert!(!inst.prerequisites.contains(&"own-app-update-id".to_string()));
}

const SYNC_FULL: &str = r#"<?xml version="1.0"?>
<root>
  <NewUpdates>
    <UpdateInfo>
      <ID>329883205</ID>
      <Deployment>
        <ID>578536343</ID>
        <Action>Install</Action>
        <IsAssigned>true</IsAssigned>
        <LastChangeTime>2026-04-02</LastChangeTime>
        <AutoSelect>1</AutoSelect>
        <AutoDownload>2</AutoDownload>
        <SupersedenceBehavior>0</SupersedenceBehavior>
        <Priority>0</Priority>
        <HandlerSpecificAction>0</HandlerSpecificAction>
        <FlightId>ABC</FlightId>
      </Deployment>
      <IsLeaf>true</IsLeaf>
      <IsShared>false</IsShared>
      <Xml>
        <UpdateIdentity UpdateID="own-update" RevisionNumber="42"/>
        <Properties UpdateType="Software" PackageRank="1000" PerUser="false" IsAppxFramework="true" ApplyPackageRank="true" ExplicitlyDeployable="true"><SecuredFragment/></Properties>
        <Relationships>
          <Prerequisites>
            <AtLeastOne IsCategory="true"><UpdateIdentity UpdateID="cat-1"/></AtLeastOne>
            <UpdateIdentity UpdateID="direct-prereq"/>
          </Prerequisites>
          <BundledUpdates>
            <UpdateIdentity UpdateID="child-1" RevisionNumber="7"/>
            <UpdateIdentity UpdateID="child-2"/>
          </BundledUpdates>
        </Relationships>
        <ApplicabilityRules><IsInstalled><True/></IsInstalled></ApplicabilityRules>
        <Metadata>
          <AppxPackageMetadata>
            <AppxFamilyMetadata Name="App.Pkg" Publisher="CN=Test" LegacyMobileProductId="legacy-1"/>
            <AppxMetadata PackageMoniker="App.Pkg_1.0_x64__hash" PackageType="AppX" IsAppxBundle="false" FutureAttr="surprise">{"content.packageId":"abc"}</AppxMetadata>
          </AppxPackageMetadata>
        </Metadata>
      </Xml>
    </UpdateInfo>
  </NewUpdates>
  <ExtendedUpdateInfo>
    <Updates>
      <Update>
        <ID>329883205</ID>
        <Xml>
          <ExtendedProperties Handler="appx" IsAppxFramework="true" MaxDownloadSize="123" PackageIdentityName="App.Pkg">
            <InstallationBehavior RebootRequired="false"/>
          </ExtendedProperties>
          <Files>
            <File FileName="guid.appxbundle" InstallerSpecificIdentifier="App.Pkg_1.0_x64__hash" Digest="abc" DigestAlgorithm="SHA1" Size="123" Modified="2026-01-01"/>
          </Files>
          <HandlerSpecificData type="appx:AppxInstaller">
            <AppxPackageInstallData MainPackage="true" PackageFileName="guid.appxbundle"/>
            <CategoryInformation CategoryType="App" DisplayOrder="5" ExcludeByDefault="false" ExcludedByDefault="false" ProhibitsSubcategories="true" ProhibitsUpdates="false"/>
          </HandlerSpecificData>
        </Xml>
      </Update>
    </Updates>
  </ExtendedUpdateInfo>
</root>"#;

#[test]
fn get_package_instances_captures_every_field() {
    let pkgs = get_package_instances(SYNC_FULL).unwrap();
    assert_eq!(pkgs.len(), 1);
    let p = &pkgs[0];

    assert_eq!(p.prerequisites, vec!["cat-1", "direct-prereq"]);
    assert_eq!(p.bundled_updates, vec!["child-1", "child-2"]);
    assert_eq!(p.relationships.prerequisites.len(), 2);
    assert_eq!(p.relationships.prerequisites[0].is_category, Some(true));
    assert_eq!(p.relationships.prerequisites[0].updates[0].update_id, "cat-1");
    assert_eq!(p.relationships.prerequisites[1].is_category, None);
    assert_eq!(p.relationships.bundled_updates[0].updates[0].update_id, "child-1");
    assert_eq!(
        p.relationships.bundled_updates[0].updates[0].revision_number.as_deref(),
        Some("7"),
    );

    assert_eq!(p.revision_number.as_deref(), Some("42"));
    assert_eq!(p.update_info_id.as_deref(), Some("329883205"));
    assert_eq!(p.is_leaf, Some(true));
    assert_eq!(p.is_shared, Some(false));

    assert_eq!(p.installer_specific_identifier.as_deref(), Some("App.Pkg_1.0_x64__hash"));
    assert_eq!(p.package_file_name.as_deref(), Some("guid.appxbundle"));
    assert_eq!(p.handler_type.as_deref(), Some("appx:AppxInstaller"));

    let up = p.update_properties.as_ref().unwrap();
    assert_eq!(up.update_type.as_deref(), Some("Software"));
    assert_eq!(up.package_rank, Some(1000));
    assert_eq!(up.is_appx_framework, Some(true));

    let fam = p.family_metadata.as_ref().unwrap();
    assert_eq!(fam.name.as_deref(), Some("App.Pkg"));
    assert_eq!(fam.legacy_mobile_product_id.as_deref(), Some("legacy-1"));

    let cat = p.category_information.as_ref().unwrap();
    assert_eq!(cat.category_type.as_deref(), Some("App"));
    assert_eq!(cat.display_order, Some(5));
    assert_eq!(cat.prohibits_subcategories, Some(true));

    let dep = p.deployment.as_ref().unwrap();
    assert_eq!(dep.action.as_deref(), Some("Install"));
    assert_eq!(dep.flight_id.as_deref(), Some("ABC"));
    assert_eq!(dep.priority.as_deref(), Some("0"));

    assert!(p.applicability_rules_xml.as_deref().unwrap().contains("IsInstalled"));
    assert!(p.installation_behavior_xml.as_deref().unwrap().contains("RebootRequired"));

    assert_eq!(
        p.extra_attribute("AppxMetadata@FutureAttr").map(String::as_str),
        Some("surprise"),
    );
}

#[test]
fn get_package_instances_no_relationships_yields_empty_prereqs() {
    let xml = r#"<?xml version="1.0"?>
<root><UpdateInfo><ID>1</ID><Xml>
  <UpdateIdentity UpdateID="x" RevisionNumber="1"/>
  <ApplicabilityRules><Metadata><AppxPackageMetadata>
    <AppxMetadata PackageMoniker="App.Pkg_1.0_x64__hash" PackageType="AppX" IsAppxBundle="false">{}</AppxMetadata>
  </AppxPackageMetadata></Metadata></ApplicabilityRules>
</Xml></UpdateInfo></root>"#;
    let instances = get_package_instances(xml).unwrap();
    assert_eq!(instances.len(), 1);
    assert!(instances[0].prerequisites.is_empty());
}

#[test]
fn instance_file_fields_come_from_the_primary_file() {
    let pkgs = get_package_instances(SYNC_FULL).unwrap();
    let p = &pkgs[0];
    assert_eq!(p.package_type, PackageType::AppX);
    assert_eq!(p.is_appx_bundle, Some(false));
    assert_eq!(p.file_name.as_deref(), Some("guid.appxbundle"));
    assert_eq!(p.readable_file_name, "App.Pkg_1.0_x64__hash.appxbundle");
    assert_eq!(p.digest.as_deref(), Some("abc"));
    assert_eq!(p.digest_algorithm.as_deref(), Some("SHA1"));
    assert_eq!(p.file_size, Some(123));
    assert_eq!(p.max_download_size, Some(123));
    assert_eq!(p.handler.as_deref(), Some("appx"));
    assert_eq!(p.is_appx_framework, Some(true));
    assert_eq!(p.package_identity_name.as_deref(), Some("App.Pkg"));
    assert_eq!(p.main_package, Some(true));
    assert_eq!(p.applicability_blob_json.as_deref(), Some(r#"{"content.packageId":"abc"}"#));
    assert_eq!(p.update_id, "");
    assert!(p.package_uri.is_none());
    assert!(p.all_file_locations.is_empty());
    assert_eq!(
        p.applicability_rules_xml.as_deref(),
        Some("<ApplicabilityRules><IsInstalled><True/></IsInstalled></ApplicabilityRules>")
    );
    assert_eq!(
        p.installation_behavior_xml.as_deref(),
        Some(r#"<InstallationBehavior RebootRequired="false"/>"#)
    );
}

#[test]
fn instance_without_primary_file_falls_back_to_appx_name() {
    let xml = r#"<root><Xml>
  <AppxMetadata PackageMoniker="Only.Meta_1.0_x86__h" PackageType="UAP" Extra="1">text</AppxMetadata>
</Xml></root>"#;
    let pkgs = get_package_instances(xml).unwrap();
    assert_eq!(pkgs.len(), 1);
    let p = &pkgs[0];
    assert_eq!(p.package_type, PackageType::Uap);
    assert_eq!(p.readable_file_name, "Only.Meta_1.0_x86__h.appx");
    assert!(p.file_name.is_none());
    assert!(p.file_size.is_none());
    assert!(p.update_properties.is_none());
    assert!(p.deployment.is_none());
    assert!(p.family_metadata.is_none());
    assert_eq!(p.extra_attribute("AppxMetadata@Extra").map(String::as_str), Some("1"));
    assert_eq!(p.extra_attribute("AppxMetadata@PackageType"), None);
}

#[test]
fn metadata_with_too_few_attributes_is_skipped() {
    let xml = r#"<root>
  <AppxMetadata PackageMoniker="A_1" PackageType="AppX"/>
  <AppxMetadata PackageType="AppX" IsAppxBundle="true" Other="x"/>
  <AppxMetadata PackageMoniker="B_1" PackageType="AppX" IsAppxBundle="true"/>
</root>"#;
    let pkgs = get_package_instances(xml).unwrap();
    assert_eq!(pkgs.len(), 1);
    assert_eq!(pkgs[0].package_moniker, "B_1");
    assert_eq!(pkgs[0].is_appx_bundle, Some(true));
}

#[test]
fn digests_of_the_primary_file_are_read() {
    let xml = r#"<root>
  <AppxMetadata PackageMoniker="P_1" PackageType="AppX" IsAppxBundle="false"/>
  <Update><Xml><Files>
    <File FileName="abm.cab" Size="5"/>
    <File FileName="x.msixbundle" InstallerSpecificIdentifier="P_1">
      <AdditionalDigest Algorithm="SHA256"> d1 </AdditionalDigest>
      <AdditionalDigest Algorithm="SHA512"></AdditionalDigest>
      <PiecesHashDigest Algorithm="SHA256">p1</PiecesHashDigest>
      <BlockMapDigest>b1</BlockMapDigest>
    </File>
  </Files></Xml></Update>
</root>"#;
    let pkgs = get_package_instances(xml).unwrap();
    let p = &pkgs[0];
    assert_eq!(p.readable_file_name, "P_1.msixbundle");
    assert_eq!(p.additional_digests.len(), 1);
    assert_eq!(p.additional_digests[0].algorithm, "SHA256");
    assert_eq!(p.additional_digests[0].value, "d1");
    let pieces = p.pieces_hash_digest.as_ref().unwrap();
    assert_eq!(pieces.value, "p1");
    let block_map = p.block_map_digest.as_ref().unwrap();
    assert_eq!(block_map.algorithm, "");
    assert_eq!(block_map.value, "b1");
}

#[test]
fn package_instances_invalid_xml_is_error() {
    assert!(matches!(get_package_instances("<open>"), Err(StoreError::Xml(_))));
}

#[test]
fn untyped_attributes_of_every_source_node_are_kept() {
    let xml = r#"<root>
  <UpdateInfo><Xml>
    <UpdateIdentity UpdateID="u" RevisionNumber="1" Extra="id"/>
    <Properties PackageRank="7" Extra="props"/>
    <AppxMetadata PackageMoniker="P_1" PackageType="AppX" IsAppxBundle="false" Extra="meta"/>
  </Xml></UpdateInfo>
  <Update><Xml>
    <ExtendedProperties MaxDownloadSize="9" Extra="ext"/>
    <Files><File InstallerSpecificIdentifier="P_1" Extra="file"/></Files>
    <HandlerSpecificData type="t" Extra="hsd"><AppxPackageInstallData MainPackage="false" Extra="install"/></HandlerSpecificData>
  </Xml></Update>
</root>"#;
    let pkgs = get_package_instances(xml).unwrap();
    let p = &pkgs[0];
    for (key, value) in [
        ("AppxMetadata@Extra", "meta"),
        ("File@Extra", "file"),
        ("ExtendedProperties@Extra", "ext"),
        ("AppxPackageInstallData@Extra", "install"),
        ("Properties@Extra", "props"),
        ("HandlerSpecificData@Extra", "hsd"),
        ("UpdateIdentity@Extra", "id"),
    ] {
        assert_eq!(p.extra_attribute(key).map(String::as_str), Some(value), "{key}");
    }
    assert_eq!(p.extra_attributes.len(), 7);
    assert_eq!(p.extra_attribute("File@InstallerSpecificIdentifier"), None);
    assert_eq!(p.file_size, Some(9));
    assert_eq!(p.main_package, Some(false));
    assert_eq!(p.update_properties.as_ref().unwrap().package_rank, Some(7));
    assert_eq!(p.revision_number.as_deref(), Some("1"));
}

#[test]
fn instances_of_a_parsed_document_match_the_text_reader() {
    let xml = r#"<root>
  <AppxMetadata PackageMoniker="A_1" PackageType="AppX"/>
  <AppxMetadata PackageMoniker="B_1" PackageType="AppX" IsAppxBundle="true"/>
</root>"#;
    let doc = parse_document(xml).unwrap();
    let pkgs = instances_of(&doc, xml);
    assert_eq!(pkgs.len(), 1);
    assert_eq!(pkgs[0].package_moniker, "B_1");
    assert_eq!(pkgs[0].is_appx_bundle, Some(true));
    let again = get_package_instances(xml).unwrap();
    assert_eq!(again.len(), 1);
    assert_eq!(again[0].package_moniker, pkgs[0].package_moniker);
}
