use storelib_rs::cli::{
    filename_for_package, is_framework, moniker_family_of, plan_downloads, sanitize_filename,
    Family, IdType,
};
use storelib_rs::enums::{DeviceFamily, IdentifierType, PackageType};
use storelib_rs::fe3_model::PackageInstance;

fn pkg(moniker: &str, file_name: Option<&str>) -> PackageInstance {
    PackageInstance {
        package_moniker: moniker.into(),
        package_uri: None,
        package_type: PackageType::AppX,
        update_id: String::new(),
        file_size: None,
        file_name: file_name.map(str::to_owned),
        readable_file_name: PackageInstance::build_readable_file_name(moniker, file_name),
        ..Default::default()
    }
}

#[test]
fn filename_for_package_passes_through_readable() {
    assert_eq!(
        filename_for_package(&pkg(
            "4DF9E0F8.Netflix_8.156.0.0_neutral_~_mcm4njqhnhss8",
            Some("1b599478-061e-438e-88e1-f8c4de1670d4.appxbundle"),
        )),
        "4DF9E0F8.Netflix_8.156.0.0_neutral_~_mcm4njqhnhss8.appxbundle",
    );
}

#[test]
fn filename_for_package_sanitizes_windows_reserved_chars() {
    let cleaned = filename_for_package(&pkg("Foo:Bar*1.0", Some("x.appx")));
    assert!(!cleaned.contains(':'));
    assert!(!cleaned.contains('*'));
    assert!(cleaned.ends_with(".appx"));
}

#[test]
fn is_framework_matches_known_prefixes() {
    assert!(is_framework("Microsoft.VCLibs.140.00_14.0_x64__8wekyb3d8bbwe"));
    assert!(is_framework("Microsoft.NET.Native.Framework.2.2_2.2_x64__hash"));
    assert!(is_framework("Microsoft.UI.Xaml.2.8_8.2_x64__hash"));
    assert!(is_framework("microsoft.vclibs.140.00_lowercase"));
}

#[test]
fn is_framework_rejects_app_packages() {
    assert!(!is_framework("4DF9E0F8.Netflix_8.1_x64__mcm4njqhnhss8"));
    assert!(!is_framework("Spotify.Spotify_1.0_x64__hash"));
}

#[test]
fn sanitize_replaces_every_reserved_character() {
    assert_eq!(sanitize_filename("a/b\\c:d*e?f\"g<h>i|j"), "a_b_c_d_e_f_g_h_i_j");
    assert_eq!(sanitize_filename("tab\there"), "tab_here");
    assert_eq!(sanitize_filename("plain.appx"), "plain.appx");
    let once = sanitize_filename("a:b\u{1}c");
    assert_eq!(sanitize_filename(&once), once);
}

#[test]
fn moniker_family_is_prefix_before_underscore() {
    assert_eq!(moniker_family_of("Microsoft.VCLibs.140.00_14.0_x64__8wekyb3d8bbwe"), "Microsoft.VCLibs.140.00");
    assert_eq!(moniker_family_of("NoUnderscore"), "NoUnderscore");
    assert_eq!(moniker_family_of("_lead"), "");
}

#[test]
fn plan_keeps_only_downloadable_and_optionally_apps() {
    let mut a = pkg("Microsoft.VCLibs.140.00_1_x64__h", None);
    a.package_uri = Some("http://a".into());
    let b = pkg("App.One_1_x64__h", None);
    let mut c = pkg("App.Two_1_x64__h", None);
    c.package_uri = Some("http://c".into());
    let all = vec![a, b, c];
    assert_eq!(plan_downloads(&all, false), vec![0, 2]);
    assert_eq!(plan_downloads(&all, true), vec![2]);
}

#[test]
fn command_line_types_map_to_library_types() {
    assert_eq!(IdentifierType::from(IdType::Pfn), IdentifierType::PackageFamilyName);
    assert_eq!(IdentifierType::from(IdType::LegacyXbox), IdentifierType::LegacyXboxProductId);
    assert_eq!(DeviceFamily::from(Family::Holographic), DeviceFamily::HoloLens);
    assert_eq!(DeviceFamily::from(Family::Server), DeviceFamily::ServerCore);
}
