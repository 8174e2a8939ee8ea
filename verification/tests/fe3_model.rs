use storelib_rs::fe3_model::PackageInstance;

#[test]
fn package_extension_whitelist() {
    assert_eq!(PackageInstance::package_extension("abc.appx"), Some(".appx"));
    assert_eq!(PackageInstance::package_extension("abc.APPXBUNDLE"), Some(".appxbundle"),);
    assert_eq!(PackageInstance::package_extension("abc.Msix"), Some(".msix"),);
    assert_eq!(PackageInstance::package_extension("abc.eappxbundle"), Some(".eappxbundle"),);
    assert_eq!(PackageInstance::package_extension("abc.xap"), Some(".xap"));
    assert_eq!(PackageInstance::package_extension("abc.weird"), None);
    assert_eq!(PackageInstance::package_extension("noext"), None);
}

#[test]
fn build_readable_file_name_defaults_to_appx() {
    assert_eq!(
        PackageInstance::build_readable_file_name("Foo.Bar_1.0_x64", Some("guid.appxbundle"),),
        "Foo.Bar_1.0_x64.appxbundle",
    );
    assert_eq!(
        PackageInstance::build_readable_file_name("Foo.Bar_1.0_x64", None),
        "Foo.Bar_1.0_x64.appx",
    );
    assert_eq!(
        PackageInstance::build_readable_file_name("Foo.Bar_1.0_x64", Some("guid.weird")),
        "Foo.Bar_1.0_x64.appx",
    );
}

#[test]
fn package_extension_takes_the_last_dot() {
    assert_eq!(PackageInstance::package_extension("a.msix.appx"), Some(".appx"));
    assert_eq!(PackageInstance::package_extension("a.appx.zip"), None);
    assert_eq!(PackageInstance::package_extension(".EMSIXBUNDLE"), Some(".emsixbundle"));
}

#[test]
fn default_instance_is_empty() {
    let p = PackageInstance::default();
    assert!(p.package_moniker.is_empty());
    assert!(p.package_uri.is_none());
    assert!(p.file_size.is_none());
    assert!(p.all_file_locations.is_empty());
}
