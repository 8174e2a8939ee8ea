use storelib_rs::enums::{DeviceFamily, IdentifierType};

#[test]
fn identifier_type_parse_tolerant_pascal_case() {
    assert_eq!(
        IdentifierType::parse_tolerant("ProductId"),
        Some(IdentifierType::ProductId),
    );
    assert_eq!(
        IdentifierType::parse_tolerant("PackageFamilyName"),
        Some(IdentifierType::PackageFamilyName),
    );
    assert_eq!(
        IdentifierType::parse_tolerant("LegacyWindowsPhoneProductId"),
        Some(IdentifierType::LegacyWindowsPhoneProductId),
    );
}

#[test]
fn identifier_type_parse_tolerant_camel_case() {
    assert_eq!(
        IdentifierType::parse_tolerant("productId"),
        Some(IdentifierType::ProductId),
    );
    assert_eq!(
        IdentifierType::parse_tolerant("xboxTitleId"),
        Some(IdentifierType::XboxTitleId),
    );
}

#[test]
fn identifier_type_parse_tolerant_separators() {
    assert_eq!(
        IdentifierType::parse_tolerant("product-id"),
        Some(IdentifierType::ProductId),
    );
    assert_eq!(
        IdentifierType::parse_tolerant("product_id"),
        Some(IdentifierType::ProductId),
    );
    assert_eq!(
        IdentifierType::parse_tolerant("product id"),
        Some(IdentifierType::ProductId),
    );
    assert_eq!(
        IdentifierType::parse_tolerant("package.family.name"),
        Some(IdentifierType::PackageFamilyName),
    );
}

#[test]
fn identifier_type_parse_tolerant_screaming_case() {
    assert_eq!(
        IdentifierType::parse_tolerant("PRODUCT_ID"),
        Some(IdentifierType::ProductId),
    );
    assert_eq!(
        IdentifierType::parse_tolerant("XBOX-TITLE-ID"),
        Some(IdentifierType::XboxTitleId),
    );
}

#[test]
fn identifier_type_parse_tolerant_rejects_unknown() {
    assert_eq!(IdentifierType::parse_tolerant(""), None);
    assert_eq!(IdentifierType::parse_tolerant("notARealId"), None);
    assert_eq!(IdentifierType::parse_tolerant("product"), None);
    assert_eq!(IdentifierType::parse_tolerant("xxxProductIdxxx"), None);
}

#[test]
fn identifier_type_round_trips_through_tolerant_parsing() {
    for it in [
        IdentifierType::ProductId,
        IdentifierType::XboxTitleId,
        IdentifierType::PackageFamilyName,
        IdentifierType::ContentId,
        IdentifierType::LegacyWindowsPhoneProductId,
        IdentifierType::LegacyWindowsStoreProductId,
        IdentifierType::LegacyXboxProductId,
    ] {
        assert_eq!(IdentifierType::parse_tolerant(it.as_str()), Some(it));
    }
}

#[test]
fn identifier_type_canonical_strings() {
    assert_eq!(IdentifierType::ProductId.as_str(), "productId");
    assert_eq!(IdentifierType::PackageFamilyName.as_str(), "packageFamilyName");
}

#[test]
fn platform_dependency_names() {
    assert_eq!(DeviceFamily::Desktop.platform_dependency_name(), "Windows.Desktop");
    assert_eq!(DeviceFamily::Xbox.platform_dependency_name(), "Windows.Xbox");
}
