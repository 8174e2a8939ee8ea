use storelib_rs::enums::{DeviceFamily, IdentifierType};
use storelib_rs::error::{err_code, family_from_u32, id_type_from_u32, StoreError};

#[test]
fn every_error_kind_has_its_own_negative_code() {
    let errors = [
        StoreError::Http("h".into()),
        StoreError::Json("j".into()),
        StoreError::Xml("x".into()),
        StoreError::NotFound,
        StoreError::TimedOut,
        StoreError::Cancelled,
        StoreError::Other("o".into()),
    ];
    let codes: Vec<i32> = errors.iter().map(err_code).collect();
    assert_eq!(codes, vec![-2, -3, -4, -5, -6, -8, -7]);
}

#[test]
fn error_messages_name_the_kind() {
    assert_eq!(StoreError::Xml("bad".into()).message(), "XML parse error: bad");
    assert_eq!(StoreError::NotFound.message(), "Product not found");
    assert_eq!(StoreError::Cancelled.message(), "Operation cancelled");
    assert_eq!(StoreError::Other("plain".into()).message(), "plain");
}

#[test]
fn numeric_selectors_default_to_product_id_and_desktop() {
    assert_eq!(id_type_from_u32(0), IdentifierType::ProductId);
    assert_eq!(id_type_from_u32(2), IdentifierType::PackageFamilyName);
    assert_eq!(id_type_from_u32(99), IdentifierType::ProductId);
    assert_eq!(family_from_u32(0), DeviceFamily::Desktop);
    assert_eq!(family_from_u32(5), DeviceFamily::HoloLens);
    assert_eq!(family_from_u32(8), DeviceFamily::Wcos);
    assert_eq!(family_from_u32(1000), DeviceFamily::Desktop);
}
