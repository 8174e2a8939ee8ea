//! Errors of the library, and the numeric codes the C interface reports
//! them with.

use vstd::prelude::*;

use crate::enums::{DeviceFamily, IdentifierType};
use crate::text::{extend_str, string_of};

verus! {

/// All errors that can be produced by the library. `Http` and `Json` carry
/// the text of the underlying transport or JSON error.
#[derive(Debug, Clone, PartialEq, Eq)]
pub enum StoreError {
    Http(String),
    Json(String),
    Xml(String),
    NotFound,
    TimedOut,
    Cancelled,
    Other(String),
}

/// The mathematical content of an error: its kind and its text.
pub ghost enum StoreErrorView {
    Http(Seq<char>),
    Json(Seq<char>),
    Xml(Seq<char>),
    NotFound,
    TimedOut,
    Cancelled,
    Other(Seq<char>),
}

impl View for StoreError {
    type V = StoreErrorView;

    open spec fn view(&self) -> StoreErrorView {
        match self {
            StoreError::Http(m) => StoreErrorView::Http(m@),
            StoreError::Json(m) => StoreErrorView::Json(m@),
            StoreError::Xml(m) => StoreErrorView::Xml(m@),
            StoreError::NotFound => StoreErrorView::NotFound,
            StoreError::TimedOut => StoreErrorView::TimedOut,
            StoreError::Cancelled => StoreErrorView::Cancelled,
            StoreError::Other(m) => StoreErrorView::Other(m@),
        }
    }
}

/// The message an error is displayed with.
pub open spec fn error_message(e: StoreError) -> Seq<char> {
    match e {
        StoreError::Http(m) => "HTTP error: "@ + m@,
        StoreError::Json(m) => "JSON parse error: "@ + m@,
        StoreError::Xml(m) => "XML parse error: "@ + m@,
        StoreError::NotFound => "Product not found"@,
        StoreError::TimedOut => "Request timed out"@,
        StoreError::Cancelled => "Operation cancelled"@,
        StoreError::Other(m) => m@,
    }
}

impl StoreError {
    /// The human-readable message of this error.
    pub fn message(&self) -> (r: String)
        ensures
            r@ == error_message(*self),
    {
        let mut v: Vec<char> = Vec::new();
        match self {
            StoreError::Http(m) => {
                extend_str(&mut v, "HTTP error: ");
                extend_str(&mut v, m.as_str());
            },
            StoreError::Json(m) => {
                extend_str(&mut v, "JSON parse error: ");
                extend_str(&mut v, m.as_str());
            },
            StoreError::Xml(m) => {
                extend_str(&mut v, "XML parse error: ");
                extend_str(&mut v, m.as_str());
            },
            StoreError::NotFound => extend_str(&mut v, "Product not found"),
            StoreError::TimedOut => extend_str(&mut v, "Request timed out"),
            StoreError::Cancelled => extend_str(&mut v, "Operation cancelled"),
            StoreError::Other(m) => extend_str(&mut v, m.as_str()),
        }
        string_of(v.as_slice())
    }
}

// ---------------------------------------------------------------------------
// C interface codes
// ---------------------------------------------------------------------------

pub const STORELIB_OK: i32 = 0;
pub const STORELIB_ERR_NULL: i32 = -1;
pub const STORELIB_ERR_HTTP: i32 = -2;
pub const STORELIB_ERR_JSON: i32 = -3;
pub const STORELIB_ERR_XML: i32 = -4;
pub const STORELIB_ERR_NOT_FOUND: i32 = -5;
pub const STORELIB_ERR_TIMEOUT: i32 = -6;
pub const STORELIB_ERR_OTHER: i32 = -7;
pub const STORELIB_ERR_CANCELLED: i32 = -8;

/// The numeric code of each error kind.
pub open spec fn error_code(e: StoreError) -> i32 {
    match e {
        StoreError::Http(_) => STORELIB_ERR_HTTP,
        StoreError::Json(_) => STORELIB_ERR_JSON,
        StoreError::Xml(_) => STORELIB_ERR_XML,
        StoreError::NotFound => STORELIB_ERR_NOT_FOUND,
        StoreError::TimedOut => STORELIB_ERR_TIMEOUT,
        StoreError::Cancelled => STORELIB_ERR_CANCELLED,
        StoreError::Other(_) => STORELIB_ERR_OTHER,
    }
}

/// The code the C interface returns for an error.
pub fn err_code(e: &StoreError) -> (r: i32)
    ensures
        r == error_code(*e),
{
    match e {
        StoreError::Http(_) => STORELIB_ERR_HTTP,
        StoreError::Json(_) => STORELIB_ERR_JSON,
        StoreError::Xml(_) => STORELIB_ERR_XML,
        StoreError::NotFound => STORELIB_ERR_NOT_FOUND,
        StoreError::TimedOut => STORELIB_ERR_TIMEOUT,
        StoreError::Cancelled => STORELIB_ERR_CANCELLED,
        StoreError::Other(_) => STORELIB_ERR_OTHER,
    }
}

/// Every error code is negative, so none collides with `STORELIB_OK`, and
/// distinct error kinds get distinct codes.
pub proof fn lemma_error_codes_distinct(a: StoreError, b: StoreError)
    ensures
        error_code(a) < STORELIB_OK,
        error_code(a) != STORELIB_ERR_NULL,
        error_code(a) == error_code(b) <==> (a is Http && b is Http) || (a is Json && b is Json) || (
        a is Xml && b is Xml) || (a is NotFound && b is NotFound) || (a is TimedOut && b is TimedOut)
            || (a is Cancelled && b is Cancelled) || (a is Other && b is Other),
{
}

/// The identifier type a C caller's number selects (`0` and unknown numbers
/// select a product ID).
pub open spec fn id_type_for(v: u32) -> IdentifierType {
    if v == 1 {
        IdentifierType::XboxTitleId
    } else if v == 2 {
        IdentifierType::PackageFamilyName
    } else if v == 3 {
        IdentifierType::ContentId
    } else if v == 4 {
        IdentifierType::LegacyWindowsPhoneProductId
    } else if v == 5 {
        IdentifierType::LegacyWindowsStoreProductId
    } else if v == 6 {
        IdentifierType::LegacyXboxProductId
    } else {
        IdentifierType::ProductId
    }
}

/// The device family a C caller's number selects (`0` and unknown numbers
/// select the desktop).
pub open spec fn family_for(v: u32) -> DeviceFamily {
    if v == 1 {
        DeviceFamily::Mobile
    } else if v == 2 {
        DeviceFamily::Xbox
    } else if v == 3 {
        DeviceFamily::ServerCore
    } else if v == 4 {
        DeviceFamily::IotCore
    } else if v == 5 {
        DeviceFamily::HoloLens
    } else if v == 6 {
        DeviceFamily::Andromeda
    } else if v == 7 {
        DeviceFamily::Universal
    } else if v == 8 {
        DeviceFamily::Wcos
    } else {
        DeviceFamily::Desktop
    }
}

/// Map a C `STORELIB_ID_*` number to an identifier type.
pub fn id_type_from_u32(v: u32) -> (r: IdentifierType)
    ensures
        r == id_type_for(v),
{
    match v {
        1 => IdentifierType::XboxTitleId,
        2 => IdentifierType::PackageFamilyName,
        3 => IdentifierType::ContentId,
        4 => IdentifierType::LegacyWindowsPhoneProductId,
        5 => IdentifierType::LegacyWindowsStoreProductId,
        6 => IdentifierType::LegacyXboxProductId,
        _ => IdentifierType::ProductId,
    }
}

/// Map a C `STORELIB_FAMILY_*` number to a device family.
pub fn family_from_u32(v: u32) -> (r: DeviceFamily)
    ensures
        r == family_for(v),
{
    match v {
        1 => DeviceFamily::Mobile,
        2 => DeviceFamily::Xbox,
        3 => DeviceFamily::ServerCore,
        4 => DeviceFamily::IotCore,
        5 => DeviceFamily::HoloLens,
        6 => DeviceFamily::Andromeda,
        7 => DeviceFamily::Universal,
        8 => DeviceFamily::Wcos,
        _ => DeviceFamily::Desktop,
    }
}

} // verus!
