//! Keychain Services: generic-password items addressed by a service and an
//! account attribute, and the status codes of the Security framework.
use vstd::prelude::*;
use crate::error::{Error, ErrorOf, ErrorView};

verus! {

/// `errSecUnimplemented`
pub const UNIMPLEMENTED: i64 = -4;

/// `errSecParam`
pub const PARAM: i64 = -50;

/// `errSecUserCanceled`
pub const USER_CANCELED: i64 = -128;

/// `errSecNotAvailable`
pub const NOT_AVAILABLE: i64 = -25291;

/// `errSecAuthFailed`
pub const AUTH_FAILED: i64 = -25293;

/// `errSecDuplicateItem`
pub const DUPLICATE_ITEM: i64 = -25299;

/// `errSecItemNotFound`
pub const ITEM_NOT_FOUND: i64 = -25300;

/// `errSecInteractionNotAllowed`
pub const INTERACTION_NOT_ALLOWED: i64 = -25308;

/// What a status code of Keychain Services means.
pub open spec fn status_error(code: i64, message: Seq<char>) -> ErrorView {
    if code == ITEM_NOT_FOUND {
        ErrorOf::NotFound
    } else if code == USER_CANCELED || code == AUTH_FAILED || code == INTERACTION_NOT_ALLOWED {
        ErrorOf::AccessDenied
    } else if code == UNIMPLEMENTED || code == NOT_AVAILABLE {
        ErrorOf::Unsupported
    } else if code == PARAM {
        ErrorOf::Invalid
    } else {
        ErrorOf::Platform { code, message }
    }
}

/// Places a status code of Keychain Services in the error vocabulary.
pub fn classify(code: i64, message: String) -> (r: Error)
    ensures
        r@ == status_error(code, message@),
{
    if code == ITEM_NOT_FOUND {
        ErrorOf::NotFound
    } else if code == USER_CANCELED || code == AUTH_FAILED || code == INTERACTION_NOT_ALLOWED {
        ErrorOf::AccessDenied
    } else if code == UNIMPLEMENTED || code == NOT_AVAILABLE {
        ErrorOf::Unsupported
    } else if code == PARAM {
        ErrorOf::Invalid
    } else {
        ErrorOf::Platform { code, message }
    }
}

} // verus!
