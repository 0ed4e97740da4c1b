//! Secret Service: items of the default collection addressed by a service
//! and an account attribute. The service reports conditions, not numbers.
use vstd::prelude::*;
use crate::error::{Error, ErrorOf, ErrorView};

verus! {

/// What a status of the Secret Service means. It defines no codes of its
/// own, so a status is passed on as it came.
pub open spec fn status_error(code: i64, message: Seq<char>) -> ErrorView {
    ErrorOf::Platform { code, message }
}

/// Places a status of the Secret Service in the error vocabulary.
pub fn classify(code: i64, message: String) -> (r: Error)
    ensures
        r@ == status_error(code, message@),
{
    ErrorOf::Platform { code, message }
}

} // verus!
