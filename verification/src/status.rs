//! Status codes, as the `http` crate accepts them.

use vstd::prelude::*;

verus! {

/// Whether `status` is a status code: a number of three digits.
pub open spec fn is_status_code(status: u16) -> bool {
    100 <= status <= 999
}

/// `http::StatusCode::from_u16`: accepts the numbers from 100 to 999 and no
/// others.
#[verifier::external_body]
pub(crate) fn accepts_status(status: u16) -> (accepted: bool)
    ensures
        accepted == is_status_code(status),
{
    http::StatusCode::from_u16(status).is_ok()
}

} // verus!
