//! The status rule every response is held to: a non-2xx status fails the
//! call that received it, with the status and body kept for the report,
//! and nothing of that response is processed further.

use vstd::prelude::*;

verus! {

use crate::error::WunderError;

/// True when an HTTP status code counts as success.
pub open spec fn status_is_success(status: u16) -> bool {
    200 <= status < 300
}

/// Decides whether an HTTP status code is a success (2xx).
pub fn is_success_status(status: u16) -> (r: bool)
    ensures
        r == status_is_success(status),
{
    200 <= status && status < 300
}

/// Holds a response's status to the success rule: a 2xx passes, anything
/// else fails with the status and the response body.
pub fn check_status(status: u16, body: String) -> (r: Result<(), WunderError>)
    ensures
        status_is_success(status) ==> r == Result::<(), WunderError>::Ok(()),
        !status_is_success(status) ==> r == Result::<(), WunderError>::Err(
            WunderError::HttpStatus { status, body },
        ),
{
    if is_success_status(status) {
        Result::Ok(())
    } else {
        Result::Err(WunderError::HttpStatus { status, body })
    }
}

} // verus!
