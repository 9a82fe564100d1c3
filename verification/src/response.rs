//! The status check every Mercury answer goes through.

use vstd::prelude::*;
use crate::error::MyError;

verus! {

/// Whether an HTTP status is a success (`StatusCode::is_success`: 200 to 299).
pub open spec fn is_success_status(status: u16) -> bool {
    200 <= status < 300
}

/// Lets a Mercury answer through only when its status is a success.
pub fn check_response_status(status: u16) -> (r: Result<(), MyError>)
    ensures
        r == (if is_success_status(status) {
            Ok::<(), MyError>(())
        } else {
            Err::<(), MyError>(MyError::BadResponseStatus)
        }),
{
    if 200 <= status && status < 300 {
        Ok(())
    } else {
        Err(MyError::BadResponseStatus)
    }
}

} // verus!
