//! The expiration entry Mercury holds for a hashed ledger key.

use vstd::prelude::*;
use crate::error::MyError;
use crate::response::is_success_status;

verus! {

/// The GraphQL query for the expiration entry of a hashed ledger key.
pub struct LedgerInstanceExpiration;

/// The answer to the expiration query (`entryExpirationByHashXdr`).
#[derive(Debug)]
pub struct ExpirationResponse {
    pub data: Option<ExpirationData>,
}

#[derive(Debug)]
pub struct ExpirationData {
    pub entry_expiration_by_hash_xdr: Option<ExpirationEntry>,
}

/// The expiration entry, kept as the JSON text Mercury sent for it.
#[derive(Debug, PartialEq, Eq)]
pub struct ExpirationEntry {
    pub json: String,
}

/// The entry of an answer, or the first missing field on the way.
pub open spec fn expiration_entry(body: ExpirationResponse) -> Result<ExpirationEntry, MyError> {
    match body.data {
        None => Err(MyError::EmptyData),
        Some(data) => match data.entry_expiration_by_hash_xdr {
            None => Err(MyError::EmptyEntryExpiration),
            Some(entry) => Ok(entry),
        },
    }
}

/// What picking the expiration entry gives: `BadResponseStatus` for a
/// status that is not a success, else the entry or the first missing field.
pub open spec fn expiration_outcome(status: u16, body: Option<ExpirationResponse>, r: Result<ExpirationEntry, MyError>) -> bool {
    r == (if is_success_status(status) {
        expiration_entry(body.unwrap())
    } else {
        Err::<ExpirationEntry, MyError>(MyError::BadResponseStatus)
    })
}

/// A success answer's entry is passed on as it came, whatever its JSON
/// text; `EmptyEntryExpiration` comes exactly where the answer has data
/// but no entry, and `EmptyData` exactly where it has no data.
pub proof fn law_expiration_entry_passed_through(
    status: u16,
    body: ExpirationResponse,
    r: Result<ExpirationEntry, MyError>,
)
    requires
        200 <= status < 300,
        expiration_outcome(status, Some(body), r),
    ensures
        match body.data {
            None => r == Err::<ExpirationEntry, MyError>(MyError::EmptyData),
            Some(data) => match data.entry_expiration_by_hash_xdr {
                None => r == Err::<ExpirationEntry, MyError>(MyError::EmptyEntryExpiration),
                Some(entry) => r == Ok::<ExpirationEntry, MyError>(entry),
            },
        },
{
}

/// Picks the expiration entry out of Mercury's answer, given its status
/// and, where the status is a success, its body: `BadResponseStatus` for a
/// status that is not a success, else the entry or the first missing field.
pub fn contract_instance_expiration(status: u16, body: Option<ExpirationResponse>) -> (r: Result<ExpirationEntry, MyError>)
    requires
        is_success_status(status) ==> body is Some,
    ensures
        expiration_outcome(status, body, r),
{
    if !(200 <= status && status < 300) {
        return Err(MyError::BadResponseStatus);
    }
    match body.unwrap().data {
        None => Err(MyError::EmptyData),
        Some(data) => match data.entry_expiration_by_hash_xdr {
            None => Err(MyError::EmptyEntryExpiration),
            Some(entry) => Ok(entry),
        },
    }
}

} // verus!
