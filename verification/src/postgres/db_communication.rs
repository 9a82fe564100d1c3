//! Answers of the `contracts_ttl` table endpoints.

use vstd::prelude::*;

verus! {

/// One row of the `contracts_ttl` table.
#[derive(Debug, PartialEq, Eq)]
pub struct Ttl {
    pub contract_id: String,
    pub automatic_bump: bool,
    pub live_until_ttl: i32,
}

/// HTTP `200 OK`.
pub const STATUS_OK: u16 = 200;

/// HTTP `201 Created`.
pub const STATUS_CREATED: u16 = 201;

/// HTTP `400 Bad Request`.
pub const STATUS_BAD_REQUEST: u16 = 400;

/// The answer listing the table: every row, with `200 OK`.
pub fn retrieve(rows: Vec<Ttl>) -> (r: (u16, Vec<Ttl>))
    ensures
        r.0 == STATUS_OK,
        r.1@ == rows@,
{
    (STATUS_OK, rows)
}

/// The answer to an upsert of a row: the row the database returned, with
/// `201 Created`; or the database's error text, with `400 Bad Request`.
pub fn add(outcome: Result<Ttl, String>) -> (r: Result<(u16, Ttl), (u16, String)>)
    ensures
        match outcome {
            Ok(row) => r == Ok::<(u16, Ttl), (u16, String)>((STATUS_CREATED, row)),
            Err(text) => r == Err::<(u16, Ttl), (u16, String)>((STATUS_BAD_REQUEST, text)),
        },
{
    match outcome {
        Ok(row) => Ok((STATUS_CREATED, row)),
        Err(text) => Err((STATUS_BAD_REQUEST, text)),
    }
}

} // verus!
