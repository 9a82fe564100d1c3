//! Rows of the `contracts_ttl` table.

pub mod db_communication;
