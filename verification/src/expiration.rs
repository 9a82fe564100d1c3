//! Time to live of contract instances: reading, extending, and
//! subscribing to expiration notices.

pub mod extend_ttl;
pub mod query_ledger_expiration;
pub mod read_ledger;
pub mod subscribe_ledger_expiration;
