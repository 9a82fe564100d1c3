//! Subscribing a contract to Mercury's expiration tracking.

use vstd::prelude::*;
use crate::error::MyError;
use crate::xdr::{
    base64_text, contract_from_strkey, contract_strkey_payload, decode_error_text, hash_to_xdr_base64,
    instance_key_to_xdr, instance_key_xdr, sha256, sha256_digest, xdr_base64_text,
    xdr_error_text, Durability, InstanceKey, ScAddressValue,
};

verus! {

/// How many ledgers the instance of a newly subscribed contract is extended by.
pub const SUBSCRIPTION_EXTENSION_LEDGERS: u32 = 535679;

/// What subscribing a contract takes: the hash that Mercury tracks the
/// contract's instance by, and the extension of that instance that follows.
#[derive(Debug, PartialEq, Eq)]
pub struct ExpirationSubscription {
    pub hash_xdr: String,
    pub ledgers_to_extend: u32,
}

/// The persistent instance key of the contract with id `id`.
pub open spec fn contract_instance_key(id: [u8; 32]) -> InstanceKey {
    InstanceKey { contract: ScAddressValue::Contract(id), durability: Durability::Persistent }
}

/// The text Mercury knows a contract's instance by: the base64 XDR of the
/// `Hash` that is the SHA-256 digest of the instance key's XDR.
pub open spec fn expiration_hash_text(id: [u8; 32]) -> Seq<char> {
    xdr_base64_text(sha256(instance_key_xdr(contract_instance_key(id))))
}

/// What subscribing the contract with strkey `id` gives: for a contract
/// strkey, its subscription hash and the extension; for any other string,
/// `StringToContractConversionFailed` with the string and `Invalid`.
pub open spec fn expiration_subscription_outcome(id: Seq<char>, r: Result<ExpirationSubscription, MyError>) -> bool {
    match contract_strkey_payload(id) {
        None => match r {
            Err(MyError::StringToContractConversionFailed(address, err)) =>
                address@ == id && err@ == "Invalid"@,
            _ => false,
        },
        Some(contract) => match r {
            Ok(s) => s.hash_xdr@ == expiration_hash_text(contract)
                && s.ledgers_to_extend == SUBSCRIPTION_EXTENSION_LEDGERS,
            Err(_) => false,
        },
    }
}

/// Subscribing a contract always tracks its persistent instance: for every
/// contract strkey, the hash is the base64 of the SHA-256 of the 48 bytes
/// of the `LedgerKey::ContractData` of the contract's instance with
/// durability `Persistent` (its last word 0, 0, 0, 1, whatever the id's
/// bytes are), and the instance is extended by 535679 ledgers.
pub proof fn law_subscription_tracks_the_persistent_instance(
    id: Seq<char>,
    contract: [u8; 32],
    r: Result<ExpirationSubscription, MyError>,
)
    requires
        contract_strkey_payload(id) == Some(contract),
        expiration_subscription_outcome(id, r),
    ensures
        r matches Ok(s) && s.ledgers_to_extend == 535679 && s.hash_xdr@ == base64_text(sha256(
            seq![0u8, 0u8, 0u8, 6u8, 0u8, 0u8, 0u8, 1u8] + contract@
                + seq![0u8, 0u8, 0u8, 20u8, 0u8, 0u8, 0u8, 1u8],
        )),
{
    assert(instance_key_xdr(contract_instance_key(contract)) =~= seq![0u8, 0u8, 0u8, 6u8, 0u8, 0u8, 0u8, 1u8]
        + contract@ + seq![0u8, 0u8, 0u8, 20u8, 0u8, 0u8, 0u8, 1u8]);
}

/// Works out the subscription for the contract whose strkey is `id`.
///
/// The HTTP handler posts `{"hash": hash_xdr}` to Mercury's expiration
/// endpoint, then extends the contract's instance by `ledgers_to_extend`.
pub fn subscribe_contract_expiration(id: &str) -> (r: Result<ExpirationSubscription, MyError>)
    ensures
        expiration_subscription_outcome(id@, r),
{
    let contract = match contract_from_strkey(id) {
        Ok(c) => c,
        Err(e) => {
            return Err(
                MyError::StringToContractConversionFailed(String::from_str(id), decode_error_text(&e)),
            );
        },
    };
    let key = InstanceKey { contract: ScAddressValue::Contract(contract), durability: Durability::Persistent };
    let key_xdr = match instance_key_to_xdr(&key) {
        Ok(bytes) => bytes,
        Err(e) => return Err(MyError::ToXdrError(xdr_error_text(&e))),
    };
    let digest = sha256_digest(key_xdr.as_slice());
    let hash_xdr = match hash_to_xdr_base64(&digest) {
        Ok(text) => text,
        Err(e) => return Err(MyError::ToXdrError(xdr_error_text(&e))),
    };
    Ok(ExpirationSubscription { hash_xdr, ledgers_to_extend: SUBSCRIPTION_EXTENSION_LEDGERS })
}

} // verus!
