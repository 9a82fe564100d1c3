//! Subscribing an address to Mercury's expiration tracking, keyed by the
//! digest of the XDR of its instance key.

use vstd::prelude::*;
use soroban_sdk::xdr::{AccountId, PublicKey, ScAddress, Uint256};
use crate::error::MyError;
use crate::expiration::subscribe_ledger_expiration::expiration_hash_text;
use crate::xdr::{
    address_from_strkey, base64_text, hash_to_xdr_base64, instance_key_to_xdr, instance_key_xdr,
    sha256, sha256_digest, strkey_address, xdr_base64_text, xdr_error_text, Durability,
    InstanceKey, ScAddressValue,
};

verus! {

/// The error of soroban-sdk's conversions.
#[verifier::external_type_specification]
#[verifier::external_body]
pub struct ExConversionError(soroban_sdk::ConversionError);

/// `soroban_sdk::String::from_str`, `Address::from_string` and
/// `ScAddress::try_from` (soroban-sdk), in a default host environment.
///
/// Claimed, for a string that stellar-strkey reads as an account or a
/// contract strkey (the host parses strkeys of 56 bytes with stellar-strkey
/// and keeps exactly these two kinds; it panics on any other string, hence
/// the precondition): the conversions succeed and give that address.
#[verifier::external_body]
fn soroban_address(s: &str) -> (r: Result<ScAddressValue, soroban_sdk::ConversionError>)
    requires
        strkey_address(s@) is Some,
    ensures
        match r {
            Ok(a) => strkey_address(s@) == Some(a),
            Err(_) => false,
        },
{
    let env = soroban_sdk::Env::default();
    let address = soroban_sdk::Address::from_string(&soroban_sdk::String::from_str(&env, s));
    match ScAddress::try_from(address)? {
        ScAddress::Account(AccountId(PublicKey::PublicKeyTypeEd25519(Uint256(key)))) =>
            Ok(ScAddressValue::Account(key)),
        ScAddress::Contract(hash) => Ok(ScAddressValue::Contract(hash.0)),
    }
}

/// The persistent instance key of `address`.
pub open spec fn address_instance_key(address: ScAddressValue) -> InstanceKey {
    InstanceKey { contract: address, durability: Durability::Persistent }
}

/// The hash sent to Mercury for `address`: the base64 XDR of the `Hash`
/// that is the SHA-256 digest of its instance key's XDR (the raw bytes, not
/// their base64 text).
pub open spec fn subscription_hash_text(address: ScAddressValue) -> Seq<char> {
    xdr_base64_text(sha256(instance_key_xdr(address_instance_key(address))))
}

/// What working out the subscription hash of `address` gives: always the
/// hash `subscription_hash_text`.
pub open spec fn address_subscription_outcome(address: ScAddressValue, r: Result<String, MyError>) -> bool {
    match r {
        Ok(hash_xdr) => hash_xdr@ == subscription_hash_text(address),
        Err(_) => false,
    }
}

/// Subscribing an address always tracks its persistent instance: the hash
/// is the base64 of the SHA-256 of the XDR of the `LedgerKey::ContractData`
/// of its instance with durability `Persistent` (last word 0, 0, 0, 1),
/// whatever the address.
pub proof fn law_address_subscription_tracks_the_persistent_instance(
    address: ScAddressValue,
    r: Result<String, MyError>,
)
    requires
        address_subscription_outcome(address, r),
    ensures
        r matches Ok(hash_xdr) && hash_xdr@ == base64_text(sha256(
            seq![0u8, 0u8, 0u8, 6u8] + match address {
                ScAddressValue::Account(key) => seq![0u8, 0u8, 0u8, 0u8, 0u8, 0u8, 0u8, 0u8] + key@,
                ScAddressValue::Contract(id) => seq![0u8, 0u8, 0u8, 1u8] + id@,
            } + seq![0u8, 0u8, 0u8, 20u8, 0u8, 0u8, 0u8, 1u8],
        )),
{
    let key = seq![0u8, 0u8, 0u8, 6u8] + match address {
        ScAddressValue::Account(key) => seq![0u8, 0u8, 0u8, 0u8, 0u8, 0u8, 0u8, 0u8] + key@,
        ScAddressValue::Contract(id) => seq![0u8, 0u8, 0u8, 1u8] + id@,
    } + seq![0u8, 0u8, 0u8, 20u8, 0u8, 0u8, 0u8, 1u8];
    assert(instance_key_xdr(address_instance_key(address)) =~= key);
}

/// For a contract, the hash this module subscribes it under is the one the
/// contract subscription handler posts to Mercury.
pub proof fn lemma_contract_subscription_hashes_agree(id: [u8; 32])
    ensures
        subscription_hash_text(ScAddressValue::Contract(id)) == expiration_hash_text(id),
{
}

/// Works out the hash to subscribe the address with strkey `id` under.
///
/// A string that is not an account or contract strkey stops the service
/// (the Soroban host panics on it), hence the precondition;
/// `try_subscribe_contract_expiration` checks it first.
pub fn subscribe_contract_expiration(id: &str) -> (r: Result<String, MyError>)
    requires
        strkey_address(id@) is Some,
    ensures
        address_subscription_outcome(strkey_address(id@).unwrap(), r),
{
    let address = match soroban_address(id) {
        Ok(a) => a,
        Err(_) => {
            return Err(MyError::ScAddressConversionFailed(
                String::from_str(id),
                String::from_str("not an account or contract strkey"),
            ));
        },
    };
    subscription_hash(address)
}

/// Works out the subscription hash where `id` is an account or contract
/// strkey; `None` for any other string (on which the service stops).
pub fn try_subscribe_contract_expiration(id: &str) -> (r: Option<Result<String, MyError>>)
    ensures
        match strkey_address(id@) {
            None => r is None,
            Some(address) => match r {
                Some(x) => address_subscription_outcome(address, x),
                None => false,
            },
        },
{
    if address_from_strkey(id).is_none() {
        return None;
    }
    Some(subscribe_contract_expiration(id))
}

/// Works out the hash to subscribe `address` under.
pub fn subscription_hash(address: ScAddressValue) -> (r: Result<String, MyError>)
    ensures
        address_subscription_outcome(address, r),
{
    let key = InstanceKey { contract: address, durability: Durability::Persistent };
    let key_xdr = match instance_key_to_xdr(&key) {
        Ok(bytes) => bytes,
        Err(e) => return Err(MyError::ToXdrError(xdr_error_text(&e))),
    };
    let digest = sha256_digest(key_xdr.as_slice());
    match hash_to_xdr_base64(&digest) {
        Ok(text) => Ok(text),
        Err(e) => Err(MyError::ToXdrError(xdr_error_text(&e))),
    }
}

} // verus!
