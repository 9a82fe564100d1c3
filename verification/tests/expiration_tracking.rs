use ttl_keeper::error::MyError;
use ttl_keeper::expiration::extend_ttl::bump_contract_instance;
use ttl_keeper::expiration::query_ledger_expiration::{
    contract_instance_expiration, ExpirationData, ExpirationEntry, ExpirationResponse,
};
use ttl_keeper::expiration::read_ledger::{read_ledger_ttl, FullLedgerEntries, FullLedgerEntry};
use ttl_keeper::expiration::subscribe_ledger_expiration::{
    subscribe_contract_expiration, ExpirationSubscription, SUBSCRIPTION_EXTENSION_LEDGERS,
};
use ttl_keeper::subscribe_ledger_expiration::{
    try_subscribe_contract_expiration as subscribe_address, subscription_hash,
};
use ttl_keeper::xdr::ScAddressValue;

const CONTRACT: &str = "CAAACAQDAQCQMBYIBEFAWDANBYHRAEISCMKBKFQXDAMRUGY4DUPB6N4O";
const ACCOUNT: &str = "GADQOBYHA4DQOBYHA4DQOBYHA4DQOBYHA4DQOBYHA4DQOBYHA4DQOZPI";

fn contract_id() -> [u8; 32] {
    core::array::from_fn(|i| i as u8)
}

#[test]
fn subscription_hash_of_a_contract() {
    let s = subscribe_contract_expiration(CONTRACT).unwrap();
    assert_eq!(
        s,
        ExpirationSubscription {
            hash_xdr: "62joBvlVL+X8HANr0tPwevSavbAGe40pwLpWxfPp7sA=".to_string(),
            ledgers_to_extend: 535679,
        }
    );
    assert_eq!(SUBSCRIPTION_EXTENSION_LEDGERS, 535679);
}

#[test]
fn subscription_refuses_what_is_not_a_contract_strkey() {
    assert_eq!(
        subscribe_contract_expiration("not a strkey"),
        Err(MyError::StringToContractConversionFailed("not a strkey".to_string(), "Invalid".to_string()))
    );
    assert_eq!(
        subscribe_contract_expiration(ACCOUNT),
        Err(MyError::StringToContractConversionFailed(ACCOUNT.to_string(), "Invalid".to_string()))
    );
}

#[test]
fn distinct_contracts_get_distinct_subscription_hashes() {
    let other = stellar_strkey::Contract([9; 32]).to_string();
    let a = subscribe_contract_expiration(CONTRACT).unwrap().hash_xdr;
    let b = subscribe_contract_expiration(&other).unwrap().hash_xdr;
    assert_ne!(a, b);
}

#[test]
fn subscription_hash_over_raw_key_xdr() {
    assert_eq!(
        subscription_hash(ScAddressValue::Contract(contract_id())),
        Ok("62joBvlVL+X8HANr0tPwevSavbAGe40pwLpWxfPp7sA=".to_string())
    );
    assert_eq!(
        subscription_hash(ScAddressValue::Account([7; 32])),
        Ok("IY8HM3QTxCx5YSOHXOfXlz6c2GMBHH7RGtkdF9USBhE=".to_string())
    );
}

#[test]
fn address_subscription_reads_contract_and_account_strkeys() {
    assert_eq!(subscribe_address(CONTRACT), Some(Ok("62joBvlVL+X8HANr0tPwevSavbAGe40pwLpWxfPp7sA=".to_string())));
    assert_eq!(subscribe_address(ACCOUNT), Some(Ok("IY8HM3QTxCx5YSOHXOfXlz6c2GMBHH7RGtkdF9USBhE=".to_string())));
}

#[test]
fn both_subscriptions_agree_on_a_contract() {
    let other = stellar_strkey::Contract([9; 32]).to_string();
    let expected = subscribe_contract_expiration(&other).unwrap().hash_xdr;
    assert_eq!(subscribe_address(&other), Some(Ok(expected)));
}

#[test]
fn address_subscription_is_undefined_on_other_strings() {
    assert_eq!(subscribe_address("nope"), None);
    let seed = stellar_strkey::Strkey::PrivateKeyEd25519(stellar_strkey::ed25519::PrivateKey([3; 32])).to_string();
    assert_eq!(subscribe_address(&seed), None);
}

#[test]
fn bump_reports_remaining_ledgers() {
    assert_eq!(bump_contract_instance((1000, 536679)), "535679");
    assert_eq!(bump_contract_instance((5, 5)), "0");
}

#[test]
fn bump_cuts_the_latest_ledger_to_32_bits() {
    let latest: i64 = (1i64 << 32) + 10;
    assert_eq!(bump_contract_instance((latest, 30)), "20");
}

#[test]
fn read_ledger_takes_the_first_entry() {
    let answer = FullLedgerEntries {
        latest_ledger: 77,
        entries: vec![FullLedgerEntry { live_until_ledger_seq: 900 }, FullLedgerEntry { live_until_ledger_seq: 1 }],
    };
    assert_eq!(read_ledger_ttl(&answer), (77, 900));
}

#[test]
fn expiration_entry_is_picked_out() {
    let entry = ExpirationEntry { json: "{\"ledger\":1}".to_string() };
    let body = ExpirationResponse {
        data: Some(ExpirationData { entry_expiration_by_hash_xdr: Some(entry) }),
    };
    assert_eq!(
        contract_instance_expiration(200, Some(body)),
        Ok(ExpirationEntry { json: "{\"ledger\":1}".to_string() })
    );
}

#[test]
fn expiration_entry_missing_fields() {
    assert_eq!(contract_instance_expiration(200, Some(ExpirationResponse { data: None })), Err(MyError::EmptyData));
    let none = ExpirationResponse { data: Some(ExpirationData { entry_expiration_by_hash_xdr: None }) };
    assert_eq!(contract_instance_expiration(200, Some(none)), Err(MyError::EmptyEntryExpiration));
}

#[test]
fn expiration_entry_refuses_a_failed_status() {
    assert_eq!(contract_instance_expiration(500, None), Err(MyError::BadResponseStatus));
}
