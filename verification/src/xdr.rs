//! The Stellar encodings the service computes: XDR values, their base64
//! text, SHA-256 digests and contract strkeys.
//!
//! The encoding work is done by `stellar-xdr`, `sha2` and `stellar-strkey`;
//! this module states what each call returns, over the byte layouts below.

use vstd::prelude::*;
use vstd::string::StringSliceAdditionalSpecFns;
use std::str::FromStr;
use sha2::Digest;
use stellar_xdr::curr::{
    AccountId, ContractDataDurability, LedgerKey, LedgerKeyContractData, Limits, PublicKey,
    ReadXdr, ScAddress, ScString, ScVal, StringM, Uint256, WriteXdr,
};

verus! {

/// A stellar-xdr contract value, carried through unread.
#[verifier::external_type_specification]
#[verifier::external_body]
pub struct ExScVal(ScVal);

/// The error of the stellar-xdr codec.
#[verifier::external_type_specification]
#[verifier::external_body]
pub struct ExXdrError(stellar_xdr::curr::Error);

/// The error of the strkey decoder.
#[verifier::external_type_specification]
#[verifier::external_body]
pub struct ExDecodeError(stellar_strkey::DecodeError);

/// The address of an account (its ed25519 key) or of a contract (its id).
#[derive(Debug, Clone, Copy, PartialEq, Eq)]
pub enum ScAddressValue {
    Account([u8; 32]),
    Contract([u8; 32]),
}

/// How long a contract data entry lives.
#[derive(Debug, Clone, Copy, PartialEq, Eq)]
pub enum Durability {
    Temporary,
    Persistent,
}

/// The ledger key of a contract's instance entry.
#[derive(Debug, Clone, Copy, PartialEq, Eq)]
pub struct InstanceKey {
    pub contract: ScAddressValue,
    pub durability: Durability,
}

/// What the event logic reads of a decoded contract value: symbols,
/// contract addresses and maps; every other kind of value is `Other`.
#[derive(Debug, PartialEq, Eq)]
pub enum ScValue {
    Symbol(Vec<u8>),
    ContractAddress([u8; 32]),
    Entries(Option<Vec<(ScValue, ScValue)>>),
    Other,
}

// ---------------------------------------------------------------------------
// Byte layouts (XDR, RFC 4506: big-endian 32-bit words, data padded to 4).

/// A 32-bit word holding a small enum discriminant.
pub open spec fn discriminant(n: u8) -> Seq<u8> {
    seq![0u8, 0u8, 0u8, n]
}

/// A big-endian unsigned 32-bit word.
pub open spec fn be_u32(n: nat) -> Seq<u8> {
    seq![
        ((n / 0x1000000) % 0x100) as u8,
        ((n / 0x10000) % 0x100) as u8,
        ((n / 0x100) % 0x100) as u8,
        (n % 0x100) as u8,
    ]
}

/// The zero bytes that pad `len` bytes to a multiple of four.
pub open spec fn padding(len: nat) -> Seq<u8> {
    Seq::new(((4 - (len % 4)) % 4) as nat, |i: int| 0u8)
}

/// `ScAddress`: its kind, then the ed25519 key (kind `PUBLIC_KEY_TYPE_ED25519`)
/// or the contract id.
pub open spec fn sc_address_xdr(a: ScAddressValue) -> Seq<u8> {
    match a {
        ScAddressValue::Account(key) => discriminant(0) + discriminant(0) + key@,
        ScAddressValue::Contract(id) => discriminant(1) + id@,
    }
}

pub open spec fn durability_xdr(d: Durability) -> Seq<u8> {
    match d {
        Durability::Temporary => discriminant(0),
        Durability::Persistent => discriminant(1),
    }
}

/// `LedgerKey::ContractData { contract, key: SCV_LEDGER_KEY_CONTRACT_INSTANCE,
/// durability }`.
pub open spec fn instance_key_xdr(k: InstanceKey) -> Seq<u8> {
    discriminant(6) + sc_address_xdr(k.contract) + discriminant(20) + durability_xdr(k.durability)
}

/// `ScVal::String` holding `bytes`.
pub open spec fn sc_string_xdr(bytes: Seq<u8>) -> Seq<u8> {
    discriminant(14) + be_u32(bytes.len()) + bytes + padding(bytes.len())
}

// ---------------------------------------------------------------------------
// Laws of the layouts.

/// Distinct instance keys have distinct XDR encodings: the key's bytes
/// determine the address kind, the address, and the durability.
pub proof fn lemma_instance_key_xdr_injective(a: InstanceKey, b: InstanceKey)
    requires
        instance_key_xdr(a) == instance_key_xdr(b),
    ensures
        a == b,
{
    let x = instance_key_xdr(a);
    let y = instance_key_xdr(b);
    assert(x[7] == y[7]);
    match (a.contract, b.contract) {
        (ScAddressValue::Contract(p), ScAddressValue::Contract(q)) => {
            assert(x.len() == 48);
            assert(x.subrange(8, 40) =~= p@);
            assert(y.subrange(8, 40) =~= q@);
            assert(p =~= q);
            assert(x[47] == y[47]);
        },
        (ScAddressValue::Account(p), ScAddressValue::Account(q)) => {
            assert(x.len() == 52);
            assert(x.subrange(12, 44) =~= p@);
            assert(y.subrange(12, 44) =~= q@);
            assert(p =~= q);
            assert(x[51] == y[51]);
        },
        (ScAddressValue::Account(_), ScAddressValue::Contract(_)) => {
            assert(x[7] == 0 && y[7] == 1);
        },
        (ScAddressValue::Contract(_), ScAddressValue::Account(_)) => {
            assert(x[7] == 1 && y[7] == 0);
        },
    }
}

// ---------------------------------------------------------------------------
// Names for what the outside encoders return.

/// The standard base64 alphabet (RFC 4648).
pub open spec fn base64_alphabet() -> Seq<char> {
    seq![
        'A', 'B', 'C', 'D', 'E', 'F', 'G', 'H', 'I', 'J', 'K', 'L', 'M', 'N', 'O', 'P',
        'Q', 'R', 'S', 'T', 'U', 'V', 'W', 'X', 'Y', 'Z', 'a', 'b', 'c', 'd', 'e', 'f',
        'g', 'h', 'i', 'j', 'k', 'l', 'm', 'n', 'o', 'p', 'q', 'r', 's', 't', 'u', 'v',
        'w', 'x', 'y', 'z', '0', '1', '2', '3', '4', '5', '6', '7', '8', '9', '+', '/',
    ]
}

/// Standard base64 with padding (RFC 4648): each group of three bytes
/// becomes four characters, six bits each; a last group of one or two
/// bytes is padded with `=`.
pub open spec fn base64_text(bytes: Seq<u8>) -> Seq<char>
    decreases bytes.len(),
{
    let a = base64_alphabet();
    if bytes.len() == 0 {
        Seq::empty()
    } else if bytes.len() == 1 {
        seq![a[(bytes[0] / 4) as int], a[((bytes[0] % 4) * 16) as int], '=', '=']
    } else if bytes.len() == 2 {
        seq![a[(bytes[0] / 4) as int], a[((bytes[0] % 4) * 16 + bytes[1] / 16) as int], a[((bytes[1] % 16) * 4) as int], '=']
    } else {
        seq![
            a[(bytes[0] / 4) as int],
            a[((bytes[0] % 4) * 16 + bytes[1] / 16) as int],
            a[((bytes[1] % 16) * 4 + bytes[2] / 64) as int],
            a[(bytes[2] % 64) as int],
        ] + base64_text(bytes.subrange(3, bytes.len() as int))
    }
}

/// The text that `WriteXdr::to_xdr_base64` writes for a value whose XDR
/// encoding is `xdr`: the encoding in standard base64 with padding.
pub open spec fn xdr_base64_text(xdr: Seq<u8>) -> Seq<char> {
    base64_text(xdr)
}

/// What `ScVal::from_xdr_base64` gives for `text`: the value, with the
/// parts of it this library reads; or, where decoding fails, the `Display`
/// text of the decoder's error.
pub uninterp spec fn sc_val_of_xdr_base64(text: Seq<u8>) -> Result<(ScVal, ScValue), Seq<char>>;

/// Whether `text` decodes as a contract value.
pub open spec fn xdr_decodes(text: Seq<u8>) -> bool {
    sc_val_of_xdr_base64(text) is Ok
}

/// The contract value decoded from `text` (meaningful where it decodes).
pub open spec fn decoded_value(text: Seq<u8>) -> ScVal {
    match sc_val_of_xdr_base64(text) {
        Ok((v, _)) => v,
        Err(_) => arbitrary(),
    }
}

/// The parts of the value decoded from `text` that this library reads
/// (meaningful where it decodes).
pub open spec fn decoded_model(text: Seq<u8>) -> ScValue {
    match sc_val_of_xdr_base64(text) {
        Ok((_, m)) => m,
        Err(_) => ScValue::Other,
    }
}

/// The text of the decoder's error for `text` (meaningful where it does
/// not decode).
pub open spec fn xdr_decode_error(text: Seq<u8>) -> Seq<char> {
    match sc_val_of_xdr_base64(text) {
        Ok(_) => Seq::empty(),
        Err(t) => t,
    }
}

/// The SHA-256 digest of `data`.
pub uninterp spec fn sha256(data: Seq<u8>) -> Seq<u8>;

/// The address that `stellar_strkey::Strkey::from_string` finds in `s`,
/// where `s` is an account (ed25519 public key) or a contract strkey;
/// `None` for any other string.
pub uninterp spec fn strkey_address(s: Seq<char>) -> Option<ScAddressValue>;

/// The contract id that `stellar_strkey::Contract::from_string` finds in
/// `s`; `None` where `s` is not a contract strkey.
pub uninterp spec fn contract_strkey_payload(s: Seq<char>) -> Option<[u8; 32]>;

// ---------------------------------------------------------------------------
// Calls into the outside encoders.

/// Reads back the parts of a stellar-xdr `ScVal` that `ScValue` keeps,
/// variant by variant (map entries in order). Used only by
/// `sc_val_from_xdr_base64`, whose contract covers it; nothing is claimed
/// of it on its own.
#[verifier::external_body]
fn sc_value_of(v: &ScVal) -> ScValue {
    match v {
        ScVal::Symbol(s) => ScValue::Symbol(s.0.to_vec()),
        ScVal::Address(ScAddress::Contract(stellar_xdr::curr::Hash(id))) => ScValue::ContractAddress(*id),
        ScVal::Map(None) => ScValue::Entries(None),
        ScVal::Map(Some(m)) =>
            ScValue::Entries(Some(m.0.iter().map(|e| (sc_value_of(&e.key), sc_value_of(&e.val))).collect())),
        _ => ScValue::Other,
    }
}

/// `WriteXdr::to_xdr` (stellar-xdr) of the `LedgerKey` of a contract's
/// instance entry, with no limits.
///
/// Claimed: the call succeeds (without limits the writer never runs out of
/// depth or length, and writing to memory cannot fail) and the bytes follow
/// the XDR layout `instance_key_xdr`.
#[verifier::external_body]
pub(crate) fn instance_key_to_xdr(k: &InstanceKey) -> (r: Result<Vec<u8>, stellar_xdr::curr::Error>)
    ensures
        match r {
            Ok(bytes) => bytes@ == instance_key_xdr(*k),
            Err(_) => false,
        },
{
    let contract = match &k.contract {
        ScAddressValue::Account(key) =>
            ScAddress::Account(AccountId(PublicKey::PublicKeyTypeEd25519(Uint256(*key)))),
        ScAddressValue::Contract(id) => ScAddress::Contract(stellar_xdr::curr::Hash(*id)),
    };
    let durability = match &k.durability {
        Durability::Temporary => ContractDataDurability::Temporary,
        Durability::Persistent => ContractDataDurability::Persistent,
    };
    let key = ScVal::LedgerKeyContractInstance;
    LedgerKey::ContractData(LedgerKeyContractData { contract, key, durability }).to_xdr(Limits::none())
}

/// `WriteXdr::to_xdr_base64` (stellar-xdr) of a `Hash`, with no limits.
///
/// Claimed: the call succeeds, and its text is the base64 of the 32 bytes
/// (an XDR fixed opaque of 32 bytes needs no padding).
#[verifier::external_body]
pub(crate) fn hash_to_xdr_base64(h: &[u8; 32]) -> (r: Result<String, stellar_xdr::curr::Error>)
    ensures
        match r {
            Ok(text) => text@ == xdr_base64_text(h@),
            Err(_) => false,
        },
{
    stellar_xdr::curr::Hash(*h).to_xdr_base64(Limits::none())
}

/// `StringM::from_str` then `WriteXdr::to_xdr_base64` (stellar-xdr) of
/// `ScVal::String`, with no limits.
///
/// Claimed, for text without a backslash (for which `from_str`'s unescaping
/// keeps the bytes as they are) and of at most `u32::MAX` bytes: the calls
/// succeed and the text is the base64 of `sc_string_xdr` of the text's
/// UTF-8 bytes.
#[verifier::external_body]
pub(crate) fn sc_string_to_xdr_base64(s: &str) -> (r: Result<String, stellar_xdr::curr::Error>)
    requires
        !s@.contains('\\'),
        s.spec_bytes().len() <= u32::MAX,
    ensures
        match r {
            Ok(text) => text@ == xdr_base64_text(sc_string_xdr(s.spec_bytes())),
            Err(_) => false,
        },
{
    ScVal::String(ScString(StringM::from_str(s)?)).to_xdr_base64(Limits::none())
}

/// `ReadXdr::from_xdr_base64` (stellar-xdr) of an `ScVal`, with no limits;
/// a failure is handed back as the `Display` text of its error.
///
/// Claimed: decoding depends on the text alone, so the outcome is the one
/// that `sc_val_of_xdr_base64` names for it: the value, with the parts of
/// it that `ScValue` keeps, or the error's text.
#[verifier::external_body]
pub(crate) fn sc_val_from_xdr_base64(text: &[u8]) -> (r: Result<(ScVal, ScValue), String>)
    ensures
        match r {
            Ok((v, m)) => sc_val_of_xdr_base64(text@) == Ok::<(ScVal, ScValue), Seq<char>>((v, m)),
            Err(t) => sc_val_of_xdr_base64(text@) == Err::<(ScVal, ScValue), Seq<char>>(t@),
        },
{
    match ScVal::from_xdr_base64(text, Limits::none()) {
        Ok(v) => {
            let m = sc_value_of(&v);
            Ok((v, m))
        },
        Err(e) => Err(e.to_string()),
    }
}

/// The `Display` text of a stellar-xdr error. Nothing is claimed of it.
#[verifier::external_body]
pub(crate) fn xdr_error_text(e: &stellar_xdr::curr::Error) -> String {
    e.to_string()
}

/// `Sha256::digest` (sha2).
///
/// Claimed: the digest is the function `sha256` of the data.
#[verifier::external_body]
pub(crate) fn sha256_digest(data: &[u8]) -> (r: [u8; 32])
    ensures
        r@ == sha256(data@),
{
    sha2::Sha256::digest(data).into()
}

/// `stellar_strkey::Contract::from_string`.
///
/// Claimed: the call succeeds exactly where `contract_strkey_payload` names
/// a contract id, and returns that id.
#[verifier::external_body]
pub(crate) fn contract_from_strkey(s: &str) -> (r: Result<[u8; 32], stellar_strkey::DecodeError>)
    ensures
        match r {
            Ok(id) => contract_strkey_payload(s@) == Some(id),
            Err(_) => contract_strkey_payload(s@) is None,
        },
{
    stellar_strkey::Contract::from_string(s).map(|c| c.0)
}

/// `stellar_strkey::Strkey::from_string`, kept for account and contract
/// strkeys.
///
/// Claimed: the address is the function `strkey_address` of the string.
#[verifier::external_body]
pub(crate) fn address_from_strkey(s: &str) -> (r: Option<ScAddressValue>)
    ensures
        r == strkey_address(s@),
{
    match stellar_strkey::Strkey::from_string(s) {
        Ok(stellar_strkey::Strkey::PublicKeyEd25519(key)) => Some(ScAddressValue::Account(key.0)),
        Ok(stellar_strkey::Strkey::Contract(contract)) => Some(ScAddressValue::Contract(contract.0)),
        _ => None,
    }
}

/// `format!("{:#?}", e)` of a strkey decoding error.
///
/// Claimed: the text is `Invalid`, the name of the error type's only variant.
#[verifier::external_body]
pub(crate) fn decode_error_text(e: &stellar_strkey::DecodeError) -> (r: String)
    ensures
        r@ == "Invalid"@,
{
    format!("{:#?}", e)
}

} // verus!
