//! The errors the service answers with, and the text of each answer.

use vstd::prelude::*;

verus! {

/// Everything that can stop a request of the service.
///
/// Errors raised by outside libraries (the HTTP client, the XDR codec, the
/// Soroban RPC) are carried as the text those libraries display for them.
#[derive(Debug, PartialEq, Eq)]
pub enum MyError {
    ReqwestError(String),
    BadResponseStatus,
    EmptyData,
    EmptyEventByTopic,
    EmptyNodes,
    EmptyEntryExpiration,
    /// The address that was not a contract strkey, and the decoder's error.
    StringToContractConversionFailed(String, String),
    FromXdrError(String),
    ToXdrError(String),
    ExtendError(String),
    ConfigNetworkError(String),
    KeyError(String),
    RpcError(String),
    InvalidClaimEventData,
    HashRetrievalFailed,
    EmptyResponseData,
    EmptyEdges,
    EmptyEventEdge,
    EmptyEventNode,
    EmptyEventXdrData,
    /// The address that could not be turned into a ledger address, and why.
    ScAddressConversionFailed(String, String),
    /// The database's error text.
    DatabaseError(String),
}

/// The status code of every error answer: the answer is a plain text body
/// with the default status of such a body.
pub open spec fn error_status() -> u16 {
    200
}

/// The body of the answer to an error.
pub open spec fn error_body(e: MyError) -> Seq<char> {
    match e {
        MyError::ReqwestError(t) => "Reqwest Error: "@ + t@,
        MyError::BadResponseStatus =>
            "Bad Response Status: response status not included between 200 and 300 (excluded).\nResponse not sent"@,
        MyError::EmptyData => "Empty data: Mercury database returns an empty field data"@,
        MyError::EmptyEventByTopic =>
            "Empty event_by_topic: Mercury database returns an empty field event_by_topic"@,
        MyError::EmptyNodes => "Empty Nodes: No such events indexed"@,
        MyError::EmptyEntryExpiration =>
            "Empty entry expiration: the contract instance hasn't been bumped, Mercury can't start tracking it."@,
        MyError::StringToContractConversionFailed(address, err) =>
            "Failed to convert String "@ + str_debug(address@) + " into Contract: "@ + err@,
        MyError::FromXdrError(t) => "Failed to convert xdr value: "@ + t@,
        MyError::ToXdrError(t) => "Failed to create xdr value : "@ + t@,
        MyError::ExtendError(t) => "Failed to extend contract: "@ + t@,
        MyError::ConfigNetworkError(t) =>
            "Failed to get network config when using Soroban CLI: "@ + t@,
        MyError::KeyError(t) => "Failed to parse ledger key when using soroban CLI: "@ + t@,
        MyError::RpcError(t) => "Failed to communicate with RPC: "@ + t@,
        MyError::InvalidClaimEventData =>
            "Invalid claim event data: the event data has no contract_id field holding a contract address"@,
        MyError::HashRetrievalFailed =>
            "Hash retrieval failed: the contract instance is not backed by a Wasm executable"@,
        MyError::EmptyResponseData => "Empty response data: Mercury database returns an empty field data"@,
        MyError::EmptyEdges => "Empty Edges: No such events indexed"@,
        MyError::EmptyEventEdge => "Empty event edge: Mercury database returns an empty edge"@,
        MyError::EmptyEventNode => "Empty event node: Mercury database returns an edge without node"@,
        MyError::EmptyEventXdrData =>
            "Empty event xdr data: Mercury database returns an event without data"@,
        MyError::ScAddressConversionFailed(address, err) =>
            "Failed to convert Address "@ + str_debug(address@) + " into ScAddress: "@ + err@,
        MyError::DatabaseError(t) => "Database error: "@ + t@,
    }
}

/// What `{:#?}` writes for a string: the string quoted, with its special
/// characters escaped.
pub uninterp spec fn str_debug(s: Seq<char>) -> Seq<char>;

/// `format!("{:#?}", s)` for a string slice (std's `Debug` for `str`).
///
/// Claimed: the text is a function of the string's characters alone; the
/// escaping rules themselves are not stated.
#[verifier::external_body]
pub(crate) fn str_debug_text(s: &str) -> (r: String)
    ensures
        r@ == str_debug(s@),
{
    format!("{:#?}", s)
}

fn prefixed(prefix: &str, rest: &str) -> (r: String)
    ensures
        r@ == prefix@ + rest@,
{
    String::from_str(prefix).concat(rest)
}

impl MyError {
    /// The answer to this error: a status code and a plain text body.
    pub fn into_response(self) -> (r: (u16, String))
        ensures
            r.0 == error_status(),
            r.1@ == error_body(self),
    {
        let body = match &self {
            MyError::ReqwestError(t) => prefixed("Reqwest Error: ", t.as_str()),
            MyError::BadResponseStatus => String::from_str(
                "Bad Response Status: response status not included between 200 and 300 (excluded).\nResponse not sent",
            ),
            MyError::EmptyData => String::from_str(
                "Empty data: Mercury database returns an empty field data",
            ),
            MyError::EmptyEventByTopic => String::from_str(
                "Empty event_by_topic: Mercury database returns an empty field event_by_topic",
            ),
            MyError::EmptyNodes => String::from_str("Empty Nodes: No such events indexed"),
            MyError::EmptyEntryExpiration => String::from_str(
                "Empty entry expiration: the contract instance hasn't been bumped, Mercury can't start tracking it.",
            ),
            MyError::StringToContractConversionFailed(address, err) => {
                let quoted = str_debug_text(address.as_str());
                let head = prefixed("Failed to convert String ", quoted.as_str());
                head.concat(" into Contract: ").concat(err.as_str())
            },
            MyError::FromXdrError(t) => prefixed("Failed to convert xdr value: ", t.as_str()),
            MyError::ToXdrError(t) => prefixed("Failed to create xdr value : ", t.as_str()),
            MyError::ExtendError(t) => prefixed("Failed to extend contract: ", t.as_str()),
            MyError::ConfigNetworkError(t) => prefixed(
                "Failed to get network config when using Soroban CLI: ",
                t.as_str(),
            ),
            MyError::KeyError(t) => prefixed(
                "Failed to parse ledger key when using soroban CLI: ",
                t.as_str(),
            ),
            MyError::RpcError(t) => prefixed("Failed to communicate with RPC: ", t.as_str()),
            MyError::InvalidClaimEventData => String::from_str(
                "Invalid claim event data: the event data has no contract_id field holding a contract address",
            ),
            MyError::HashRetrievalFailed => String::from_str(
                "Hash retrieval failed: the contract instance is not backed by a Wasm executable",
            ),
            MyError::EmptyResponseData => String::from_str(
                "Empty response data: Mercury database returns an empty field data",
            ),
            MyError::EmptyEdges => String::from_str("Empty Edges: No such events indexed"),
            MyError::EmptyEventEdge => String::from_str(
                "Empty event edge: Mercury database returns an empty edge",
            ),
            MyError::EmptyEventNode => String::from_str(
                "Empty event node: Mercury database returns an edge without node",
            ),
            MyError::EmptyEventXdrData => String::from_str(
                "Empty event xdr data: Mercury database returns an event without data",
            ),
            MyError::ScAddressConversionFailed(address, err) => {
                let quoted = str_debug_text(address.as_str());
                let head = prefixed("Failed to convert Address ", quoted.as_str());
                head.concat(" into ScAddress: ").concat(err.as_str())
            },
            MyError::DatabaseError(t) => prefixed("Database error: ", t.as_str()),
        };
        (200, body)
    }
}

} // verus!
