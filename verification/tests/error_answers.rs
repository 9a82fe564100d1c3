use ttl_keeper::error::MyError;

fn body(e: MyError) -> String {
    let (status, body) = e.into_response();
    assert_eq!(status, 200);
    body
}

#[test]
fn unit_errors_have_fixed_bodies() {
    assert_eq!(
        body(MyError::BadResponseStatus),
        "Bad Response Status: response status not included between 200 and 300 (excluded).\nResponse not sent"
    );
    assert_eq!(body(MyError::EmptyData), "Empty data: Mercury database returns an empty field data");
    assert_eq!(
        body(MyError::EmptyEventByTopic),
        "Empty event_by_topic: Mercury database returns an empty field event_by_topic"
    );
    assert_eq!(body(MyError::EmptyNodes), "Empty Nodes: No such events indexed");
    assert_eq!(
        body(MyError::EmptyEntryExpiration),
        "Empty entry expiration: the contract instance hasn't been bumped, Mercury can't start tracking it."
    );
    assert_eq!(body(MyError::EmptyEdges), "Empty Edges: No such events indexed");
}

#[test]
fn added_unit_errors_have_bodies() {
    for e in [
        MyError::InvalidClaimEventData,
        MyError::HashRetrievalFailed,
        MyError::EmptyResponseData,
        MyError::EmptyEventEdge,
        MyError::EmptyEventNode,
        MyError::EmptyEventXdrData,
    ] {
        assert!(!body(e).is_empty());
    }
}

#[test]
fn wrapped_errors_prefix_their_text() {
    assert_eq!(body(MyError::ReqwestError("timeout".to_string())), "Reqwest Error: timeout");
    assert_eq!(body(MyError::FromXdrError("xdr value invalid".to_string())), "Failed to convert xdr value: xdr value invalid");
    assert_eq!(body(MyError::ToXdrError("x".to_string())), "Failed to create xdr value : x");
    assert_eq!(body(MyError::ExtendError("e".to_string())), "Failed to extend contract: e");
    assert_eq!(
        body(MyError::ConfigNetworkError("c".to_string())),
        "Failed to get network config when using Soroban CLI: c"
    );
    assert_eq!(
        body(MyError::KeyError("k".to_string())),
        "Failed to parse ledger key when using soroban CLI: k"
    );
    assert_eq!(body(MyError::RpcError("r".to_string())), "Failed to communicate with RPC: r");
    assert_eq!(body(MyError::DatabaseError("d".to_string())), "Database error: d");
}

#[test]
fn conversion_failure_quotes_the_address() {
    assert_eq!(
        body(MyError::StringToContractConversionFailed("abc".to_string(), "Invalid".to_string())),
        "Failed to convert String \"abc\" into Contract: Invalid"
    );
    assert_eq!(
        body(MyError::ScAddressConversionFailed("a\"b".to_string(), "ConversionError".to_string())),
        "Failed to convert Address \"a\\\"b\" into ScAddress: ConversionError"
    );
}
