use stellar_xdr::curr::{Limits, ReadXdr, ScSymbol, ScVal, StringM};
use ttl_keeper::error::MyError;
use ttl_keeper::events::get_claim::{
    extract_contract_id, get_claim_events, get_wasm_hash, ClaimStep, ContractDataValue,
    ContractExecutableValue, QueryEvents as ClaimQuery,
};
use ttl_keeper::events::get_deploy::{get_deploy_events, try_get_deploy_events, QueryEvents as DeployQuery};
use ttl_keeper::events::{EventNode, EventsByTopic, EventsData, EventsResponse};
use ttl_keeper::publish_events::{
    get_publish_events, PublishData, PublishEdge, PublishEdges, PublishResponse,
};
use ttl_keeper::xdr::ScValue;

const DEPLOY_SYMBOL: &str = "AAAADwAAAAZkZXBsb3kAAA==";
const U32_SEVEN: &str = "AAAAAwAAAAc=";
const CLAIM_EVENT: &str = "AAAAEQAAAAEAAAACAAAADwAAAAtjb250cmFjdF9pZAAAAAASAAAAAQABAgMEBQYHCAkKCwwNDg8QERITFBUWFxgZGhscHR4fAAAADwAAAAZhbW91bnQAAAAAAAMAAAAF";
const CLAIM_EVENT_NOT_ADDRESS: &str = "AAAAEQAAAAEAAAABAAAADwAAAAtjb250cmFjdF9pZAAAAAADAAAABQ==";
const CLAIM_EVENT_NO_KEY: &str = "AAAAEQAAAAEAAAABAAAADwAAAAZhbW91bnQAAAAAAAMAAAAF";

fn decoder_error(text: &str) -> String {
    ScVal::from_xdr_base64(text, Limits::none()).unwrap_err().to_string()
}

fn events(nodes: Vec<&str>) -> EventsResponse {
    EventsResponse {
        data: Some(EventsData {
            event_by_topic: Some(EventsByTopic {
                nodes: Some(nodes.into_iter().map(|d| Some(EventNode { data: Some(d.to_string()) })).collect()),
            }),
        }),
    }
}

fn contract_id() -> [u8; 32] {
    core::array::from_fn(|i| i as u8)
}

#[test]
fn deploy_and_claim_topics_are_xdr_strings() {
    assert_eq!(DeployQuery::topic(), "AAAADgAAAAZEZXBsb3kAAA==");
    assert_eq!(ClaimQuery::topic(), "AAAADgAAAAVDbGFpbQAAAA==");
}

#[test]
fn deploy_events_decode_in_order() {
    let decoded = get_deploy_events(200, Some(events(vec![DEPLOY_SYMBOL, U32_SEVEN]))).ok().unwrap();
    assert_eq!(decoded.0.len(), 2);
    assert_eq!(decoded.0[0], ScVal::Symbol(ScSymbol(StringM::try_from("deploy").unwrap())));
    assert_eq!(decoded.0[1], ScVal::U32(7));
}

#[test]
fn deploy_events_empty_list_is_ok() {
    assert_eq!(get_deploy_events(200, Some(events(vec![]))).ok().unwrap().0.len(), 0);
}

#[test]
fn deploy_events_missing_fields() {
    assert!(matches!(get_deploy_events(200, Some(EventsResponse { data: None })), Err(MyError::EmptyData)));
    let no_topic = EventsResponse { data: Some(EventsData { event_by_topic: None }) };
    assert!(matches!(get_deploy_events(200, Some(no_topic)), Err(MyError::EmptyEventByTopic)));
    let no_nodes = EventsResponse {
        data: Some(EventsData { event_by_topic: Some(EventsByTopic { nodes: None }) }),
    };
    assert!(matches!(get_deploy_events(200, Some(no_nodes)), Err(MyError::EmptyNodes)));
}

#[test]
fn deploy_events_refuse_bad_xdr() {
    let r = get_deploy_events(200, Some(events(vec![DEPLOY_SYMBOL, "not base64 xdr"])));
    assert_eq!(r.err(), Some(MyError::FromXdrError(decoder_error("not base64 xdr"))));
}

fn publish(edges: Vec<Option<PublishEdge>>) -> PublishResponse {
    PublishResponse {
        data: Some(PublishData { event_by_topic: Some(PublishEdges { edges: Some(edges) }) }),
    }
}

fn edge(d: &str) -> Option<PublishEdge> {
    Some(PublishEdge { node: Some(EventNode { data: Some(d.to_string()) }) })
}

#[test]
fn publish_events_decode_in_order() {
    let decoded = get_publish_events(200, Some(publish(vec![edge(U32_SEVEN), edge(DEPLOY_SYMBOL)]))).ok().unwrap();
    assert_eq!(decoded.0, vec![
        ScVal::U32(7),
        ScVal::Symbol(ScSymbol(StringM::try_from("deploy").unwrap())),
    ]);
}

#[test]
fn publish_events_missing_fields() {
    assert!(matches!(get_publish_events(200, Some(PublishResponse { data: None })), Err(MyError::EmptyResponseData)));
    let no_topic = PublishResponse { data: Some(PublishData { event_by_topic: None }) };
    assert!(matches!(get_publish_events(200, Some(no_topic)), Err(MyError::EmptyEventByTopic)));
    let no_edges = PublishResponse {
        data: Some(PublishData { event_by_topic: Some(PublishEdges { edges: None }) }),
    };
    assert!(matches!(get_publish_events(200, Some(no_edges)), Err(MyError::EmptyEdges)));
}

#[test]
fn publish_events_refuse_the_first_bad_edge() {
    let r = get_publish_events(200, Some(publish(vec![edge(U32_SEVEN), None, edge("bad")])));
    assert!(matches!(r, Err(MyError::EmptyEventEdge)));
    let r = get_publish_events(200, Some(publish(vec![Some(PublishEdge { node: None })])));
    assert!(matches!(r, Err(MyError::EmptyEventNode)));
    let r = get_publish_events(200, Some(publish(vec![Some(PublishEdge { node: Some(EventNode { data: None }) })])));
    assert!(matches!(r, Err(MyError::EmptyEventXdrData)));
    let r = get_publish_events(200, Some(publish(vec![edge("bad"), None])));
    assert_eq!(r.err(), Some(MyError::FromXdrError(decoder_error("bad"))));
}

fn symbol(s: &str) -> ScValue {
    ScValue::Symbol(s.as_bytes().to_vec())
}

#[test]
fn contract_id_is_read_from_the_first_contract_id_key() {
    let event = ScValue::Entries(Some(vec![
        (symbol("amount"), ScValue::Other),
        (symbol("contract_id"), ScValue::ContractAddress([1; 32])),
        (symbol("contract_id"), ScValue::ContractAddress([2; 32])),
    ]));
    assert_eq!(extract_contract_id(&event), Ok([1; 32]));
}

#[test]
fn contract_id_must_be_a_contract_address() {
    let event = ScValue::Entries(Some(vec![(symbol("contract_id"), ScValue::Other)]));
    assert_eq!(extract_contract_id(&event), Err(MyError::InvalidClaimEventData));
    assert_eq!(extract_contract_id(&ScValue::Other), Err(MyError::InvalidClaimEventData));
    assert_eq!(extract_contract_id(&ScValue::Entries(None)), Err(MyError::InvalidClaimEventData));
}

#[test]
fn wasm_hash_is_hex_of_the_instance_executable() {
    let entry = ContractDataValue::Instance(ContractExecutableValue::Wasm(contract_id()));
    assert_eq!(
        get_wasm_hash(&entry),
        Ok("000102030405060708090a0b0c0d0e0f101112131415161718191a1b1c1d1e1f".to_string())
    );
    let asset = ContractDataValue::Instance(ContractExecutableValue::StellarAsset);
    assert_eq!(get_wasm_hash(&asset), Err(MyError::HashRetrievalFailed));
    assert_eq!(get_wasm_hash(&ContractDataValue::Other), Err(MyError::HashRetrievalFailed));
}

fn run_claims(
    nodes: Vec<&str>,
    mut answer: impl FnMut([u8; 32]) -> Result<ContractDataValue, MyError>,
) -> Result<Vec<(ScVal, String)>, MyError> {
    let mut collector = get_claim_events(200, Some(events(nodes)))?;
    loop {
        match collector.try_step().expect("the next claim event is broken") {
            ClaimStep::Done(r) => return r.map(|e| e.0),
            ClaimStep::Lookup(pending) => {
                let id = pending.contract_id();
                collector = pending.resume(answer(id))?;
            },
        }
    }
}

#[test]
fn claim_run_pairs_each_event_with_its_wasm_hash() {
    let mut asked = Vec::new();
    let r = run_claims(vec![CLAIM_EVENT, CLAIM_EVENT], |id| {
        asked.push(id);
        Ok(ContractDataValue::Instance(ContractExecutableValue::Wasm([0xab; 32])))
    })
    .ok()
    .unwrap();
    assert_eq!(asked, vec![contract_id(), contract_id()]);
    assert_eq!(r.len(), 2);
    assert_eq!(r[0].0, ScVal::from_xdr_base64(CLAIM_EVENT, Limits::none()).unwrap());
    assert_eq!(r[0].1, "ab".repeat(32));
}

#[test]
fn claim_run_stops_at_the_first_failure() {
    let r = run_claims(vec![CLAIM_EVENT, "bad"], |_| {
        Ok(ContractDataValue::Instance(ContractExecutableValue::Wasm([0; 32])))
    });
    assert_eq!(r.err(), Some(MyError::FromXdrError(decoder_error("bad"))));
    let r = run_claims(vec![CLAIM_EVENT, "bad"], |_| Err(MyError::RpcError("down".to_string())));
    assert_eq!(r, Err(MyError::RpcError("down".to_string())));
    let r = run_claims(vec![CLAIM_EVENT], |_| Ok(ContractDataValue::Other));
    assert_eq!(r, Err(MyError::HashRetrievalFailed));
    let r = run_claims(vec![CLAIM_EVENT_NOT_ADDRESS], |_| Ok(ContractDataValue::Other));
    assert_eq!(r, Err(MyError::InvalidClaimEventData));
    let r = run_claims(vec![U32_SEVEN], |_| Ok(ContractDataValue::Other));
    assert_eq!(r, Err(MyError::InvalidClaimEventData));
}

#[test]
fn claim_run_without_events_is_empty() {
    assert_eq!(run_claims(vec![], |_| Ok(ContractDataValue::Other)).ok().unwrap().len(), 0);
}

#[test]
fn claim_collector_refuses_missing_fields() {
    assert!(matches!(get_claim_events(200, Some(EventsResponse { data: None })), Err(MyError::EmptyData)));
}

const CLAIM_EVENT_OTHER: &str = "AAAAEQAAAAEAAAADAAAADwAAAAVvdGhlcgAAAAAAAAMAAAABAAAADwAAAAtjb250cmFjdF9pZAAAAAASAAAAAaurq6urq6urq6urq6urq6urq6urq6urq6urq6urq6urAAAADwAAAAtjb250cmFjdF9pZAAAAAASAAAAAQABAgMEBQYHCAkKCwwNDg8QERITFBUWFxgZGhscHR4f";

#[test]
fn claim_run_keeps_each_event_with_its_own_value_and_contract() {
    let mut asked = Vec::new();
    let r = run_claims(vec![CLAIM_EVENT, CLAIM_EVENT_OTHER], |id| {
        asked.push(id);
        Ok(ContractDataValue::Instance(ContractExecutableValue::Wasm(id)))
    })
    .ok()
    .unwrap();
    assert_eq!(asked, vec![contract_id(), [0xab; 32]]);
    assert_eq!(r[0].0, ScVal::from_xdr_base64(CLAIM_EVENT, Limits::none()).unwrap());
    assert_eq!(r[1].0, ScVal::from_xdr_base64(CLAIM_EVENT_OTHER, Limits::none()).unwrap());
    assert_eq!(r[1].1, "ab".repeat(32));
}

#[test]
fn claim_step_is_undefined_on_a_map_without_contract_id() {
    let collector = get_claim_events(200, Some(events(vec![CLAIM_EVENT_NO_KEY]))).ok().unwrap();
    assert!(!collector.next_step_defined());
    assert!(collector.try_step().is_none());
}

#[test]
fn claim_step_is_undefined_on_a_node_without_data() {
    let body = EventsResponse {
        data: Some(EventsData {
            event_by_topic: Some(EventsByTopic { nodes: Some(vec![Some(EventNode { data: None })]) }),
        }),
    };
    let collector = get_claim_events(200, Some(body)).ok().unwrap();
    assert!(collector.try_step().is_none());
}

#[test]
fn claim_run_fails_before_reaching_a_missing_node() {
    let body = EventsResponse {
        data: Some(EventsData {
            event_by_topic: Some(EventsByTopic {
                nodes: Some(vec![Some(EventNode { data: Some("bad".to_string()) }), None]),
            }),
        }),
    };
    let collector = get_claim_events(200, Some(body)).ok().unwrap();
    match collector.try_step() {
        Some(ClaimStep::Done(Err(MyError::FromXdrError(_)))) => {},
        _ => panic!("expected an XDR error"),
    }
}

#[test]
fn events_refuse_a_failed_status() {
    assert!(matches!(get_deploy_events(404, None), Err(MyError::BadResponseStatus)));
    assert!(matches!(get_publish_events(500, None), Err(MyError::BadResponseStatus)));
    assert!(matches!(get_claim_events(302, None), Err(MyError::BadResponseStatus)));
    assert!(matches!(get_deploy_events(199, Some(events(vec![DEPLOY_SYMBOL]))), Err(MyError::BadResponseStatus)));
}

#[test]
fn deploy_events_stop_at_a_bad_node_before_a_missing_one() {
    let body = EventsResponse {
        data: Some(EventsData {
            event_by_topic: Some(EventsByTopic {
                nodes: Some(vec![Some(EventNode { data: Some("bad".to_string()) }), None]),
            }),
        }),
    };
    assert!(matches!(try_get_deploy_events(200, Some(body)), Some(Err(MyError::FromXdrError(_)))));
}

#[test]
fn deploy_events_undefined_when_a_missing_node_is_reached() {
    let body = EventsResponse {
        data: Some(EventsData {
            event_by_topic: Some(EventsByTopic {
                nodes: Some(vec![Some(EventNode { data: Some(U32_SEVEN.to_string()) }), None]),
            }),
        }),
    };
    assert!(try_get_deploy_events(200, Some(body)).is_none());
    assert!(matches!(try_get_deploy_events(200, Some(events(vec![U32_SEVEN]))), Some(Ok(_))));
    assert!(matches!(try_get_deploy_events(500, None), Some(Err(MyError::BadResponseStatus))));
}
