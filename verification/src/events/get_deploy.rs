//! The deploy events: every `Deploy` event's value, decoded.

use vstd::prelude::*;
use vstd::string::StringSliceAdditionalSpecFns;
use stellar_xdr::curr::ScVal;
use crate::error::MyError;
use crate::events::{
    event_nodes, event_topic, node_data, node_decode_error, node_decodes, node_has_data, node_value, node_xdr,
    nodes_reach_no_missing_node, reaches_no_missing_node, topic_text, EventNode, EventsResponse,
};
use crate::response::is_success_status;
use vstd::utf8::encode_utf8;
use crate::xdr::{sc_val_from_xdr_base64, sc_val_of_xdr_base64, ScValue};

verus! {

/// The GraphQL query for the events indexed under one topic.
pub struct QueryEvents;

impl QueryEvents {
    /// The topic variable that selects the deploy events.
    pub fn topic() -> (t: String)
        ensures
            t@ == topic_text("Deploy"@),
    {
        proof {
            reveal_strlit("Deploy");
            vstd::string::is_ascii_spec_bytes("Deploy");
        }
        event_topic("Deploy")
    }
}

/// The decoded values of the deploy events, in the order Mercury lists them.
pub struct DeployDataEvents(pub Vec<ScVal>);

/// Whether the nodes before index `k` all carry data that decodes, and the
/// one at `k` carries data that does not.
pub open spec fn first_undecodable(nodes: Seq<Option<EventNode>>, k: int) -> bool {
    &&& 0 <= k < nodes.len()
    &&& forall|i: int| 0 <= i < k ==> #[trigger] node_has_data(nodes[i]) && node_decodes(nodes[i])
    &&& node_has_data(nodes[k])
    &&& !node_decodes(nodes[k])
}

/// Whether the answer (status, and body where the status is a success)
/// can be decoded without meeting an absent node: a non-success status, or
/// a body whose nodes, walked in order, fail before any absent one.
pub open spec fn deploy_decodable(status: u16, body: Option<EventsResponse>) -> bool {
    is_success_status(status) ==> match body {
        Some(b) => event_nodes(b) matches Ok(nodes) ==> reaches_no_missing_node(nodes),
        None => false,
    }
}

/// What the deploy events of an answer are: `BadResponseStatus` for a
/// status that is not a success; the first missing field; else the decoded
/// value of every node, in order, or `FromXdrError` for the first node
/// that does not decode.
pub open spec fn deploy_outcome(status: u16, body: Option<EventsResponse>, r: Result<DeployDataEvents, MyError>) -> bool {
    if !is_success_status(status) {
        r matches Err(e) && e == MyError::BadResponseStatus
    } else {
        match body {
            None => false,
            Some(b) => match event_nodes(b) {
                Err(e) => r matches Err(f) && f == e,
                Ok(nodes) => match r {
                    Ok(events) => events.0@.len() == nodes.len() && forall|i: int|
                        0 <= i < nodes.len() ==> #[trigger] node_has_data(nodes[i]) && node_decodes(nodes[i])
                            && events.0@[i] == node_value(nodes[i]),
                    Err(MyError::FromXdrError(text)) => exists|k: int|
                        first_undecodable(nodes, k) && text@ == node_decode_error(nodes[k]),
                    Err(_) => false,
                },
            },
        }
    }
}

/// Decodes the deploy events of Mercury's answer, given its status and,
/// where the status is a success, its body.
///
/// Meeting an absent node (or one without data) before any failing node
/// stops the service, hence the precondition; `try_get_deploy_events`
/// checks it first.
pub fn get_deploy_events(status: u16, body: Option<EventsResponse>) -> (r: Result<DeployDataEvents, MyError>)
    requires
        deploy_decodable(status, body),
    ensures
        deploy_outcome(status, body, r),
{
    if !(200 <= status && status < 300) {
        return Err(MyError::BadResponseStatus);
    }
    let body = body.unwrap();
    let nodes = match body.data {
        None => return Err(MyError::EmptyData),
        Some(data) => match data.event_by_topic {
            None => return Err(MyError::EmptyEventByTopic),
            Some(by_topic) => match by_topic.nodes {
                None => return Err(MyError::EmptyNodes),
                Some(nodes) => nodes,
            },
        },
    };
    match decode_nodes(&nodes) {
        Ok(decoded) => Ok(DeployDataEvents(decoded)),
        Err(e) => Err(e),
    }
}

/// The deploy events keep every event, in order: for a success answer
/// whose nodes all carry base64 XDR that decodes, the result holds exactly
/// one value per node, the i-th being what the i-th node's text decodes to,
/// whatever the number of nodes.
pub proof fn law_deploy_events_keep_every_node(
    status: u16,
    body: EventsResponse,
    nodes: Vec<Option<EventNode>>,
    r: Result<DeployDataEvents, MyError>,
)
    requires
        200 <= status < 300,
        body.data matches Some(data) && data.event_by_topic matches Some(by_topic)
            && by_topic.nodes == Some(nodes),
        forall|i: int| #![trigger nodes@[i]] 0 <= i < nodes@.len() ==> (nodes@[i] matches Some(n)
            && n.data matches Some(text) && sc_val_of_xdr_base64(encode_utf8(text@)) is Ok),
        deploy_outcome(status, Some(body), r),
    ensures
        r matches Ok(events) && events.0@.len() == nodes@.len() && forall|i: int|
            #![trigger events.0@[i]] 0 <= i < nodes@.len() ==> (nodes@[i] matches Some(n)
                && n.data matches Some(text)
                && sc_val_of_xdr_base64(encode_utf8(text@)) matches Ok((v, _))
                && events.0@[i] == v),
{
    assert(event_nodes(body) == Ok::<Seq<Option<EventNode>>, MyError>(nodes@));
    assert forall|i: int| 0 <= i < nodes@.len() implies #[trigger] node_has_data(nodes@[i])
        && node_decodes(nodes@[i]) by {
        assert(nodes@[i] matches Some(n) && n.data matches Some(text)
            && sc_val_of_xdr_base64(encode_utf8(text@)) is Ok);
    }
    match r {
        Ok(events) => {
            assert forall|i: int| 0 <= i < nodes@.len() implies (nodes@[i] matches Some(n)
                && n.data matches Some(text)
                && sc_val_of_xdr_base64(encode_utf8(text@)) matches Ok((v, _))
                && #[trigger] events.0@[i] == v) by {
                assert(node_has_data(nodes@[i]));
            }
        },
        Err(e) => {
            if e is FromXdrError {
                let k = choose|k: int| first_undecodable(nodes@, k) && (e matches MyError::FromXdrError(text)
                    && text@ == node_decode_error(nodes@[k]));
                assert(node_has_data(nodes@[k]));
            }
        },
    }
}

/// Decodes the deploy events where that meets no absent node; `None`
/// where it would (the service stops there).
pub fn try_get_deploy_events(status: u16, body: Option<EventsResponse>) -> (r: Option<Result<DeployDataEvents, MyError>>)
    requires
        is_success_status(status) ==> body is Some,
    ensures
        match r {
            None => !deploy_decodable(status, body),
            Some(x) => deploy_decodable(status, body) && deploy_outcome(status, body, x),
        },
{
    if 200 <= status && status < 300 {
        let decodable = match &body {
            Some(b) => match &b.data {
                Some(data) => match &data.event_by_topic {
                    Some(by_topic) => match &by_topic.nodes {
                        Some(nodes) => nodes_reach_no_missing_node(nodes),
                        None => true,
                    },
                    None => true,
                },
                None => true,
            },
            None => false,
        };
        if !decodable {
            return None;
        }
    }
    Some(get_deploy_events(status, body))
}

/// Decodes the data of every node, stopping at the first that fails.
fn decode_nodes(nodes: &Vec<Option<EventNode>>) -> (r: Result<Vec<ScVal>, MyError>)
    requires
        reaches_no_missing_node(nodes@),
    ensures
        match r {
            Ok(decoded) => decoded@.len() == nodes@.len() && forall|i: int|
                0 <= i < nodes@.len() ==> #[trigger] node_has_data(nodes@[i]) && node_decodes(nodes@[i])
                    && decoded@[i] == node_value(nodes@[i]),
            Err(MyError::FromXdrError(text)) => exists|k: int|
                first_undecodable(nodes@, k) && text@ == node_decode_error(nodes@[k]),
            Err(_) => false,
        },
{
    let mut decoded: Vec<ScVal> = Vec::new();
    let mut i: usize = 0;
    while i < nodes.len()
        invariant
            i <= nodes@.len(),
            decoded@.len() == i,
            reaches_no_missing_node(nodes@),
            forall|j: int| 0 <= j < i ==> #[trigger] node_has_data(nodes@[j]) && node_decodes(nodes@[j])
                && decoded@[j] == node_value(nodes@[j]),
        decreases nodes@.len() - i,
    {
        proof {
            if !node_has_data(nodes@[i as int]) {
                let j = choose|j: int| 0 <= j < i && node_has_data(nodes@[j]) && !node_decodes(nodes@[j]);
                assert(node_has_data(nodes@[j]) && node_decodes(nodes@[j]));
            }
        }
        let xdr = node_data(&nodes[i]);
        let bytes = xdr.as_str().as_bytes();
        assert(bytes@ == node_xdr(nodes@[i as int]));
        match sc_val_from_xdr_base64(bytes) {
            Ok((value, _)) => {
                decoded.push(value);
                assert forall|j: int| 0 <= j < i + 1 implies #[trigger] node_has_data(nodes@[j])
                    && node_decodes(nodes@[j]) && decoded@[j] == node_value(nodes@[j]) by {
                    if j < i {
                        assert(node_has_data(nodes@[j]));
                    }
                }
            },
            Err(text) => {
                assert(first_undecodable(nodes@, i as int));
                assert(text@ == node_decode_error(nodes@[i as int]));
                return Err(MyError::FromXdrError(text));
            },
        }
        i = i + 1;
    }
    Ok(decoded)
}

} // verus!
