//! The publish events: every indexed event's value, decoded.

use vstd::prelude::*;
use vstd::string::StringSliceAdditionalSpecFns;
use vstd::utf8::encode_utf8;
use stellar_xdr::curr::ScVal;
use crate::error::MyError;
use crate::events::EventNode;
use crate::response::is_success_status;
use crate::xdr::{
    decoded_value, sc_val_from_xdr_base64, sc_val_of_xdr_base64, xdr_decode_error, xdr_decodes, ScValue,
};

verus! {

/// The GraphQL query for the publish events.
pub struct PublishEvents;

/// The answer to the publish events query
/// (`eventByTopic { edges { node { data } } }`).
#[derive(Debug)]
pub struct PublishResponse {
    pub data: Option<PublishData>,
}

#[derive(Debug)]
pub struct PublishData {
    pub event_by_topic: Option<PublishEdges>,
}

#[derive(Debug)]
pub struct PublishEdges {
    pub edges: Option<Vec<Option<PublishEdge>>>,
}

#[derive(Debug)]
pub struct PublishEdge {
    pub node: Option<EventNode>,
}

/// The decoded values of the publish events, in the order Mercury lists them.
pub struct PublishDataEvents(pub Vec<ScVal>);

/// The edges of an answer, or the first missing field on the way.
pub open spec fn publish_edges(body: PublishResponse) -> Result<Seq<Option<PublishEdge>>, MyError> {
    match body.data {
        None => Err(MyError::EmptyResponseData),
        Some(data) => match data.event_by_topic {
            None => Err(MyError::EmptyEventByTopic),
            Some(by_topic) => match by_topic.edges {
                None => Err(MyError::EmptyEdges),
                Some(edges) => Ok(edges@),
            },
        },
    }
}

/// The UTF-8 bytes of an edge's data, where it has some.
pub open spec fn edge_data(edge: Option<PublishEdge>) -> Option<Seq<u8>> {
    match edge {
        Some(e) => match e.node {
            Some(n) => match n.data {
                Some(d) => Some(encode_utf8(d@)),
                None => None,
            },
            None => None,
        },
        None => None,
    }
}

/// Whether an edge holds a node with data that decodes.
pub open spec fn edge_decodes(edge: Option<PublishEdge>) -> bool {
    match edge_data(edge) {
        Some(text) => xdr_decodes(text),
        None => false,
    }
}

/// The contract value decoded from an edge's data.
pub open spec fn edge_value(edge: Option<PublishEdge>) -> ScVal {
    match edge_data(edge) {
        Some(text) => decoded_value(text),
        None => arbitrary(),
    }
}

/// Whether `err` is the error an edge that does not decode is refused with.
pub open spec fn edge_error(edge: Option<PublishEdge>, err: MyError) -> bool {
    match edge {
        None => err == MyError::EmptyEventEdge,
        Some(e) => match e.node {
            None => err == MyError::EmptyEventNode,
            Some(n) => match n.data {
                None => err == MyError::EmptyEventXdrData,
                Some(d) => !xdr_decodes(encode_utf8(d@)) && match err {
                    MyError::FromXdrError(text) => text@ == xdr_decode_error(encode_utf8(d@)),
                    _ => false,
                },
            },
        },
    }
}

/// Whether the edges before `k` all decode and the one at `k` is refused
/// with `err`.
pub open spec fn first_refused_edge(edges: Seq<Option<PublishEdge>>, k: int, err: MyError) -> bool {
    &&& 0 <= k < edges.len()
    &&& forall|i: int| 0 <= i < k ==> #[trigger] edge_decodes(edges[i])
    &&& !edge_decodes(edges[k])
    &&& edge_error(edges[k], err)
}

/// What decoding a list of edges gives: the decoded value of every edge,
/// in order; or the error of the first edge that does not decode.
pub open spec fn edges_outcome(edges: Seq<Option<PublishEdge>>, r: Result<Vec<ScVal>, MyError>) -> bool {
    match r {
        Ok(decoded) => decoded@.len() == edges.len() && forall|i: int|
            0 <= i < edges.len() ==> #[trigger] edge_decodes(edges[i]) && decoded@[i] == edge_value(edges[i]),
        Err(err) => exists|k: int| first_refused_edge(edges, k, err),
    }
}

/// What the publish events of an answer are: `BadResponseStatus` for a
/// status that is not a success; the first missing field; else the outcome
/// of decoding the edges (`edges_outcome`).
pub open spec fn publish_outcome(status: u16, body: Option<PublishResponse>, r: Result<PublishDataEvents, MyError>) -> bool {
    if !is_success_status(status) {
        r matches Err(e) && e == MyError::BadResponseStatus
    } else {
        match publish_edges(body.unwrap()) {
            Err(e) => r matches Err(f) && f == e,
            Ok(edges) => match r {
                Ok(events) => edges_outcome(edges, Ok(events.0)),
                Err(err) => edges_outcome(edges, Err(err)),
            },
        }
    }
}

/// The publish events keep every event, in order: for a success answer
/// whose edges all hold a node with base64 XDR that decodes, the result
/// holds exactly one value per edge, the i-th being what the i-th edge's
/// text decodes to, whatever the number of edges.
pub proof fn law_publish_events_keep_every_edge(
    status: u16,
    body: PublishResponse,
    edges: Vec<Option<PublishEdge>>,
    r: Result<PublishDataEvents, MyError>,
)
    requires
        200 <= status < 300,
        body.data matches Some(data) && data.event_by_topic matches Some(by_topic)
            && by_topic.edges == Some(edges),
        forall|i: int| #![trigger edges@[i]] 0 <= i < edges@.len() ==> (edges@[i] matches Some(e)
            && e.node matches Some(n) && n.data matches Some(text)
            && sc_val_of_xdr_base64(encode_utf8(text@)) is Ok),
        publish_outcome(status, Some(body), r),
    ensures
        r matches Ok(events) && events.0@.len() == edges@.len() && forall|i: int|
            #![trigger events.0@[i]] 0 <= i < edges@.len() ==> (edges@[i] matches Some(e)
                && e.node matches Some(n) && n.data matches Some(text)
                && sc_val_of_xdr_base64(encode_utf8(text@)) matches Ok((v, _))
                && events.0@[i] == v),
{
    assert(publish_edges(body) == Ok::<Seq<Option<PublishEdge>>, MyError>(edges@));
    assert forall|i: int| 0 <= i < edges@.len() implies #[trigger] edge_decodes(edges@[i]) by {
        assert(edges@[i] matches Some(e) && e.node matches Some(n) && n.data matches Some(text)
            && sc_val_of_xdr_base64(encode_utf8(text@)) is Ok);
    }
    match r {
        Ok(events) => {
            assert forall|i: int| 0 <= i < edges@.len() implies (edges@[i] matches Some(e)
                && e.node matches Some(n) && n.data matches Some(text)
                && sc_val_of_xdr_base64(encode_utf8(text@)) matches Ok((v, _))
                && #[trigger] events.0@[i] == v) by {
                assert(edge_decodes(edges@[i]));
            }
        },
        Err(err) => {
            let k = choose|k: int| first_refused_edge(edges@, k, err);
            assert(edge_decodes(edges@[k]));
        },
    }
}

/// Decodes the publish events of Mercury's answer, given its status and,
/// where the status is a success, its body: `BadResponseStatus` for a
/// status that is not a success; the first missing field; else the decoded
/// value of every edge, in order, or the error of the first edge that
/// does not decode.
pub fn get_publish_events(status: u16, body: Option<PublishResponse>) -> (r: Result<PublishDataEvents, MyError>)
    requires
        is_success_status(status) ==> body is Some,
    ensures
        publish_outcome(status, body, r),
{
    if !(200 <= status && status < 300) {
        return Err(MyError::BadResponseStatus);
    }
    let body = body.unwrap();
    let edges = match body.data {
        None => return Err(MyError::EmptyResponseData),
        Some(data) => match data.event_by_topic {
            None => return Err(MyError::EmptyEventByTopic),
            Some(by_topic) => match by_topic.edges {
                None => return Err(MyError::EmptyEdges),
                Some(edges) => edges,
            },
        },
    };
    match decode_edges(&edges) {
        Ok(decoded) => Ok(PublishDataEvents(decoded)),
        Err(e) => Err(e),
    }
}

fn decode_edges(edges: &Vec<Option<PublishEdge>>) -> (r: Result<Vec<ScVal>, MyError>)
    ensures
        edges_outcome(edges@, r),
{
    let mut decoded: Vec<ScVal> = Vec::new();
    let mut i: usize = 0;
    while i < edges.len()
        invariant
            i <= edges@.len(),
            decoded@.len() == i,
            forall|j: int| 0 <= j < i ==> #[trigger] edge_decodes(edges@[j]) && decoded@[j] == edge_value(edges@[j]),
        decreases edges@.len() - i,
    {
        let err = match &edges[i] {
            None => MyError::EmptyEventEdge,
            Some(edge) => match &edge.node {
                None => MyError::EmptyEventNode,
                Some(node) => match &node.data {
                    None => MyError::EmptyEventXdrData,
                    Some(xdr) => match sc_val_from_xdr_base64(xdr.as_str().as_bytes()) {
                        Ok((value, _)) => {
                            decoded.push(value);
                            i = i + 1;
                            continue;
                        },
                        Err(text) => MyError::FromXdrError(text),
                    },
                },
            },
        };
        assert(first_refused_edge(edges@, i as int, err));
        return Err(err);
    }
    Ok(decoded)
}

} // verus!
