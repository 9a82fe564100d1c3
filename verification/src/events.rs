//! Contract events indexed by Mercury under a topic.

pub mod get_claim;
pub mod get_deploy;

use vstd::prelude::*;
use vstd::string::StringSliceAdditionalSpecFns;
use vstd::utf8::encode_utf8;
use stellar_xdr::curr::ScVal;
use crate::error::MyError;
use crate::xdr::{
    decoded_model, decoded_value, sc_string_to_xdr_base64, sc_string_xdr, sc_val_from_xdr_base64,
    xdr_base64_text, xdr_decode_error, xdr_decodes, ScValue,
};

verus! {

/// The answer to an events query (`eventByTopic { nodes { data } }`).
#[derive(Debug)]
pub struct EventsResponse {
    pub data: Option<EventsData>,
}

#[derive(Debug)]
pub struct EventsData {
    pub event_by_topic: Option<EventsByTopic>,
}

#[derive(Debug)]
pub struct EventsByTopic {
    pub nodes: Option<Vec<Option<EventNode>>>,
}

/// One indexed event; `data` is its value as base64 XDR.
#[derive(Debug)]
pub struct EventNode {
    pub data: Option<String>,
}

/// The event nodes of an answer, or the first missing field on the way.
pub open spec fn event_nodes(body: EventsResponse) -> Result<Seq<Option<EventNode>>, MyError> {
    match body.data {
        None => Err(MyError::EmptyData),
        Some(data) => match data.event_by_topic {
            None => Err(MyError::EmptyEventByTopic),
            Some(by_topic) => match by_topic.nodes {
                None => Err(MyError::EmptyNodes),
                Some(nodes) => Ok(nodes@),
            },
        },
    }
}

/// Whether a node is present and carries data.
pub open spec fn node_has_data(node: Option<EventNode>) -> bool {
    node matches Some(n) && n.data is Some
}

/// The UTF-8 bytes of a node's data.
pub open spec fn node_xdr(node: Option<EventNode>) -> Seq<u8> {
    match node {
        Some(n) => match n.data {
            Some(d) => encode_utf8(d@),
            None => Seq::empty(),
        },
        None => Seq::empty(),
    }
}

/// Whether a node's data decodes as a contract value.
pub open spec fn node_decodes(node: Option<EventNode>) -> bool {
    xdr_decodes(node_xdr(node))
}

/// The contract value decoded from a node's data.
pub open spec fn node_value(node: Option<EventNode>) -> ScVal {
    decoded_value(node_xdr(node))
}

/// The text of the decoder's error for a node's data (meaningful where it
/// does not decode).
pub open spec fn node_decode_error(node: Option<EventNode>) -> Seq<char> {
    xdr_decode_error(node_xdr(node))
}

/// The parts of a node's decoded value that this library reads.
pub open spec fn node_model(node: Option<EventNode>) -> ScValue {
    decoded_model(node_xdr(node))
}

/// Whether walking the nodes in order, decoding each, meets a failing
/// node before any node that is absent or carries no data: every such node
/// comes after a node with data that does not decode.
pub open spec fn reaches_no_missing_node(nodes: Seq<Option<EventNode>>) -> bool {
    forall|k: int|
        0 <= k < nodes.len() && !#[trigger] node_has_data(nodes[k]) ==> exists|j: int|
            0 <= j < k && node_has_data(nodes[j]) && !node_decodes(nodes[j])
}

/// The topic value of the events named `name`: base64 XDR of
/// `ScVal::String(name)`.
pub open spec fn topic_text(name: Seq<char>) -> Seq<char> {
    xdr_base64_text(sc_string_xdr(encode_utf8(name)))
}

/// Computes the topic value (the `t1` variable of the events query) of the
/// events named `name`.
pub fn event_topic(name: &str) -> (t: String)
    requires
        !name@.contains('\\'),
        name.spec_bytes().len() <= u32::MAX,
    ensures
        t@ == topic_text(name@),
{
    sc_string_to_xdr_base64(name).unwrap()
}

/// The data of a node known to carry some.
pub(crate) fn node_data(node: &Option<EventNode>) -> (d: &String)
    requires
        node_has_data(*node),
    ensures
        encode_utf8(d@) == node_xdr(*node),
{
    node.as_ref().unwrap().data.as_ref().unwrap()
}


/// Whether the nodes of an answer meet the precondition of the deploy
/// decoder: walking them in order and decoding each, a failing node comes
/// before any node that is absent or carries no data.
pub fn nodes_reach_no_missing_node(nodes: &Vec<Option<EventNode>>) -> (b: bool)
    ensures
        b == reaches_no_missing_node(nodes@),
{
    let mut i: usize = 0;
    while i < nodes.len()
        invariant
            i <= nodes@.len(),
            forall|j: int| 0 <= j < i ==> #[trigger] node_has_data(nodes@[j]) && node_decodes(nodes@[j]),
        decreases nodes@.len() - i,
    {
        let present = match &nodes[i] {
            Some(node) => node.data.is_some(),
            None => false,
        };
        if !present {
            proof {
                if reaches_no_missing_node(nodes@) {
                    assert(!node_has_data(nodes@[i as int]));
                    let j = choose|j: int| 0 <= j < i && node_has_data(nodes@[j]) && !node_decodes(nodes@[j]);
                    assert(node_has_data(nodes@[j]) && node_decodes(nodes@[j]));
                }
            }
            return false;
        }
        let xdr = node_data(&nodes[i]);
        let bytes = xdr.as_str().as_bytes();
        assert(bytes@ == node_xdr(nodes@[i as int]));
        let decodes = sc_val_from_xdr_base64(bytes).is_ok();
        assert forall|j: int| 0 <= j < i + 1 implies #[trigger] node_has_data(nodes@[j])
            && (decodes ==> node_decodes(nodes@[j])) by {
            if j < i {
                assert(node_has_data(nodes@[j]));
            }
        }
        if !decodes {
            proof {
                assert forall|k: int|
                    0 <= k < nodes@.len() && !#[trigger] node_has_data(nodes@[k]) implies exists|j: int|
                        0 <= j < k && node_has_data(nodes@[j]) && !node_decodes(nodes@[j]) by {
                    if k <= i {
                        if k < i {
                            assert(node_has_data(nodes@[k]) && node_decodes(nodes@[k]));
                        }
                    }
                    assert(0 <= i < k && node_has_data(nodes@[i as int]) && !node_decodes(nodes@[i as int]));
                }
            }
            return true;
        }
        i = i + 1;
    }
    true
}

} // verus!
