//! The claim events: every `Claim` event's value, decoded, with the Wasm
//! hash of the contract the event names.
//!
//! Looking a hash up is a round trip to the Soroban RPC, so the work is a
//! small state machine: a `ClaimCollector` decodes the next event and asks
//! for a lookup (`ClaimStep::Lookup`), the caller performs it and resumes
//! the `PendingLookup` with the answer, until the collector is `Done`.

use vstd::prelude::*;
use vstd::string::StringSliceAdditionalSpecFns;
use stellar_xdr::curr::ScVal;
use crate::error::MyError;
use crate::events::{
    event_nodes, event_topic, node_data, node_decode_error, node_decodes, node_has_data, node_model, node_value,
    topic_text, EventNode, EventsResponse,
};
use crate::response::is_success_status;
use crate::text::{bytes_to_hex, hex_text};
use vstd::utf8::encode_utf8;
use crate::xdr::{sc_val_from_xdr_base64, sc_val_of_xdr_base64, ScValue};

verus! {

/// The GraphQL query for the events indexed under one topic.
pub struct QueryEvents;

impl QueryEvents {
    /// The topic variable that selects the claim events.
    pub fn topic() -> (t: String)
        ensures
            t@ == topic_text("Claim"@),
    {
        proof {
            reveal_strlit("Claim");
            vstd::string::is_ascii_spec_bytes("Claim");
        }
        event_topic("Claim")
    }
}

/// The claim events, each with the Wasm hash (lower-case hex) of the
/// contract that the event names.
pub struct ClaimDataEvents(pub Vec<(ScVal, String)>);

/// What a contract instance runs.
#[derive(Debug, PartialEq, Eq)]
pub enum ContractExecutableValue {
    Wasm([u8; 32]),
    StellarAsset,
}

/// The value of a contract data entry, as far as the claim logic reads it.
#[derive(Debug, PartialEq, Eq)]
pub enum ContractDataValue {
    Instance(ContractExecutableValue),
    Other,
}

/// The bytes of the symbol `contract_id`.
pub open spec fn contract_id_symbol() -> Seq<u8> {
    seq![99u8, 111u8, 110u8, 116u8, 114u8, 97u8, 99u8, 116u8, 95u8, 105u8, 100u8]
}

/// Whether a map key is the symbol `contract_id`.
pub open spec fn is_contract_id_key(key: ScValue) -> bool {
    key matches ScValue::Symbol(s) && s@ == contract_id_symbol()
}

/// Whether `k` is the first entry whose key is `contract_id`.
pub open spec fn first_contract_id_entry(entries: Seq<(ScValue, ScValue)>, k: int) -> bool {
    &&& 0 <= k < entries.len()
    &&& is_contract_id_key(entries[k].0)
    &&& forall|i: int| 0 <= i < k ==> !is_contract_id_key(#[trigger] entries[i].0)
}

/// Whether a value is not a map, or a map with a `contract_id` entry.
pub open spec fn has_contract_id_entry(v: ScValue) -> bool {
    match v {
        ScValue::Entries(Some(entries)) =>
            exists|i: int| 0 <= i < entries@.len() && is_contract_id_key(#[trigger] entries@[i].0),
        _ => true,
    }
}

/// The contract that a claim event names: the contract address under the
/// first `contract_id` key of the event's map; `None` where there is none.
pub open spec fn claimed_contract(v: ScValue) -> Option<[u8; 32]> {
    match v {
        ScValue::Entries(Some(entries)) => if exists|k: int| first_contract_id_entry(entries@, k) {
            let k = choose|k: int| first_contract_id_entry(entries@, k);
            match entries@[k].1 {
                ScValue::ContractAddress(id) => Some(id),
                _ => None,
            }
        } else {
            None
        },
        _ => None,
    }
}

/// The Wasm hash of a contract data entry, where it is an instance backed
/// by Wasm.
pub open spec fn wasm_hash_of(entry: ContractDataValue) -> Option<[u8; 32]> {
    match entry {
        ContractDataValue::Instance(ContractExecutableValue::Wasm(h)) => Some(h),
        _ => None,
    }
}

proof fn lemma_first_contract_id_entry_unique(entries: Seq<(ScValue, ScValue)>, j: int, k: int)
    requires
        first_contract_id_entry(entries, j),
        first_contract_id_entry(entries, k),
    ensures
        j == k,
{
    if j < k {
        assert(!is_contract_id_key(entries[j].0));
    } else if k < j {
        assert(!is_contract_id_key(entries[k].0));
    }
}

fn symbol_is_contract_id(s: &Vec<u8>) -> (b: bool)
    ensures
        b == (s@ == contract_id_symbol()),
{
    let expected: [u8; 11] = [99, 111, 110, 116, 114, 97, 99, 116, 95, 105, 100];
    assert(expected@ =~= contract_id_symbol());
    if s.len() != 11 {
        return false;
    }
    let mut i: usize = 0;
    while i < 11
        invariant
            s@.len() == 11,
            expected@ == contract_id_symbol(),
            0 <= i <= 11,
            forall|j: int| 0 <= j < i ==> s@[j] == expected@[j],
        decreases 11 - i,
    {
        if s[i] != expected[i] {
            return false;
        }
        i = i + 1;
    }
    assert(s@ =~= contract_id_symbol());
    true
}

fn key_is_contract_id(key: &ScValue) -> (b: bool)
    ensures
        b == is_contract_id_key(*key),
{
    match key {
        ScValue::Symbol(s) => symbol_is_contract_id(s),
        _ => false,
    }
}

/// The index of the first entry whose key is `contract_id`.
fn find_contract_id_entry(entries: &Vec<(ScValue, ScValue)>) -> (r: Option<usize>)
    ensures
        match r {
            Some(k) => first_contract_id_entry(entries@, k as int),
            None => forall|i: int| 0 <= i < entries@.len() ==> !is_contract_id_key(#[trigger] entries@[i].0),
        },
{
    let mut i: usize = 0;
    while i < entries.len()
        invariant
            i <= entries@.len(),
            forall|j: int| 0 <= j < i ==> !is_contract_id_key(#[trigger] entries@[j].0),
        decreases entries@.len() - i,
    {
        if key_is_contract_id(&entries[i].0) {
            return Some(i);
        }
        i = i + 1;
    }
    None
}

/// Whether a decoded event can be searched for its contract: it is not a
/// map, or it is a map with a `contract_id` key.
pub fn contract_id_searchable(sc_val: &ScValue) -> (b: bool)
    ensures
        b == has_contract_id_entry(*sc_val),
{
    match sc_val {
        ScValue::Entries(Some(entries)) => match find_contract_id_entry(entries) {
            Some(k) => true,
            None => false,
        },
        _ => true,
    }
}

/// What extracting the contract id of a decoded claim event gives: the
/// contract it names (`claimed_contract`), or `InvalidClaimEventData`.
pub open spec fn contract_id_outcome(sc_val: ScValue, r: Result<[u8; 32], MyError>) -> bool {
    r == (match claimed_contract(sc_val) {
        Some(id) => Ok::<[u8; 32], MyError>(id),
        None => Err::<[u8; 32], MyError>(MyError::InvalidClaimEventData),
    })
}

/// Whether `key` is the symbol `contract_id`, spelled out byte by byte.
spec fn names_contract_id(key: ScValue) -> bool {
    key matches ScValue::Symbol(name)
        && name@ == seq![99u8, 111u8, 110u8, 116u8, 114u8, 97u8, 99u8, 116u8, 95u8, 105u8, 100u8]
}

/// The contract a map names is read from its first `contract_id` entry,
/// wherever that entry stands.
proof fn lemma_claimed_contract_at(entries: Vec<(ScValue, ScValue)>, k: int)
    requires
        0 <= k < entries@.len(),
        names_contract_id(entries@[k].0),
        forall|i: int| 0 <= i < k ==> !names_contract_id(#[trigger] entries@[i].0),
    ensures
        claimed_contract(ScValue::Entries(Some(entries))) == (match entries@[k].1 {
            ScValue::ContractAddress(id) => Some(id),
            _ => None::<[u8; 32]>,
        }),
{
    assert(contract_id_symbol() =~= seq![99u8, 111u8, 110u8, 116u8, 114u8, 97u8, 99u8, 116u8, 95u8, 105u8, 100u8]);
    assert forall|i: int| 0 <= i < k implies !is_contract_id_key(#[trigger] entries@[i].0) by {
        assert(!names_contract_id(entries@[i].0));
    }
    assert(first_contract_id_entry(entries@, k));
    let c = choose|c: int| first_contract_id_entry(entries@, c);
    lemma_first_contract_id_entry_unique(entries@, c, k);
}

/// A claim event's contract is found under its first `contract_id` key
/// wherever that key stands among the map's entries: the result is that
/// entry's contract address, or `InvalidClaimEventData` where the entry
/// holds anything else; how many entries come before it does not matter.
pub proof fn law_contract_id_found_at_any_position(
    sc_val: ScValue,
    entries: Vec<(ScValue, ScValue)>,
    k: int,
    r: Result<[u8; 32], MyError>,
)
    requires
        sc_val == ScValue::Entries(Some(entries)),
        0 <= k < entries@.len(),
        entries@[k].0 matches ScValue::Symbol(name)
            && name@ == seq![99u8, 111u8, 110u8, 116u8, 114u8, 97u8, 99u8, 116u8, 95u8, 105u8, 100u8],
        forall|i: int| 0 <= i < k ==> !(#[trigger] entries@[i].0 matches ScValue::Symbol(name)
            && name@ == seq![99u8, 111u8, 110u8, 116u8, 114u8, 97u8, 99u8, 116u8, 95u8, 105u8, 100u8]),
        contract_id_outcome(sc_val, r),
    ensures
        match entries@[k].1 {
            ScValue::ContractAddress(id) => r == Ok::<[u8; 32], MyError>(id),
            _ => r == Err::<[u8; 32], MyError>(MyError::InvalidClaimEventData),
        },
{
    lemma_claimed_contract_at(entries, k);
}

/// The contract id that a decoded claim event names.
///
/// The event must be a map holding a `contract_id` key whose value is a
/// contract address; other values are refused. A map without such a key
/// is a broken event that stops the service, hence the precondition.
pub fn extract_contract_id(sc_val: &ScValue) -> (r: Result<[u8; 32], MyError>)
    requires
        has_contract_id_entry(*sc_val),
    ensures
        contract_id_outcome(*sc_val, r),
{
    match sc_val {
        ScValue::Entries(Some(entries)) => match find_contract_id_entry(entries) {
            Some(k) => {
                proof {
                    let c = choose|c: int| first_contract_id_entry(entries@, c);
                    lemma_first_contract_id_entry_unique(entries@, c, k as int);
                }
                match &entries[k].1 {
                    ScValue::ContractAddress(id) => Ok(*id),
                    _ => Err(MyError::InvalidClaimEventData),
                }
            },
            None => {
                proof {
                    let i = choose|i: int| 0 <= i < entries@.len() && is_contract_id_key(#[trigger] entries@[i].0);
                }
                Err(MyError::InvalidClaimEventData)
            },
        },
        _ => Err(MyError::InvalidClaimEventData),
    }
}

/// The Wasm hash of a contract instance, in lower-case hex.
pub fn get_wasm_hash(entry: &ContractDataValue) -> (r: Result<String, MyError>)
    ensures
        match wasm_hash_of(*entry) {
            Some(h) => match r {
                Ok(s) => s@ == hex_text(h@),
                Err(_) => false,
            },
            None => r == Err::<String, MyError>(MyError::HashRetrievalFailed),
        },
{
    match entry {
        ContractDataValue::Instance(ContractExecutableValue::Wasm(h)) => Ok(bytes_to_hex(h)),
        _ => Err(MyError::HashRetrievalFailed),
    }
}


/// The claim events of an answer, and the ones already paired with their
/// Wasm hash.
pub struct ClaimCollector {
    nodes: Vec<Option<EventNode>>,
    collected: Vec<(ScVal, String)>,
}

/// A decoded claim event waiting for the Wasm hash of its contract.
pub struct PendingLookup {
    collector: ClaimCollector,
    decoded: ScVal,
    contract_id: [u8; 32],
}

/// What a collector does next.
pub enum ClaimStep {
    /// Look up the contract data of this contract id, then resume.
    Lookup(PendingLookup),
    /// All events are paired, or one of them failed.
    Done(Result<ClaimDataEvents, MyError>),
}

/// Starts collecting the claim events of Mercury's answer, given its
/// status and, where the status is a success, its body. The run goes on
/// with `ClaimCollector::try_step`.
pub fn get_claim_events(status: u16, body: Option<EventsResponse>) -> (r: Result<ClaimCollector, MyError>)
    requires
        is_success_status(status) ==> body is Some,
    ensures
        if !is_success_status(status) {
            r matches Err(e) && e == MyError::BadResponseStatus
        } else {
            match event_nodes(body.unwrap()) {
                Err(e) => r matches Err(f) && f == e,
                Ok(nodes) => match r {
                    Ok(c) => c.nodes() == nodes && c.collected().len() == 0,
                    Err(_) => false,
                },
            }
        },
{
    if !(200 <= status && status < 300) {
        return Err(MyError::BadResponseStatus);
    }
    let body = body.unwrap();
    let nodes = match body.data {
        None => return Err(MyError::EmptyData),
        Some(data) => match data.event_by_topic {
            None => return Err(MyError::EmptyEventByTopic),
            Some(by_topic) => match by_topic.nodes {
                None => return Err(MyError::EmptyNodes),
                Some(nodes) => nodes,
            },
        },
    };
    Ok(ClaimCollector { nodes, collected: Vec::new() })
}

impl ClaimCollector {
    #[verifier::type_invariant]
    spec fn inv(&self) -> bool {
        &&& self.collected@.len() <= self.nodes@.len()
        &&& forall|j: int| 0 <= j < self.collected@.len() ==> #[trigger] node_has_data(self.nodes@[j])
            && node_decodes(self.nodes@[j]) && self.collected@[j].0 == node_value(self.nodes@[j])
    }

    /// The nodes of the claim events, in Mercury's order.
    pub closed spec fn nodes(&self) -> Seq<Option<EventNode>> {
        self.nodes@
    }

    /// The events already paired with their Wasm hash, in order.
    pub closed spec fn collected(&self) -> Seq<(ScVal, String)> {
        self.collected@
    }

    /// Whether the next step is defined: there is no next event, or it
    /// carries data that either does not decode or, decoded, is not a map
    /// or a map with a `contract_id` key. (Anything else stops the service.)
    pub open spec fn step_defined(&self) -> bool {
        let i = self.collected().len() as int;
        i < self.nodes().len() ==> {
            &&& node_has_data(self.nodes()[i])
            &&& node_decodes(self.nodes()[i]) ==> has_contract_id_entry(node_model(self.nodes()[i]))
        }
    }

    /// What a step gives: all the pairs once every event is paired;
    /// `FromXdrError`, with the decoder's error text, where the next event
    /// does not decode;
    /// `InvalidClaimEventData` where it names no contract; otherwise a
    /// lookup of the contract it names, carrying its decoded value.
    pub open spec fn step_outcome(&self, r: ClaimStep) -> bool {
        let i = self.collected().len() as int;
        let nodes = self.nodes();
        if i >= nodes.len() {
            match r {
                ClaimStep::Done(Ok(events)) => events.0@ == self.collected() && forall|j: int|
                    0 <= j < nodes.len() ==> #[trigger] events.0@[j].0 == node_value(nodes[j]),
                _ => false,
            }
        } else if !node_decodes(nodes[i]) {
            r matches ClaimStep::Done(Err(MyError::FromXdrError(text)))
                && text@ == node_decode_error(nodes[i])
        } else {
            match claimed_contract(node_model(nodes[i])) {
                None => match r {
                    ClaimStep::Done(Err(e)) => e == MyError::InvalidClaimEventData,
                    _ => false,
                },
                Some(id) => match r {
                    ClaimStep::Lookup(p) => p.spec_contract_id() == id && p.collector() == *self
                        && p.decoded() == node_value(nodes[i]),
                    _ => false,
                },
            }
        }
    }

    /// Whether the next step is defined (see `step_defined`).
    pub fn next_step_defined(&self) -> (b: bool)
        ensures
            b == self.step_defined(),
    {
        let i = self.collected.len();
        if i >= self.nodes.len() {
            return true;
        }
        let present = match &self.nodes[i] {
            Some(node) => node.data.is_some(),
            None => false,
        };
        if !present {
            return false;
        }
        let xdr = node_data(&self.nodes[i]);
        match sc_val_from_xdr_base64(xdr.as_str().as_bytes()) {
            Ok((_, model)) => contract_id_searchable(&model),
            Err(_) => true,
        }
    }

    /// Decodes the next event and asks for its contract's data, or ends.
    pub fn step(self) -> (r: ClaimStep)
        requires
            self.step_defined(),
        ensures
            self.step_outcome(r),
    {
        proof {
            use_type_invariant(&self);
        }
        let i = self.collected.len();
        if i == self.nodes.len() {
            assert forall|j: int| 0 <= j < self.nodes@.len() implies #[trigger] self.collected@[j].0
                == node_value(self.nodes@[j]) by {
                assert(node_has_data(self.nodes@[j]));
            }
            return ClaimStep::Done(Ok(ClaimDataEvents(self.collected)));
        }
        let xdr = node_data(&self.nodes[i]);
        match sc_val_from_xdr_base64(xdr.as_str().as_bytes()) {
            Err(text) => ClaimStep::Done(Err(MyError::FromXdrError(text))),
            Ok((value, model)) => match extract_contract_id(&model) {
                Ok(contract_id) => ClaimStep::Lookup(
                    PendingLookup { collector: self, decoded: value, contract_id },
                ),
                Err(e) => ClaimStep::Done(Err(e)),
            },
        }
    }

    /// The next step, where it is defined; `None` where the next event
    /// would stop the service (see `step_defined`).
    pub fn try_step(self) -> (r: Option<ClaimStep>)
        ensures
            match r {
                None => !self.step_defined(),
                Some(s) => self.step_defined() && self.step_outcome(s),
            },
    {
        if self.next_step_defined() {
            Some(self.step())
        } else {
            None
        }
    }
}

/// A collector's step on an event whose base64 XDR decodes to a map asks
/// to look up the contract under the map's first `contract_id` key,
/// wherever that key stands, and carries the decoded event.
pub proof fn law_claim_step_looks_up_named_contract(
    c: ClaimCollector,
    r: ClaimStep,
    text: String,
    v: ScVal,
    entries: Vec<(ScValue, ScValue)>,
    k: int,
    id: [u8; 32],
)
    requires
        c.collected().len() < c.nodes().len(),
        c.nodes()[c.collected().len() as int] matches Some(node) && node.data == Some(text),
        sc_val_of_xdr_base64(encode_utf8(text@))
            == Ok::<(ScVal, ScValue), Seq<char>>((v, ScValue::Entries(Some(entries)))),
        0 <= k < entries@.len(),
        entries@[k].0 matches ScValue::Symbol(name)
            && name@ == seq![99u8, 111u8, 110u8, 116u8, 114u8, 97u8, 99u8, 116u8, 95u8, 105u8, 100u8],
        forall|i: int| 0 <= i < k ==> !(#[trigger] entries@[i].0 matches ScValue::Symbol(name)
            && name@ == seq![99u8, 111u8, 110u8, 116u8, 114u8, 97u8, 99u8, 116u8, 95u8, 105u8, 100u8]),
        entries@[k].1 == ScValue::ContractAddress(id),
        c.step_outcome(r),
    ensures
        r matches ClaimStep::Lookup(p) && p.spec_contract_id() == id && p.decoded() == v,
{
    lemma_claimed_contract_at(entries, k);
}

impl PendingLookup {
    #[verifier::type_invariant]
    spec fn inv(&self) -> bool {
        let i = self.collector.collected@.len() as int;
        let node = self.collector.nodes@[i];
        &&& i < self.collector.nodes@.len()
        &&& node_has_data(node)
        &&& node_decodes(node)
        &&& self.decoded == node_value(node)
    }

    /// The collector this lookup belongs to.
    pub closed spec fn collector(&self) -> ClaimCollector {
        self.collector
    }

    /// The decoded event waiting for its hash.
    pub closed spec fn decoded(&self) -> ScVal {
        self.decoded
    }

    pub closed spec fn spec_contract_id(&self) -> [u8; 32] {
        self.contract_id
    }

    /// The id of the contract whose data is to be looked up.
    pub fn contract_id(&self) -> (id: [u8; 32])
        ensures
            id == self.spec_contract_id(),
    {
        self.contract_id
    }

    /// Resumes with the contract data that the lookup returned (or its
    /// failure): pairs the event with the contract's Wasm hash.
    pub fn resume(self, entry: Result<ContractDataValue, MyError>) -> (r: Result<ClaimCollector, MyError>)
        ensures
            match entry {
                Err(e) => match r {
                    Err(f) => f == e,
                    Ok(_) => false,
                },
                Ok(v) => match wasm_hash_of(v) {
                    None => match r {
                        Err(f) => f == MyError::HashRetrievalFailed,
                        Ok(_) => false,
                    },
                    Some(h) => match r {
                        Ok(c) => {
                            let before = self.collector().collected();
                            &&& c.nodes() == self.collector().nodes()
                            &&& c.collected().len() == before.len() + 1
                            &&& c.collected().take(before.len() as int) == before
                            &&& c.collected()[before.len() as int].0 == self.decoded()
                            &&& c.collected()[before.len() as int].1@ == hex_text(h@)
                        },
                        Err(_) => false,
                    },
                },
            },
    {
        proof {
            use_type_invariant(&self);
            use_type_invariant(&self.collector);
        }
        let PendingLookup { collector, decoded, contract_id } = self;
        let entry = match entry {
            Ok(v) => v,
            Err(e) => return Err(e),
        };
        let hash = match get_wasm_hash(&entry) {
            Ok(h) => h,
            Err(e) => return Err(e),
        };
        let ClaimCollector { nodes, mut collected } = collector;
        let ghost before = collected@;
        collected.push((decoded, hash));
        let c = ClaimCollector { nodes, collected };
        assert(c.collected().take(before.len() as int) =~= before);
        Ok(c)
    }
}

} // verus!
