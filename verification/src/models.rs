//! The homologation data model: a submitted flow sample, the scored result
//! handed to the reporting side, the in-memory result store, and the
//! simplified risk rules the submission endpoint applies.

use vstd::prelude::*;
use vstd::string::StringSliceAdditionalSpecFns;
use vstd::utf8::encode_utf8;

use crate::scan::{contains_bytes, contains_seq, occurs_at, starts_with_bytes};

verus! {

/// One flow sample submitted for homologation.
#[derive(Debug)]
pub struct HomologationRequest {
    pub packet_data: String,
    pub protocol: String,
    pub source_ip: String,
}

/// The scored outcome of one homologation.
#[derive(Debug)]
pub struct HomologationResult {
    pub id: u64,
    pub request: HomologationRequest,
    pub risk_score: u64,
    pub decision: String,
    pub triggers: Vec<String>,
}

/// The UTF-8 bytes of a string value, as its byte-level rules see it.
pub open spec fn utf8_of(s: Seq<char>) -> Seq<u8> {
    encode_utf8(s)
}

/// The simplified risk score of a request: TCP traffic, a query keyword in
/// the payload, and an internal source prefix each add a fixed weight; the
/// total is capped at one hundred.
pub open spec fn spec_calculate_risk(r: HomologationRequest) -> int {
    let score = (if r.protocol@ == "TCP"@ {
        30int
    } else {
        0int
    }) + (if contains_seq(utf8_of(r.packet_data@), "SELECT".spec_bytes()) {
        40int
    } else {
        0int
    }) + (if occurs_at(utf8_of(r.source_ip@), "10.0.0.".spec_bytes(), 0) {
        20int
    } else {
        0int
    });
    if score <= 100 {
        score
    } else {
        100int
    }
}

/// Score one request against the simplified risk rules.
pub fn calculate_risk(request: &HomologationRequest) -> (r: u64)
    ensures
        r == spec_calculate_risk(*request),
{
    let mut score: u64 = 0;
    if request.protocol.eq(&String::from_str("TCP")) {
        score = score + 30;
    }
    if contains_bytes(request.packet_data.as_str().as_bytes(), "SELECT".as_bytes()) {
        score = score + 40;
    }
    if starts_with_bytes(request.source_ip.as_str().as_bytes(), "10.0.0.".as_bytes()) {
        score = score + 20;
    }
    if score > 100 {
        score = 100;
    }
    score
}

/// Does the request carry an oversized payload?
pub open spec fn spec_large_packet(r: HomologationRequest) -> bool {
    utf8_of(r.packet_data@).len() > 1024
}

/// Does the request carry a sensitive command over the datagram plane?
pub open spec fn spec_sensitive_udp(r: HomologationRequest) -> bool {
    r.protocol@ == "UDP"@ && contains_seq(utf8_of(r.packet_data@), "admin".spec_bytes())
}

/// The trigger names one request raises, in evaluation order.
pub open spec fn spec_trigger_names(r: HomologationRequest) -> Seq<Seq<char>> {
    (if spec_large_packet(r) {
        seq!["Pacote grande"@]
    } else {
        Seq::empty()
    }) + (if spec_sensitive_udp(r) {
        seq!["Comando sensível em UDP"@]
    } else {
        Seq::empty()
    })
}

/// The decision for a given number of raised triggers: none is accepted, up
/// to two go to manual review, more are rejected.
pub open spec fn spec_decision(count: int) -> Seq<char> {
    if count == 0 {
        "Aceitar"@
    } else if count <= 2 {
        "Analisar manualmente"@
    } else {
        "Rejeitar"@
    }
}

/// Evaluate the fixed homologation triggers against one request and decide
/// its handling from how many were raised.
pub fn analyze_triggers(request: &HomologationRequest) -> (r: (String, Vec<String>))
    ensures
        r.1@.map_values(|s: String| s@) == spec_trigger_names(*request),
        r.0@ == spec_decision(spec_trigger_names(*request).len() as int),
{
    let mut triggers: Vec<String> = Vec::new();
    if request.packet_data.as_str().as_bytes().len() > 1024 {
        triggers.push(String::from_str("Pacote grande"));
    }
    if request.protocol.eq(&String::from_str("UDP")) && contains_bytes(
        request.packet_data.as_str().as_bytes(),
        "admin".as_bytes(),
    ) {
        triggers.push(String::from_str("Comando sensível em UDP"));
    }
    proof {
        assert(triggers@.map_values(|s: String| s@) =~= spec_trigger_names(*request));
    }
    let decision = if triggers.len() == 0 {
        String::from_str("Aceitar")
    } else if triggers.len() <= 2 {
        String::from_str("Analisar manualmente")
    } else {
        String::from_str("Rejeitar")
    };
    (decision, triggers)
}

/// Score and decide one submitted request.  The id is a placeholder the
/// result store assigns properly on insertion.
pub fn process_homologation(request: HomologationRequest) -> (r: HomologationResult)
    ensures
        r.id == 1,
        r.request == request,
        r.risk_score == spec_calculate_risk(request),
        r.decision@ == spec_decision(spec_trigger_names(request).len() as int),
        r.triggers@.map_values(|s: String| s@) == spec_trigger_names(request),
{
    let risk_score = calculate_risk(&request);
    let (decision, triggers) = analyze_triggers(&request);
    HomologationResult { id: 1, request, risk_score, decision, triggers }
}

/// The in-memory store of homologation results.
pub struct HomologationData {
    pub results: Vec<HomologationResult>,
    pub next_id: u64,
}

fn clone_result(r: &HomologationResult) -> (c: HomologationResult)
    ensures
        c.id == r.id,
        c.request == r.request,
        c.risk_score == r.risk_score,
        c.decision == r.decision,
        c.triggers@ == r.triggers@,
{
    let n = r.triggers.len();
    let mut triggers: Vec<String> = Vec::new();
    let mut i: usize = 0;
    while i < n
        invariant
            n == r.triggers@.len(),
            i <= n,
            triggers@ =~= r.triggers@.subrange(0, i as int),
        decreases n - i,
    {
        triggers.push(r.triggers[i].clone());
        i += 1;
    }
    proof {
        assert(triggers@ =~= r.triggers@);
    }
    HomologationResult {
        id: r.id,
        request: HomologationRequest {
            packet_data: r.request.packet_data.clone(),
            protocol: r.request.protocol.clone(),
            source_ip: r.request.source_ip.clone(),
        },
        risk_score: r.risk_score,
        decision: r.decision.clone(),
        triggers,
    }
}

impl HomologationData {
    /// An empty store.
    pub fn new() -> (r: HomologationData)
        ensures
            r.results@ == Seq::<HomologationResult>::empty(),
            r.next_id == 1,
    {
        HomologationData { results: Vec::new(), next_id: 1 }
    }

    /// Append one result to the store.
    pub fn add_result(&mut self, result: HomologationResult)
        ensures
            final(self).results@ == old(self).results@.push(result),
            final(self).next_id == old(self).next_id,
    {
        self.results.push(result);
    }

    /// A copy of every stored result, field for field.
    pub fn get_all(&self) -> (r: Vec<HomologationResult>)
        ensures
            r@.len() == self.results@.len(),
            forall|i: int|
                0 <= i < r@.len() ==> {
                    &&& (#[trigger] r@[i]).id == self.results@[i].id
                    &&& r@[i].request == self.results@[i].request
                    &&& r@[i].risk_score == self.results@[i].risk_score
                    &&& r@[i].decision == self.results@[i].decision
                    &&& r@[i].triggers@ == self.results@[i].triggers@
                },
    {
        let n = self.results.len();
        let mut r: Vec<HomologationResult> = Vec::new();
        let mut i: usize = 0;
        while i < n
            invariant
                n == self.results@.len(),
                i <= n,
                r@.len() == i,
                forall|j: int|
                    0 <= j < i ==> {
                        &&& (#[trigger] r@[j]).id == self.results@[j].id
                        &&& r@[j].request == self.results@[j].request
                        &&& r@[j].risk_score == self.results@[j].risk_score
                        &&& r@[j].decision == self.results@[j].decision
                        &&& r@[j].triggers@ == self.results@[j].triggers@
                    },
            decreases n - i,
        {
            r.push(clone_result(&self.results[i]));
            i += 1;
        }
        r
    }
}

} // verus!
