//! Trigger rules and the scoring engine.
//!
//! A [`Trigger`] is one named detection rule: a protocol filter, a total
//! predicate over a flow's metadata and payload, and the risk weight it
//! contributes.  [`TrafficAnalyzer::evaluate`] scores a flow against every
//! trigger in load order and returns an [`AnalysisResult`]: the sum of the
//! matched weights and the matched trigger names, in evaluation order.

use vstd::prelude::*;

use crate::net::{FlowMetadata, Protocol};
use crate::policy::ConfigError;
use crate::scan::{contains_bytes, contains_seq};

verus! {

/// Which protocol plane a trigger applies to.
#[derive(Clone, Copy, Debug, PartialEq, Eq, Structural)]
pub enum ProtocolFilter {
    Any,
    Only(Protocol),
}

/// The closed set of predicate kinds a trigger can test.
#[derive(Debug)]
pub enum TriggerPredicate {
    /// The flow's protocol equals the given one.
    ProtocolEquals(Protocol),
    /// The payload contains the given byte pattern.
    PayloadContains(Vec<u8>),
    /// The destination port lies in the inclusive range.
    PortInRange(u16, u16),
    /// The payload is strictly longer than the given size.
    PayloadLengthOver(usize),
}

/// One named detection rule with the risk weight it contributes.
#[derive(Debug)]
pub struct Trigger {
    pub name: String,
    pub filter: ProtocolFilter,
    pub predicate: TriggerPredicate,
    pub weight: u64,
}

/// The outcome of scoring one flow.
#[derive(Debug)]
pub struct AnalysisResult {
    /// Sum of the weights of all matched triggers.
    pub risk_level: u64,
    /// Names of the matched triggers, in evaluation order.
    pub triggers: Vec<String>,
}

impl Default for AnalysisResult {
    /// An empty result: no risk, no matched triggers.
    fn default() -> (r: AnalysisResult)
        ensures
            r.risk_level == 0,
            r.triggers@ == Seq::<String>::empty(),
    {
        AnalysisResult { risk_level: 0, triggers: Vec::new() }
    }
}

/// Does the protocol filter accept the given protocol?
pub open spec fn filter_accepts(f: ProtocolFilter, p: Protocol) -> bool {
    match f {
        ProtocolFilter::Any => true,
        ProtocolFilter::Only(q) => q == p,
    }
}

/// Does the predicate hold of the flow's metadata and payload?
pub open spec fn predicate_holds(
    pred: TriggerPredicate,
    meta: FlowMetadata,
    payload: Seq<u8>,
) -> bool {
    match pred {
        TriggerPredicate::ProtocolEquals(p) => meta.protocol == p,
        TriggerPredicate::PayloadContains(n) => contains_seq(payload, n@),
        TriggerPredicate::PortInRange(lo, hi) => lo <= meta.dst.port && meta.dst.port <= hi,
        TriggerPredicate::PayloadLengthOver(k) => payload.len() > k,
    }
}

/// A trigger matches a flow when its filter accepts the protocol and its
/// predicate holds.
pub open spec fn trigger_matches(t: Trigger, meta: FlowMetadata, payload: Seq<u8>) -> bool {
    filter_accepts(t.filter, meta.protocol) && predicate_holds(t.predicate, meta, payload)
}

/// The sum of the weights of all triggers in the sequence.
pub open spec fn sum_weights(ts: Seq<Trigger>) -> int
    decreases ts.len(),
{
    if ts.len() == 0 {
        0
    } else {
        sum_weights(ts.drop_last()) + ts.last().weight
    }
}

/// The risk a flow scores against the sequence: the sum of the weights of
/// the triggers that match it.
pub open spec fn risk_of(ts: Seq<Trigger>, meta: FlowMetadata, payload: Seq<u8>) -> int
    decreases ts.len(),
{
    if ts.len() == 0 {
        0
    } else {
        risk_of(ts.drop_last(), meta, payload) + if trigger_matches(ts.last(), meta, payload) {
            ts.last().weight as int
        } else {
            0
        }
    }
}

/// The names of the triggers that match the flow, in sequence order.
pub open spec fn matched_names(ts: Seq<Trigger>, meta: FlowMetadata, payload: Seq<u8>) -> Seq<
    String,
>
    decreases ts.len(),
{
    if ts.len() == 0 {
        Seq::empty()
    } else {
        matched_names(ts.drop_last(), meta, payload) + if trigger_matches(
            ts.last(),
            meta,
            payload,
        ) {
            seq![ts.last().name]
        } else {
            Seq::empty()
        }
    }
}

/// The risk never exceeds the total weight, and neither is negative.
pub proof fn lemma_risk_bounds(ts: Seq<Trigger>, meta: FlowMetadata, payload: Seq<u8>)
    ensures
        0 <= risk_of(ts, meta, payload) <= sum_weights(ts),
    decreases ts.len(),
{
    if ts.len() > 0 {
        lemma_risk_bounds(ts.drop_last(), meta, payload);
    }
}

/// Total weight only grows along a prefix of the trigger list.
proof fn lemma_sum_weights_take(ts: Seq<Trigger>, i: int)
    requires
        0 <= i <= ts.len(),
    ensures
        sum_weights(ts.take(i)) <= sum_weights(ts),
    decreases ts.len() - i,
{
    if i == ts.len() {
        assert(ts.take(i) =~= ts);
    } else {
        lemma_sum_weights_take(ts, i + 1);
        assert(ts.take(i + 1).drop_last() =~= ts.take(i));
        assert(sum_weights(ts.take(i)) <= sum_weights(ts.take(i + 1)));
    }
}

/// The scoring law: a flow's risk is exactly the sum of the weights of the
/// matched subset of the trigger list, and the matched names are exactly the
/// names of that subset in load order.  Unmatched triggers — however many,
/// wherever they stand — contribute nothing.
pub proof fn lemma_risk_is_sum_of_matched(ts: Seq<Trigger>, meta: FlowMetadata, payload: Seq<u8>)
    ensures
        risk_of(ts, meta, payload) == sum_weights(
            ts.filter(|t: Trigger| trigger_matches(t, meta, payload)),
        ),
        matched_names(ts, meta, payload) == ts.filter(
            |t: Trigger| trigger_matches(t, meta, payload),
        ).map_values(|t: Trigger| t.name),
    decreases ts.len(),
{
    reveal(Seq::filter);
    let pred = |t: Trigger| trigger_matches(t, meta, payload);
    if ts.len() == 0 {
        assert(ts.filter(pred).map_values(|t: Trigger| t.name) =~= Seq::<String>::empty());
    } else {
        lemma_risk_is_sum_of_matched(ts.drop_last(), meta, payload);
        let sub = ts.drop_last().filter(pred);
        if pred(ts.last()) {
            assert(ts.filter(pred) == sub.push(ts.last()));
            assert(sub.push(ts.last()).drop_last() =~= sub);
            assert(sub.push(ts.last()).map_values(|t: Trigger| t.name) =~= sub.map_values(
                |t: Trigger| t.name,
            ).push(ts.last().name));
            assert(matched_names(ts, meta, payload) =~= matched_names(
                ts.drop_last(),
                meta,
                payload,
            ).push(ts.last().name));
        } else {
            assert(matched_names(ts, meta, payload) =~= matched_names(
                ts.drop_last(),
                meta,
                payload,
            ));
        }
    }
}

impl Trigger {
    /// Does this trigger match the given flow?
    pub fn matches(&self, meta: &FlowMetadata, payload: &[u8]) -> (r: bool)
        ensures
            r == trigger_matches(*self, *meta, payload@),
    {
        let filter_ok = match self.filter {
            ProtocolFilter::Any => true,
            ProtocolFilter::Only(q) => q == meta.protocol,
        };
        if !filter_ok {
            return false;
        }
        match &self.predicate {
            TriggerPredicate::ProtocolEquals(p) => *p == meta.protocol,
            TriggerPredicate::PayloadContains(n) => contains_bytes(payload, n.as_slice()),
            TriggerPredicate::PortInRange(lo, hi) => *lo <= meta.dst.port && meta.dst.port <= *hi,
            TriggerPredicate::PayloadLengthOver(k) => payload.len() > *k,
        }
    }
}

/// The scoring engine: an ordered list of triggers, evaluated in load order.
pub struct TrafficAnalyzer {
    pub triggers: Vec<Trigger>,
}

impl TrafficAnalyzer {
    /// The trigger weights sum within machine range, so scoring any flow
    /// cannot overflow.
    pub open spec fn wf(&self) -> bool {
        sum_weights(self.triggers@) <= u64::MAX
    }

    /// An analyzer with no triggers loaded; every flow scores zero.
    pub fn new() -> (r: TrafficAnalyzer)
        ensures
            r.triggers@ == Seq::<Trigger>::empty(),
            r.wf(),
    {
        TrafficAnalyzer { triggers: Vec::new() }
    }

    /// An analyzer over the given trigger list; rejected when the summed
    /// weights do not fit in a machine word.
    pub fn from_triggers(triggers: Vec<Trigger>) -> (r: Result<TrafficAnalyzer, ConfigError>)
        ensures
            match r {
                Ok(a) => a.triggers@ == triggers@ && a.wf(),
                Err(e) => e == ConfigError::WeightOverflow && sum_weights(triggers@) > u64::MAX,
            },
    {
        let n = triggers.len();
        let mut total: u64 = 0;
        let mut i: usize = 0;
        while i < n
            invariant
                n == triggers@.len(),
                i <= n,
                total == sum_weights(triggers@.take(i as int)),
            decreases n - i,
        {
            proof {
                assert(triggers@.take(i + 1).drop_last() =~= triggers@.take(i as int));
            }
            total = match total.checked_add(triggers[i].weight) {
                Some(t) => t,
                None => {
                    proof {
                        lemma_sum_weights_take(triggers@, i + 1);
                    }
                    return Err(ConfigError::WeightOverflow);
                },
            };
            i += 1;
        }
        proof {
            assert(triggers@.take(n as int) =~= triggers@);
        }
        Ok(TrafficAnalyzer { triggers })
    }

    /// Score one flow: every trigger is evaluated, in load order; the risk
    /// level is the sum of all matched weights and the matched names keep
    /// evaluation order.  A flow matching nothing scores zero with an empty
    /// name list.
    pub fn evaluate(&self, meta: &FlowMetadata, payload: &[u8]) -> (r: AnalysisResult)
        requires
            self.wf(),
        ensures
            r.risk_level == risk_of(self.triggers@, *meta, payload@),
            r.triggers@ == matched_names(self.triggers@, *meta, payload@),
    {
        let n = self.triggers.len();
        let mut risk: u64 = 0;
        let mut names: Vec<String> = Vec::new();
        let mut i: usize = 0;
        while i < n
            invariant
                self.wf(),
                n == self.triggers@.len(),
                i <= n,
                risk == risk_of(self.triggers@.take(i as int), *meta, payload@),
                names@ == matched_names(self.triggers@.take(i as int), *meta, payload@),
            decreases n - i,
        {
            proof {
                assert(self.triggers@.take(i + 1).drop_last() =~= self.triggers@.take(i as int));
                assert(self.triggers@.take(i + 1).last() == self.triggers@[i as int]);
                lemma_sum_weights_take(self.triggers@, i + 1);
                lemma_risk_bounds(self.triggers@.take(i + 1), *meta, payload@);
            }
            let t = &self.triggers[i];
            if t.matches(meta, payload) {
                risk = risk + t.weight;
                names.push(t.name.clone());
            }
            i += 1;
        }
        proof {
            assert(self.triggers@.take(n as int) =~= self.triggers@);
        }
        AnalysisResult { risk_level: risk, triggers: names }
    }

    /// Score a TCP flow.  The caller hands the fields read from the packet —
    /// endpoints and payload — as plain values.
    pub fn analyze_tcp(&self, meta: &FlowMetadata, payload: &[u8]) -> (r: AnalysisResult)
        requires
            self.wf(),
            meta.protocol is Tcp,
        ensures
            r.risk_level == risk_of(self.triggers@, *meta, payload@),
            r.triggers@ == matched_names(self.triggers@, *meta, payload@),
    {
        self.evaluate(meta, payload)
    }

    /// The analyzer's own redirect threshold for a scored flow, inclusive.
    pub fn should_redirect(&self, result: &AnalysisResult) -> (r: bool)
        ensures
            r == (result.risk_level >= self.threshold_value()),
    {
        result.risk_level >= self.threshold()
    }

    /// The redirect threshold the analyzer applies.
    pub open spec fn threshold_value(&self) -> u64 {
        75
    }

    fn threshold(&self) -> (r: u64)
        ensures
            r == self.threshold_value(),
    {
        75
    }
}

} // verus!
