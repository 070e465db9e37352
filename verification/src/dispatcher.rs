//! The dispatcher's per-flow logic: scoring plus policy in one step, the
//! request processors of the two protocol planes, per-connection session
//! state, and the gateway's owned statistics.
//!
//! The accept and receive loops themselves are I/O and live outside the
//! library; they hand each read chunk or datagram in as plain bytes and
//! carry the returned response and decision back to the sockets.

use vstd::prelude::*;

use crate::analyzer::{matched_names, risk_of, AnalysisResult, TrafficAnalyzer};
use crate::net::FlowMetadata;
use crate::policy::{Decision, PolicyError, PolicyStore};
use crate::scan::eq_bytes;
use crate::tunnel::sat_add;

verus! {

/// An ASCII whitespace byte, as trimmed from a command line.
pub open spec fn is_ws(b: u8) -> bool {
    b == 32 || b == 9 || b == 10 || b == 13
}

/// The bytes left after dropping leading whitespace.
pub open spec fn trim_front(s: Seq<u8>) -> Seq<u8>
    decreases s.len(),
{
    if s.len() > 0 && is_ws(s[0]) {
        trim_front(s.drop_first())
    } else {
        s
    }
}

/// The bytes left after dropping trailing whitespace.
pub open spec fn trim_back(s: Seq<u8>) -> Seq<u8>
    decreases s.len(),
{
    if s.len() > 0 && is_ws(s.last()) {
        trim_back(s.drop_last())
    } else {
        s
    }
}

/// The bytes left after dropping whitespace from both ends.
pub open spec fn spec_trim(s: Seq<u8>) -> Seq<u8> {
    trim_back(trim_front(s))
}

/// Drop ASCII whitespace from both ends of a request line.
pub fn trim_bytes(data: &[u8]) -> (t: Vec<u8>)
    ensures
        t@ == spec_trim(data@),
{
    let len = data.len();
    proof {
        assert(data@.skip(0) =~= data@);
    }
    let mut start: usize = 0;
    while start < len && (data[start] == 32 || data[start] == 9 || data[start] == 10
        || data[start] == 13)
        invariant
            len == data@.len(),
            start <= len,
            trim_front(data@) == trim_front(data@.skip(start as int)),
        decreases len - start,
    {
        proof {
            assert(data@.skip(start as int).drop_first() =~= data@.skip(start + 1));
        }
        start += 1;
    }
    proof {
        assert(trim_front(data@) == data@.skip(start as int));
    }
    let mut end: usize = len;
    while end > start && (data[end - 1] == 32 || data[end - 1] == 9 || data[end - 1] == 10 || data[
        end - 1] == 13)
        invariant
            len == data@.len(),
            start <= end <= len,
            trim_front(data@) == data@.skip(start as int),
            trim_back(data@.skip(start as int)) == trim_back(
                data@.subrange(start as int, end as int),
            ),
        decreases end,
    {
        proof {
            assert(data@.subrange(start as int, end as int).drop_last() =~= data@.subrange(
                start as int,
                end - 1,
            ));
        }
        end -= 1;
    }
    proof {
        assert(data@.skip(start as int) =~= data@.subrange(start as int, len as int));
        assert(trim_back(data@.subrange(start as int, end as int)) == data@.subrange(
            start as int,
            end as int,
        ));
    }
    let mut t: Vec<u8> = Vec::new();
    let mut i: usize = start;
    while i < end
        invariant
            start <= i <= end <= len,
            len == data@.len(),
            t@ =~= data@.subrange(start as int, i as int),
        decreases end - i,
    {
        t.push(data[i]);
        i += 1;
    }
    proof {
        assert(t@ =~= data@.subrange(start as int, end as int));
    }
    t
}

/// The bytes of the `PING` command.
pub open spec fn ping_request() -> Seq<u8> {
    seq![80u8, 73u8, 78u8, 71u8]
}

/// The bytes of the `TIME` command.
pub open spec fn time_request() -> Seq<u8> {
    seq![84u8, 73u8, 77u8, 69u8]
}

/// The bytes of the `STATS` command.
pub open spec fn stats_request() -> Seq<u8> {
    seq![83u8, 84u8, 65u8, 84u8, 83u8]
}

/// The reply to `PING` on the stream plane: `PONG` and a newline.
pub open spec fn pong_response() -> Seq<u8> {
    seq![80u8, 79u8, 78u8, 71u8, 10u8]
}

/// The reply to `STATS`: the UTF-8 bytes of `Servidor em operação` and a
/// newline.
pub open spec fn stats_response() -> Seq<u8> {
    seq![
        83u8,
        101u8,
        114u8,
        118u8,
        105u8,
        100u8,
        111u8,
        114u8,
        32u8,
        101u8,
        109u8,
        32u8,
        111u8,
        112u8,
        101u8,
        114u8,
        97u8,
        195u8,
        167u8,
        195u8,
        163u8,
        111u8,
        10u8,
    ]
}

/// The prefix of the unknown-command reply — the UTF-8 bytes of
/// `Comando não reconhecido: ` — up to the opening quote.
pub open spec fn unknown_prefix() -> Seq<u8> {
    seq![
        67u8,
        111u8,
        109u8,
        97u8,
        110u8,
        100u8,
        111u8,
        32u8,
        110u8,
        195u8,
        163u8,
        111u8,
        32u8,
        114u8,
        101u8,
        99u8,
        111u8,
        110u8,
        104u8,
        101u8,
        99u8,
        105u8,
        100u8,
        111u8,
        58u8,
        32u8,
        39u8,
    ]
}

/// The unknown-command reply: the prefix, the trimmed request quoted, a
/// closing quote and a newline.
pub open spec fn unknown_response(trimmed: Seq<u8>) -> Seq<u8> {
    unknown_prefix() + trimmed + seq![39u8, 10u8]
}

/// The reply to `PING` on the datagram plane: `PONG`, no newline.
pub open spec fn pong_datagram() -> Seq<u8> {
    seq![80u8, 79u8, 78u8, 71u8]
}

/// The default datagram reply.
pub open spec fn default_datagram() -> Seq<u8> {
    seq![
        79u8,
        105u8,
        44u8,
        32u8,
        85u8,
        68u8,
        80u8,
        33u8,
        32u8,
        40u8,
        114u8,
        101u8,
        115u8,
        112u8,
        111u8,
        115u8,
        116u8,
        97u8,
        32u8,
        112u8,
        97u8,
        100u8,
        114u8,
        97u8,
        111u8,
        41u8,
    ]
}

/// Relies on chrono's `Local::now` and `DateTime::format` with the pattern
/// `%H:%M:%S`: each field is two zero-padded ASCII digits, colon separated,
/// so the formatted local time of day is always eight bytes.
#[verifier::external_body]
fn local_time_hms() -> (r: Vec<u8>)
    ensures
        r@.len() == 8,
{
    chrono::Local::now().format("%H:%M:%S").to_string().into_bytes()
}

/// Answer one command line read from a TCP connection.  The request is
/// trimmed of surrounding whitespace; `PING`, `TIME` and `STATS` have fixed
/// replies (the time reply is the eight-byte clock reading and a newline);
/// anything else is echoed back quoted in the unknown-command reply.
///
/// The function works on the received bytes as they are: trimming covers
/// ASCII whitespace only, and an unknown command is echoed byte for byte,
/// with no decoding or replacement of ill-formed UTF-8.
pub fn process_request(request: &[u8]) -> (r: Vec<u8>)
    ensures
        spec_trim(request@) == ping_request() ==> r@ == pong_response(),
        spec_trim(request@) == time_request() ==> r@.len() == 9 && r@[8] == 10u8,
        spec_trim(request@) == stats_request() ==> r@ == stats_response(),
        spec_trim(request@) != ping_request() && spec_trim(request@) != time_request()
            && spec_trim(request@) != stats_request() ==> r@ == unknown_response(
            spec_trim(request@),
        ),
{
    let trimmed = trim_bytes(request);
    let ping: [u8; 4] = [80, 73, 78, 71];
    let time: [u8; 4] = [84, 73, 77, 69];
    let stats: [u8; 5] = [83, 84, 65, 84, 83];
    proof {
        assert(ping@ =~= ping_request());
        assert(time@ =~= time_request());
        assert(stats@ =~= stats_request());
    }
    if eq_bytes(trimmed.as_slice(), ping.as_slice()) {
        let r: Vec<u8> = vec![80, 79, 78, 71, 10];
        proof {
            assert(r@ =~= pong_response());
        }
        r
    } else if eq_bytes(trimmed.as_slice(), time.as_slice()) {
        let mut r = local_time_hms();
        r.push(10);
        r
    } else if eq_bytes(trimmed.as_slice(), stats.as_slice()) {
        let r: Vec<u8> = vec![
            83,
            101,
            114,
            118,
            105,
            100,
            111,
            114,
            32,
            101,
            109,
            32,
            111,
            112,
            101,
            114,
            97,
            195,
            167,
            195,
            163,
            111,
            10,
        ];
        proof {
            assert(r@ =~= stats_response());
        }
        r
    } else {
        let mut r: Vec<u8> = vec![
            67,
            111,
            109,
            97,
            110,
            100,
            111,
            32,
            110,
            195,
            163,
            111,
            32,
            114,
            101,
            99,
            111,
            110,
            104,
            101,
            99,
            105,
            100,
            111,
            58,
            32,
            39,
        ];
        proof {
            assert(r@ =~= unknown_prefix());
        }
        r.extend_from_slice(trimmed.as_slice());
        r.push(39);
        r.push(10);
        proof {
            assert(r@ =~= unknown_response(spec_trim(request@)));
        }
        r
    }
}

/// Answer one datagram.  `PING` and `TIME` have fixed replies (the time
/// reply is the eight-byte clock reading); anything else gets the default
/// greeting.  The datagram is matched whole, untrimmed.
pub fn handle_packet(data: &[u8]) -> (r: Vec<u8>)
    ensures
        data@ == ping_request() ==> r@ == pong_datagram(),
        data@ == time_request() ==> r@.len() == 8,
        data@ != ping_request() && data@ != time_request() ==> r@ == default_datagram(),
{
    let ping: [u8; 4] = [80, 73, 78, 71];
    let time: [u8; 4] = [84, 73, 77, 69];
    proof {
        assert(ping@ =~= ping_request());
        assert(time@ =~= time_request());
    }
    if eq_bytes(data, ping.as_slice()) {
        let r: Vec<u8> = vec![80, 79, 78, 71];
        proof {
            assert(r@ =~= pong_datagram());
        }
        r
    } else if eq_bytes(data, time.as_slice()) {
        local_time_hms()
    } else {
        let r: Vec<u8> = vec![
            79,
            105,
            44,
            32,
            85,
            68,
            80,
            33,
            32,
            40,
            114,
            101,
            115,
            112,
            111,
            115,
            116,
            97,
            32,
            112,
            97,
            100,
            114,
            97,
            111,
            41,
        ];
        proof {
            assert(r@ =~= default_datagram());
        }
        r
    }
}

/// The gateway's owned statistics, updated under the same serialization
/// discipline as the registry; counters stop at the top of the machine
/// range rather than wrap.
#[derive(Clone, Copy, Debug, PartialEq, Eq, Structural)]
pub struct ServerStats {
    /// TCP connections accepted.
    pub connections: u64,
    /// Requests answered on the stream plane.
    pub requests: u64,
    /// Bytes received across both planes.
    pub bytes_received: u64,
    /// Datagrams received.
    pub packets: u64,
}

impl ServerStats {
    /// All counters at zero.
    pub fn new() -> (r: ServerStats)
        ensures
            r == (ServerStats { connections: 0, requests: 0, bytes_received: 0, packets: 0 }),
    {
        ServerStats { connections: 0, requests: 0, bytes_received: 0, packets: 0 }
    }

    /// Count one accepted connection.
    pub fn record_connection(&mut self)
        ensures
            *final(self) == (ServerStats {
                connections: sat_add(old(self).connections, 1),
                ..*old(self)
            }),
    {
        self.connections = self.connections.saturating_add(1);
    }

    /// Count one answered request of the given size.
    pub fn record_request(&mut self, bytes: u64)
        ensures
            *final(self) == (ServerStats {
                requests: sat_add(old(self).requests, 1),
                bytes_received: sat_add(old(self).bytes_received, bytes),
                ..*old(self)
            }),
    {
        self.requests = self.requests.saturating_add(1);
        self.bytes_received = self.bytes_received.saturating_add(bytes);
    }

    /// Count one received datagram of the given size.
    pub fn record_packet(&mut self, bytes: u64)
        ensures
            *final(self) == (ServerStats {
                packets: sat_add(old(self).packets, 1),
                bytes_received: sat_add(old(self).bytes_received, bytes),
                ..*old(self)
            }),
    {
        self.packets = self.packets.saturating_add(1);
        self.bytes_received = self.bytes_received.saturating_add(bytes);
    }

    /// A read snapshot of the counters, in place of ambient global state.
    pub fn snapshot(&self) -> (r: ServerStats)
        ensures
            r == *self,
    {
        *self
    }
}

/// The per-connection state of one TCP session: its id and the request
/// history kept for the connection log.
pub struct ConnectionSession {
    pub conn_id: u64,
    pub request_history: Vec<Vec<u8>>,
}

impl ConnectionSession {
    /// A fresh session with an empty history.
    pub fn new(conn_id: u64) -> (r: ConnectionSession)
        ensures
            r.conn_id == conn_id,
            r.request_history@ == Seq::<Vec<u8>>::empty(),
    {
        ConnectionSession { conn_id, request_history: Vec::new() }
    }

    /// Handle one chunk read from the connection: record it in the history
    /// and the statistics, and answer it.  The response is exactly what
    /// [`process_request`] gives for the chunk.
    pub fn handle_chunk(&mut self, stats: &mut ServerStats, data: &[u8]) -> (r: Vec<u8>)
        requires
            data@.len() <= u64::MAX,
        ensures
            final(self).conn_id == old(self).conn_id,
            final(self).request_history@.len() == old(self).request_history@.len() + 1,
            final(self).request_history@.last()@ == data@,
            forall|i: int|
                0 <= i < old(self).request_history@.len() ==> final(self).request_history@[i]
                    == old(self).request_history@[i],
            *final(stats) == (ServerStats {
                requests: sat_add(old(stats).requests, 1),
                bytes_received: sat_add(old(stats).bytes_received, data@.len() as u64),
                ..*old(stats)
            }),
            spec_trim(data@) == ping_request() ==> r@ == pong_response(),
            spec_trim(data@) == time_request() ==> r@.len() == 9 && r@[8] == 10u8,
            spec_trim(data@) == stats_request() ==> r@ == stats_response(),
            spec_trim(data@) != ping_request() && spec_trim(data@) != time_request() && spec_trim(
                data@,
            ) != stats_request() ==> r@ == unknown_response(spec_trim(data@)),
    {
        stats.record_request(data.len() as u64);
        let mut copy: Vec<u8> = Vec::new();
        copy.extend_from_slice(data);
        self.request_history.push(copy);
        process_request(data)
    }
}

/// What the dispatcher concludes about one flow: its score, the policy
/// decision, and any configuration warning raised on the way.
#[derive(Debug)]
pub struct FlowVerdict {
    pub result: AnalysisResult,
    pub decision: Decision,
    pub warning: Option<PolicyError>,
}

/// The record handed to the downstream reporting collaborator for one
/// completed flow: its metadata, its score, the decision taken, and the
/// tunnel id where a tunnel was registered.
#[derive(Debug)]
pub struct FlowRecord {
    pub metadata: FlowMetadata,
    pub risk_level: u64,
    pub matched_trigger_names: Vec<String>,
    pub decision: Decision,
    pub tunnel_id: Option<u64>,
}

/// Assemble the reporting record of one completed flow.
pub fn make_flow_record(
    metadata: FlowMetadata,
    result: AnalysisResult,
    decision: Decision,
    tunnel_id: Option<u64>,
) -> (r: FlowRecord)
    ensures
        r.metadata == metadata,
        r.risk_level == result.risk_level,
        r.matched_trigger_names == result.triggers,
        r.decision == decision,
        r.tunnel_id == tunnel_id,
{
    FlowRecord {
        metadata,
        risk_level: result.risk_level,
        matched_trigger_names: result.triggers,
        decision,
        tunnel_id,
    }
}

/// The dispatcher's per-flow step: score the flow against every trigger,
/// then apply the policy to the scored risk.  The verdict carries the full
/// analysis result and the decision the loops execute.
pub fn decide_flow(
    analyzer: &TrafficAnalyzer,
    policy: &PolicyStore,
    meta: &FlowMetadata,
    payload: &[u8],
) -> (v: FlowVerdict)
    requires
        analyzer.wf(),
    ensures
        v.result.risk_level == risk_of(analyzer.triggers@, *meta, payload@),
        v.result.triggers@ == matched_names(analyzer.triggers@, *meta, payload@),
        (v.decision, v.warning) == policy.spec_decide(v.result.risk_level, meta.protocol),
{
    let result = analyzer.evaluate(meta, payload);
    let (decision, warning) = policy.decide(&result, meta.protocol);
    FlowVerdict { result, decision, warning }
}

} // verus!
