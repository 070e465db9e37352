//! The relay state machine and the live-tunnel registry.
//!
//! A redirected flow becomes an [`ActiveTunnel`]: an identity record plus the
//! relay state.  The relay runs two independent copy directions —
//! client-to-destination and destination-to-client — and the state moves
//! monotonically through `Connecting`, `Relaying`, `Closing`, `Closed`, with
//! `Failed` terminal for a connect failure or a mid-relay fault.  The
//! [`TunnelRegistry`] holds exactly the tunnels still connecting, relaying or
//! closing; an entry leaves the registry in the very step that finishes it.

use vstd::prelude::*;

use crate::net::{Address, Protocol};

verus! {

/// The relay lifecycle of one tunnel.
#[derive(Clone, Copy, Debug, PartialEq, Eq, Structural)]
pub enum TunnelState {
    /// Opening the connection to the redirect destination.
    Connecting,
    /// Both copy directions running.
    Relaying,
    /// One direction finished; the other still delivering.
    Closing,
    /// Both directions finished.
    Closed,
    /// Connect failure or mid-relay fault; nothing more will be delivered.
    Failed,
}

/// The identity record of one live relay.
#[derive(Clone, Copy, Debug, PartialEq, Eq, Structural)]
pub struct Tunnel {
    pub id: u64,
    pub src: Address,
    pub dest: Address,
    pub protocol: Protocol,
    /// Seconds since the Unix epoch at creation.
    pub created_at: i64,
}

/// One live relay: its identity, its state, whether each copy direction is
/// still open, and the bytes forwarded so far in each direction.
#[derive(Clone, Copy, Debug, PartialEq, Eq, Structural)]
pub struct ActiveTunnel {
    pub tunnel: Tunnel,
    pub state: TunnelState,
    pub c2d_open: bool,
    pub d2c_open: bool,
    pub bytes_c2d: u64,
    pub bytes_d2c: u64,
}

/// One observation a relay direction reports to the state machine.
#[derive(Clone, Copy, Debug, PartialEq, Eq, Structural)]
pub enum RelayEvent {
    /// The destination connection opened.
    ConnectOk,
    /// The destination connection could not be opened.
    ConnectFailed,
    /// Bytes forwarded client-to-destination.
    DataC2D(u64),
    /// Bytes forwarded destination-to-client.
    DataD2C(u64),
    /// End of stream (or read error) client-to-destination.
    EofC2D,
    /// End of stream (or read error) destination-to-client.
    EofD2C,
    /// Fatal fault while relaying; both directions stop at once.
    Abort,
}

/// Addition that stops at the top of the machine range.
pub open spec fn sat_add(a: u64, n: u64) -> u64 {
    if a + n <= u64::MAX {
        (a + n) as u64
    } else {
        u64::MAX
    }
}

impl ActiveTunnel {
    /// The direction flags and counters agree with the state.
    pub open spec fn wf(&self) -> bool {
        &&& (self.state is Connecting ==> self.c2d_open && self.d2c_open && self.bytes_c2d == 0
            && self.bytes_d2c == 0)
        &&& (self.state is Relaying ==> self.c2d_open && self.d2c_open)
        &&& (self.state is Closing ==> (self.c2d_open != self.d2c_open))
        &&& (self.state is Closed ==> !self.c2d_open && !self.d2c_open)
        &&& (self.state is Failed ==> !self.c2d_open && !self.d2c_open)
    }

    /// A fresh tunnel record, about to connect.
    pub fn connect(
        id: u64,
        src: Address,
        dest: Address,
        protocol: Protocol,
        created_at: i64,
    ) -> (r: ActiveTunnel)
        ensures
            r == (ActiveTunnel {
                tunnel: Tunnel { id, src, dest, protocol, created_at },
                state: TunnelState::Connecting,
                c2d_open: true,
                d2c_open: true,
                bytes_c2d: 0,
                bytes_d2c: 0,
            }),
            r.wf(),
    {
        ActiveTunnel {
            tunnel: Tunnel { id, src, dest, protocol, created_at },
            state: TunnelState::Connecting,
            c2d_open: true,
            d2c_open: true,
            bytes_c2d: 0,
            bytes_d2c: 0,
        }
    }
}

/// Is the event one the tunnel can take in its present state?
pub open spec fn event_enabled(t: ActiveTunnel, ev: RelayEvent) -> bool {
    match ev {
        RelayEvent::ConnectOk => t.state is Connecting,
        RelayEvent::ConnectFailed => t.state is Connecting,
        RelayEvent::DataC2D(_) => (t.state is Relaying || t.state is Closing) && t.c2d_open,
        RelayEvent::DataD2C(_) => (t.state is Relaying || t.state is Closing) && t.d2c_open,
        RelayEvent::EofC2D => (t.state is Relaying || t.state is Closing) && t.c2d_open,
        RelayEvent::EofD2C => (t.state is Relaying || t.state is Closing) && t.d2c_open,
        RelayEvent::Abort => t.state is Relaying,
    }
}

/// The transition relation: what one event does to a tunnel.  An event the
/// state does not enable changes nothing.
pub open spec fn spec_step(t: ActiveTunnel, ev: RelayEvent) -> ActiveTunnel {
    if !event_enabled(t, ev) {
        t
    } else {
        match ev {
            RelayEvent::ConnectOk => ActiveTunnel { state: TunnelState::Relaying, ..t },
            RelayEvent::ConnectFailed => ActiveTunnel {
                state: TunnelState::Failed,
                c2d_open: false,
                d2c_open: false,
                ..t
            },
            RelayEvent::DataC2D(n) => ActiveTunnel { bytes_c2d: sat_add(t.bytes_c2d, n), ..t },
            RelayEvent::DataD2C(n) => ActiveTunnel { bytes_d2c: sat_add(t.bytes_d2c, n), ..t },
            RelayEvent::EofC2D => ActiveTunnel {
                c2d_open: false,
                state: if t.d2c_open {
                    TunnelState::Closing
                } else {
                    TunnelState::Closed
                },
                ..t
            },
            RelayEvent::EofD2C => ActiveTunnel {
                d2c_open: false,
                state: if t.c2d_open {
                    TunnelState::Closing
                } else {
                    TunnelState::Closed
                },
                ..t
            },
            RelayEvent::Abort => ActiveTunnel {
                state: TunnelState::Failed,
                c2d_open: false,
                d2c_open: false,
                ..t
            },
        }
    }
}

impl ActiveTunnel {
    /// Apply one relay event.
    pub fn step(&mut self, ev: RelayEvent)
        ensures
            *final(self) == spec_step(*old(self), ev),
    {
        let enabled = match ev {
            RelayEvent::ConnectOk => matches!(self.state, TunnelState::Connecting),
            RelayEvent::ConnectFailed => matches!(self.state, TunnelState::Connecting),
            RelayEvent::DataC2D(_) => (matches!(self.state, TunnelState::Relaying) || matches!(
                self.state,
                TunnelState::Closing,
            )) && self.c2d_open,
            RelayEvent::DataD2C(_) => (matches!(self.state, TunnelState::Relaying) || matches!(
                self.state,
                TunnelState::Closing,
            )) && self.d2c_open,
            RelayEvent::EofC2D => (matches!(self.state, TunnelState::Relaying) || matches!(
                self.state,
                TunnelState::Closing,
            )) && self.c2d_open,
            RelayEvent::EofD2C => (matches!(self.state, TunnelState::Relaying) || matches!(
                self.state,
                TunnelState::Closing,
            )) && self.d2c_open,
            RelayEvent::Abort => matches!(self.state, TunnelState::Relaying),
        };
        if !enabled {
            return;
        }
        match ev {
            RelayEvent::ConnectOk => {
                self.state = TunnelState::Relaying;
            },
            RelayEvent::ConnectFailed => {
                self.state = TunnelState::Failed;
                self.c2d_open = false;
                self.d2c_open = false;
            },
            RelayEvent::DataC2D(n) => {
                self.bytes_c2d = self.bytes_c2d.saturating_add(n);
            },
            RelayEvent::DataD2C(n) => {
                self.bytes_d2c = self.bytes_d2c.saturating_add(n);
            },
            RelayEvent::EofC2D => {
                self.c2d_open = false;
                self.state = if self.d2c_open {
                    TunnelState::Closing
                } else {
                    TunnelState::Closed
                };
            },
            RelayEvent::EofD2C => {
                self.d2c_open = false;
                self.state = if self.c2d_open {
                    TunnelState::Closing
                } else {
                    TunnelState::Closed
                };
            },
            RelayEvent::Abort => {
                self.state = TunnelState::Failed;
                self.c2d_open = false;
                self.d2c_open = false;
            },
        }
    }
}

/// How far along its lifecycle a state is; transitions never move backwards.
pub open spec fn state_rank(s: TunnelState) -> int {
    match s {
        TunnelState::Connecting => 0,
        TunnelState::Relaying => 1,
        TunnelState::Closing => 2,
        TunnelState::Closed => 3,
        TunnelState::Failed => 3,
    }
}

/// Transitions preserve well-formedness and are monotonic: the state never
/// moves back along the lifecycle, and a finished tunnel never changes again.
pub proof fn lemma_step_monotonic(t: ActiveTunnel, ev: RelayEvent)
    requires
        t.wf(),
    ensures
        spec_step(t, ev).wf(),
        state_rank(spec_step(t, ev).state) >= state_rank(t.state),
        t.state is Closed || t.state is Failed ==> spec_step(t, ev) == t,
{
}

/// The bytes the events report client-to-destination.
pub open spec fn sum_c2d(evs: Seq<RelayEvent>) -> int
    decreases evs.len(),
{
    if evs.len() == 0 {
        0
    } else {
        sum_c2d(evs.drop_last()) + match evs.last() {
            RelayEvent::DataC2D(n) => n as int,
            _ => 0,
        }
    }
}

/// The bytes the events report destination-to-client.
pub open spec fn sum_d2c(evs: Seq<RelayEvent>) -> int
    decreases evs.len(),
{
    if evs.len() == 0 {
        0
    } else {
        sum_d2c(evs.drop_last()) + match evs.last() {
            RelayEvent::DataD2C(n) => n as int,
            _ => 0,
        }
    }
}

/// The tunnel after a whole sequence of events.
pub open spec fn apply_events(t: ActiveTunnel, evs: Seq<RelayEvent>) -> ActiveTunnel
    decreases evs.len(),
{
    if evs.len() == 0 {
        t
    } else {
        spec_step(apply_events(t, evs.drop_last()), evs.last())
    }
}

/// Every event in the sequence is enabled when its turn comes.
pub open spec fn valid_run(t: ActiveTunnel, evs: Seq<RelayEvent>) -> bool
    decreases evs.len(),
{
    if evs.len() == 0 {
        true
    } else {
        valid_run(t, evs.drop_last()) && event_enabled(apply_events(t, evs.drop_last()), evs.last())
    }
}

/// The events are relay traffic only: data and end-of-stream, no faults.
pub open spec fn relay_traffic_only(evs: Seq<RelayEvent>) -> bool {
    forall|i: int|
        0 <= i < evs.len() ==> match #[trigger] evs[i] {
            RelayEvent::DataC2D(_) => true,
            RelayEvent::DataD2C(_) => true,
            RelayEvent::EofC2D => true,
            RelayEvent::EofD2C => true,
            _ => false,
        }
}

/// Byte-count correctness: a relay that starts fresh and suffers no fault
/// forwards exactly the bytes its events report — N client-to-destination
/// and M destination-to-client — in its final record.
pub proof fn lemma_byte_count(t: ActiveTunnel, evs: Seq<RelayEvent>)
    requires
        t.state is Relaying,
        t.bytes_c2d == 0,
        t.bytes_d2c == 0,
        valid_run(t, evs),
        relay_traffic_only(evs),
        sum_c2d(evs) <= u64::MAX,
        sum_d2c(evs) <= u64::MAX,
    ensures
        apply_events(t, evs).bytes_c2d == sum_c2d(evs),
        apply_events(t, evs).bytes_d2c == sum_d2c(evs),
    decreases evs.len(),
{
    if evs.len() > 0 {
        let prefix = evs.drop_last();
        assert(relay_traffic_only(prefix)) by {
            assert(forall|i: int| 0 <= i < prefix.len() ==> prefix[i] == evs[i]);
        }
        assert(sum_c2d(prefix) <= sum_c2d(evs));
        assert(sum_d2c(prefix) <= sum_d2c(evs));
        lemma_byte_count(t, prefix);
    }
}

/// Independent half-close: after the client closes its write side, the
/// destination-to-client direction stays open and keeps delivering — every
/// further destination byte still raises the counter — until the destination
/// itself closes.
pub proof fn lemma_half_close_independent(t: ActiveTunnel, n: u64)
    requires
        t.wf(),
        t.state is Relaying,
        t.bytes_d2c + n <= u64::MAX,
    ensures
        spec_step(t, RelayEvent::EofC2D).state is Closing,
        spec_step(t, RelayEvent::EofC2D).d2c_open,
        event_enabled(spec_step(t, RelayEvent::EofC2D), RelayEvent::DataD2C(n)),
        spec_step(spec_step(t, RelayEvent::EofC2D), RelayEvent::DataD2C(n)).bytes_d2c
            == t.bytes_d2c + n,
        spec_step(spec_step(t, RelayEvent::EofC2D), RelayEvent::DataD2C(n)).d2c_open,
        spec_step(spec_step(t, RelayEvent::EofC2D), RelayEvent::DataD2C(n)).state is Closing,
{
}

/// The first index holding the given tunnel id.
pub open spec fn spec_find(s: Seq<ActiveTunnel>, id: u64) -> Option<int>
    decreases s.len(),
{
    if s.len() == 0 {
        None
    } else if s[0].tunnel.id == id {
        Some(0)
    } else {
        match spec_find(s.drop_first(), id) {
            Some(i) => Some(i + 1),
            None => None,
        }
    }
}

/// The registry of live tunnels, mutated only under the dispatcher's
/// serialization discipline.
pub struct TunnelRegistry {
    pub tunnels: Vec<ActiveTunnel>,
    pub next_id: u64,
}

impl TunnelRegistry {
    /// The registry invariant: every entry is well formed and still live —
    /// connecting, relaying or closing, never closed or failed — ids are
    /// unique for the process lifetime, and unissued ids stay fresh.
    pub open spec fn wf(&self) -> bool {
        &&& forall|i: int|
            0 <= i < self.tunnels@.len() ==> (#[trigger] self.tunnels@[i]).wf()
        &&& forall|i: int|
            0 <= i < self.tunnels@.len() ==> ((#[trigger] self.tunnels@[i]).state is Connecting
                || self.tunnels@[i].state is Relaying || self.tunnels@[i].state is Closing)
        &&& forall|i: int|
            0 <= i < self.tunnels@.len() ==> (#[trigger] self.tunnels@[i]).tunnel.id < self.next_id
        &&& forall|i: int, j: int|
            0 <= i < j < self.tunnels@.len() ==> (#[trigger] self.tunnels@[i]).tunnel.id != (
            #[trigger] self.tunnels@[j]).tunnel.id
    }

    /// An empty registry.
    pub fn new() -> (r: TunnelRegistry)
        ensures
            r.tunnels@ == Seq::<ActiveTunnel>::empty(),
            r.next_id == 1,
            r.wf(),
    {
        TunnelRegistry { tunnels: Vec::new(), next_id: 1 }
    }

    /// How many tunnels are live.
    pub fn count(&self) -> (r: usize)
        ensures
            r == self.tunnels@.len(),
    {
        self.tunnels.len()
    }

    /// Register a new tunnel, in the `Connecting` state, under a fresh id.
    /// `None` only when the id space is exhausted.
    pub fn register(
        &mut self,
        src: Address,
        dest: Address,
        protocol: Protocol,
        created_at: i64,
    ) -> (r: Option<u64>)
        requires
            old(self).wf(),
        ensures
            final(self).wf(),
            match r {
                Some(id) => {
                    &&& id == old(self).next_id
                    &&& final(self).next_id == old(self).next_id + 1
                    &&& final(self).tunnels@ == old(self).tunnels@.push(
                        ActiveTunnel {
                            tunnel: Tunnel { id, src, dest, protocol, created_at },
                            state: TunnelState::Connecting,
                            c2d_open: true,
                            d2c_open: true,
                            bytes_c2d: 0,
                            bytes_d2c: 0,
                        },
                    )
                },
                None => old(self).next_id == u64::MAX && *final(self) == *old(self),
            },
    {
        if self.next_id == u64::MAX {
            return None;
        }
        let id = self.next_id;
        self.next_id = self.next_id + 1;
        let t = ActiveTunnel::connect(id, src, dest, protocol, created_at);
        self.tunnels.push(t);
        Some(id)
    }

    /// Apply one relay event to the tunnel with the given id.  When the event
    /// finishes the tunnel — `Closed` or `Failed` — the entry leaves the
    /// registry in the same step and its final record is returned; a live
    /// tunnel is updated in place.  An unknown id changes nothing.
    pub fn apply(&mut self, id: u64, ev: RelayEvent) -> (r: Option<ActiveTunnel>)
        requires
            old(self).wf(),
        ensures
            final(self).wf(),
            final(self).next_id == old(self).next_id,
            match spec_find(old(self).tunnels@, id) {
                None => *final(self) == *old(self) && r is None,
                Some(i) => {
                    let u = spec_step(old(self).tunnels@[i], ev);
                    if u.state is Closed || u.state is Failed {
                        &&& r == Some(u)
                        &&& final(self).tunnels@ == old(self).tunnels@.remove(i)
                    } else {
                        &&& r is None
                        &&& final(self).tunnels@ == old(self).tunnels@.update(i, u)
                    }
                },
            },
    {
        let n = self.tunnels.len();
        let mut i: usize = 0;
        while i < n
            invariant
                *self == *old(self),
                old(self).wf(),
                n == self.tunnels@.len(),
                i <= n,
                forall|j: int| 0 <= j < i ==> (#[trigger] self.tunnels@[j]).tunnel.id != id,
            decreases n - i,
        {
            if self.tunnels[i].tunnel.id == id {
                proof {
                    lemma_spec_find_hit(self.tunnels@, id, i as int);
                    lemma_step_monotonic(self.tunnels@[i as int], ev);
                }
                let mut t = self.tunnels[i];
                t.step(ev);
                let finished = matches!(t.state, TunnelState::Closed) || matches!(
                    t.state,
                    TunnelState::Failed,
                );
                if finished {
                    self.tunnels.remove(i);
                    proof {
                        let s1 = self.tunnels@;
                        let s0 = old(self).tunnels@;
                        assert forall|a: int, b: int|
                            0 <= a < b < s1.len() implies (#[trigger] s1[a]).tunnel.id != (
                        #[trigger] s1[b]).tunnel.id by {
                            assert(s1[a] == if a < i as int {
                                s0[a]
                            } else {
                                s0[a + 1]
                            });
                            assert(s1[b] == if b < i as int {
                                s0[b]
                            } else {
                                s0[b + 1]
                            });
                        }
                    }
                    return Some(t);
                } else {
                    self.tunnels[i] = t;
                    return None;
                }
            }
            i += 1;
        }
        proof {
            lemma_spec_find_miss(self.tunnels@, id);
        }
        None
    }
}

/// When the first occurrence of an id is at `i`, `spec_find` returns `i`.
proof fn lemma_spec_find_hit(s: Seq<ActiveTunnel>, id: u64, i: int)
    requires
        0 <= i < s.len(),
        s[i].tunnel.id == id,
        forall|j: int| 0 <= j < i ==> (#[trigger] s[j]).tunnel.id != id,
    ensures
        spec_find(s, id) == Some(i),
    decreases s.len(),
{
    if i > 0 {
        lemma_spec_find_hit(s.drop_first(), id, i - 1);
    }
}

/// When no entry holds the id, `spec_find` returns nothing.
proof fn lemma_spec_find_miss(s: Seq<ActiveTunnel>, id: u64)
    requires
        forall|j: int| 0 <= j < s.len() ==> (#[trigger] s[j]).tunnel.id != id,
    ensures
        spec_find(s, id) is None,
    decreases s.len(),
{
    if s.len() > 0 {
        lemma_spec_find_miss(s.drop_first(), id);
    }
}

/// The registry invariant observed from outside: at any point it holds
/// exactly tunnels that are connecting, relaying or closing — a closed or
/// failed tunnel is never found in it.
pub proof fn lemma_registry_only_live(r: TunnelRegistry)
    requires
        r.wf(),
    ensures
        forall|i: int|
            0 <= i < r.tunnels@.len() ==> !((#[trigger] r.tunnels@[i]).state is Closed)
                && !(r.tunnels@[i].state is Failed),
{
}

} // verus!
