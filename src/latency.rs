//! Round-trip bookkeeping for heartbeat probes and the rolling one-way
//! latency estimate built from them.
use std::collections::HashMap;

use vstd::prelude::*;

use crate::{HeartbeatId, UnixMs};

verus! {

broadcast use vstd::std_specs::hash::group_hash_axioms;

/// Number of samples in the rolling latency window.
pub const WINDOW_LEN: usize = 5;

/// The per-player probe counter cycles below this bound, so that
/// `counter * 1000 + 999` always fits in a `u32`.
pub const HBID_COUNTER_LIMIT: u32 = 4_294_967;

/// When a heartbeat probe was sent and, once the player acknowledged it,
/// when the player says it arrived.
#[derive(Copy, Clone, Debug)]
pub struct TrackedMessageTime {
    pub t_sent: UnixMs,
    pub t_recv: Option<UnixMs>,
}

/// Forward delay of a probe: arrival minus departure, never below zero.
pub open spec fn forward_delay(t: TrackedMessageTime) -> Option<nat> {
    match t.t_recv {
        Some(x) => Some(if x > t.t_sent { (x - t.t_sent) as nat } else { 0nat }),
        None => None,
    }
}

/// One-way latency estimate from the player's measured return latency and
/// the forward delay: `max(0, t_lat - forward)`.
pub open spec fn one_way_latency(t_lat: u32, forward: nat) -> u32 {
    if t_lat > forward { (t_lat - forward) as u32 } else { 0u32 }
}

/// Sum of a sequence of samples.
pub open spec fn sample_sum(s: Seq<u32>) -> int
    decreases s.len(),
{
    if s.len() == 0 {
        0
    } else {
        sample_sum(s.drop_last()) + s.last()
    }
}

/// The rolling window after a new sample: the oldest leaves, the new one
/// enters last.
pub open spec fn window_push(w: Seq<u32>, sample: u32) -> Seq<u32> {
    w.drop_first().push(sample)
}

impl TrackedMessageTime {
    /// Forward delay of the probe, or `None` while it is unacknowledged.
    pub fn delta(&self) -> (r: Option<u64>)
        ensures
            match r {
                Some(d) => forward_delay(*self) == Some(d as nat),
                None => forward_delay(*self).is_none(),
            },
    {
        match self.t_recv {
            Some(x) => Some(if x > self.t_sent { x - self.t_sent } else { 0 }),
            None => None,
        }
    }

    /// Forward delay as a `u32`; only for delays that fit in one.
    pub fn delta_32bit(&self) -> (r: Option<u32>)
        requires
            forward_delay(*self) matches Some(d) ==> d <= u32::MAX,
        ensures
            match r {
                Some(d) => forward_delay(*self) == Some(d as nat),
                None => forward_delay(*self).is_none(),
            },
    {
        match self.delta() {
            Some(d) => Some(d as u32),
            None => None,
        }
    }
}

/// Abstract state of a latency tracker.
pub ghost struct TrackerView {
    /// The last `WINDOW_LEN` one-way latency samples, oldest first.
    pub window: Seq<u32>,
    /// Probes in flight, by heartbeat id.
    pub pending: Map<HeartbeatId, TrackedMessageTime>,
    /// Counter mixed into the next heartbeat id.
    pub counter: u32,
}

impl TrackerView {
    /// A tracker with an all-zero window and no probe in flight.
    pub open spec fn initial() -> TrackerView {
        TrackerView {
            window: Seq::new(WINDOW_LEN as nat, |i: int| 0u32),
            pending: Map::empty(),
            counter: 0,
        }
    }

    /// The latency estimate: the integer mean of the window.
    pub open spec fn estimate(self) -> int {
        sample_sum(self.window) / (WINDOW_LEN as int)
    }

    /// The tracker after the player reports receiving probe `hbid` at `t`:
    /// a known probe gets its arrival time, anything else is ignored.
    pub open spec fn acknowledged(self, hbid: HeartbeatId, t: UnixMs) -> TrackerView {
        if self.pending.contains_key(hbid) {
            TrackerView {
                pending: self.pending.insert(
                    hbid,
                    TrackedMessageTime { t_recv: Some(t), ..self.pending[hbid] },
                ),
                ..self
            }
        } else {
            self
        }
    }

    /// Whether a latency report for probe `hbid` is taken: the probe is
    /// known and acknowledged.
    pub open spec fn closes(self, hbid: HeartbeatId) -> bool {
        self.pending.contains_key(hbid) && self.pending[hbid].t_recv.is_some()
    }

    /// The tracker after the player reports return latency `t_lat` for
    /// probe `hbid`: the one-way estimate enters the window and the probe is
    /// forgotten; a report that is not taken changes nothing.
    pub open spec fn closed(self, hbid: HeartbeatId, t_lat: u32) -> TrackerView {
        if self.closes(hbid) {
            TrackerView {
                window: window_push(
                    self.window,
                    one_way_latency(t_lat, forward_delay(self.pending[hbid]).unwrap()),
                ),
                pending: self.pending.remove(hbid),
                ..self
            }
        } else {
            self
        }
    }
}

/// Heartbeat probes in flight and the rolling window of latency samples
/// for one player.
pub struct LatencyTracker {
    latencies: [u32; 5],
    times_doheartbeat: HashMap<HeartbeatId, TrackedMessageTime>,
    hbid_counter: u32,
}

impl View for LatencyTracker {
    type V = TrackerView;

    closed spec fn view(&self) -> TrackerView {
        TrackerView {
            window: self.latencies@,
            pending: self.times_doheartbeat@,
            counter: self.hbid_counter,
        }
    }
}

impl LatencyTracker {
    /// A tracker with an all-zero window and no probe in flight.
    pub fn new() -> (r: Self)
        ensures
            r@ == TrackerView::initial(),
    {
        let r = LatencyTracker {
            latencies: [0u32, 0u32, 0u32, 0u32, 0u32],
            times_doheartbeat: HashMap::new(),
            hbid_counter: 0,
        };
        assert(r@.window =~= Seq::new(WINDOW_LEN as nat, |i: int| 0u32));
        r
    }

    /// Every tracker's window holds exactly `WINDOW_LEN` samples.
    pub proof fn lemma_window_len(&self)
        ensures
            self@.window.len() == WINDOW_LEN,
    {
    }

    /// Current latency estimate: the mean of the window, rounded down.
    pub fn latency(&self) -> (r: u32)
        ensures
            r as int == self@.estimate(),
    {
        let l = &self.latencies;
        let sum: u64 = l[0] as u64 + l[1] as u64 + l[2] as u64 + l[3] as u64 + l[4] as u64;
        proof {
            reveal_with_fuel(sample_sum, 6);
            let w = self@.window;
            assert(w.drop_last().drop_last().drop_last().drop_last().drop_last() =~= Seq::<u32>::empty());
            assert(sample_sum(w) == sum as int);
        }
        (sum / 5) as u32
    }

    /// Next heartbeat id for a probe sent at `t_sent`: the millisecond within
    /// the second, plus a thousand times the probe counter, which advances.
    pub fn generate_hbid(&mut self, t_sent: UnixMs) -> (r: HeartbeatId)
        ensures
            r as int == t_sent % 1000 + (old(self)@.counter % HBID_COUNTER_LIMIT) as int * 1000,
            final(self)@.counter == old(self)@.counter % HBID_COUNTER_LIMIT + 1,
            final(self)@.window == old(self)@.window,
            final(self)@.pending == old(self)@.pending,
    {
        let c: u32 = self.hbid_counter % HBID_COUNTER_LIMIT;
        let t_part: u32 = (t_sent % 1000) as u32;
        self.hbid_counter = c + 1;
        t_part + c * 1000
    }

    /// Records that probe `hbid` was sent at `t_sent`.
    pub fn record_dohb(&mut self, hbid: HeartbeatId, t_sent: UnixMs)
        ensures
            final(self)@.pending == old(self)@.pending.insert(
                hbid,
                TrackedMessageTime { t_sent, t_recv: None },
            ),
            final(self)@.window == old(self)@.window,
            final(self)@.counter == old(self)@.counter,
    {
        self.times_doheartbeat.insert(hbid, TrackedMessageTime { t_sent, t_recv: None });
    }

    /// Records when the player received probe `hbid`; `false`, and no
    /// change, when the probe is unknown.
    pub fn on_know_dohb_recv(&mut self, hbid: HeartbeatId, t_dohb_recv: UnixMs) -> (r: bool)
        ensures
            r == old(self)@.pending.contains_key(hbid),
            final(self)@ == old(self)@.acknowledged(hbid, t_dohb_recv),
    {
        match self.times_doheartbeat.get(&hbid) {
            Some(tmt) => {
                let updated = TrackedMessageTime { t_sent: tmt.t_sent, t_recv: Some(t_dohb_recv) };
                self.times_doheartbeat.insert(hbid, updated);
                true
            },
            None => false,
        }
    }

    /// Closes probe `hbid` with the player's measured return latency: the
    /// one-way estimate enters the window and the probe is forgotten.
    /// `false`, and no change, when the probe is unknown or unacknowledged.
    pub fn on_latencyhb(&mut self, hbid: HeartbeatId, t_lathb: u32) -> (r: bool)
        ensures
            r == old(self)@.closes(hbid),
            final(self)@ == old(self)@.closed(hbid, t_lathb),
    {
        let fwd: u64 = match self.times_doheartbeat.get(&hbid) {
            Some(dohb) => match dohb.delta() {
                Some(d) => d,
                None => {
                    return false;
                },
            },
            None => {
                return false;
            },
        };
        let lat: u32 = if t_lathb as u64 > fwd { (t_lathb as u64 - fwd) as u32 } else { 0 };
        let l = self.latencies;
        self.latencies = [l[1], l[2], l[3], l[4], lat];
        assert(self.latencies@ =~= window_push(l@, lat));
        self.times_doheartbeat.remove(&hbid);
        true
    }
}

} // verus!
