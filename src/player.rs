//! Players and the per-player connection entry of a room.
use vstd::prelude::*;

use crate::latency::{LatencyTracker, TrackedMessageTime, TrackerView, HBID_COUNTER_LIMIT};
use crate::ws_msg::WsMsg;
use crate::{HeartbeatId, UnixMs};

verus! {

/// Stable numeric identity of a player within a room.
pub type PlayerId = u32;

/// A player's game identity and standing.
#[derive(Debug)]
pub struct Player {
    pub pid: PlayerId,
    pub name: String,
    pub score: i32,
    pub buzzed: bool,
    pub token: String,
}

impl Clone for Player {
    fn clone(&self) -> (r: Self)
        ensures
            r == *self,
    {
        Player {
            pid: self.pid,
            name: self.name.clone(),
            score: self.score,
            buzzed: self.buzzed,
            token: self.token.clone(),
        }
    }
}

impl Player {
    pub fn new(pid: PlayerId, name: String, score: i32, buzzed: bool, token: String) -> (r: Self)
        ensures
            r == (Player { pid, name, score, buzzed, token }),
    {
        Player { pid, name, score, buzzed, token }
    }
}

/// Outbound channel to one live connection.
pub type Outbox = tokio_mpmc::Sender<WsMsg>;

/// A player together with the current outbound channel to its connection
/// and its latency bookkeeping.
pub struct PlayerEntry {
    pub player: Player,
    pub sender: Outbox,
    pub tracker: LatencyTracker,
}

/// Abstract state of a player entry.
pub ghost struct PlayerEntryView {
    pub player: Player,
    pub sender: Outbox,
    pub tracker: TrackerView,
}

impl View for PlayerEntry {
    type V = PlayerEntryView;

    open spec fn view(&self) -> PlayerEntryView {
        PlayerEntryView { player: self.player, sender: self.sender, tracker: self.tracker@ }
    }
}

impl PlayerEntry {
    /// A freshly connected player: zero latency window, no probe in flight.
    pub fn new(player: Player, sender: Outbox) -> (r: Self)
        ensures
            r.player == player,
            r.sender == sender,
            r.tracker@ == TrackerView::initial(),
    {
        PlayerEntry { player, sender, tracker: LatencyTracker::new() }
    }

    /// Whether the player has buzzed on the current question.
    pub fn did_buzz(&self) -> (r: bool)
        ensures
            r == self.player.buzzed,
    {
        self.player.buzzed
    }

    /// The player's current latency estimate.
    pub fn latency(&self) -> (r: u32)
        ensures
            r as int == self.tracker@.estimate(),
    {
        self.tracker.latency()
    }

    /// Next heartbeat id for a probe sent at `t_sent`.
    pub fn generate_hbid(&mut self, t_sent: UnixMs) -> (r: HeartbeatId)
        ensures
            final(self).player == old(self).player,
            final(self).sender == old(self).sender,
            r as int == t_sent % 1000 + (old(self).tracker@.counter % HBID_COUNTER_LIMIT) as int * 1000,
            final(self).tracker@ == (TrackerView {
                counter: (old(self).tracker@.counter % HBID_COUNTER_LIMIT + 1) as u32,
                ..old(self).tracker@
            }),
    {
        self.tracker.generate_hbid(t_sent)
    }

    /// Records that probe `hbid` was sent at `t_sent`.
    pub fn record_dohb(&mut self, hbid: HeartbeatId, t_sent: UnixMs)
        ensures
            final(self).player == old(self).player,
            final(self).sender == old(self).sender,
            final(self).tracker@ == (TrackerView {
                pending: old(self).tracker@.pending.insert(hbid, TrackedMessageTime { t_sent, t_recv: None }),
                ..old(self).tracker@
            }),
    {
        self.tracker.record_dohb(hbid, t_sent)
    }

    /// Records when the player received probe `hbid`.
    pub fn on_know_dohb_recv(&mut self, hbid: HeartbeatId, t_dohb_recv: UnixMs) -> (r: bool)
        ensures
            final(self).player == old(self).player,
            final(self).sender == old(self).sender,
            r == old(self).tracker@.pending.contains_key(hbid),
            final(self).tracker@ == old(self).tracker@.acknowledged(hbid, t_dohb_recv),
    {
        self.tracker.on_know_dohb_recv(hbid, t_dohb_recv)
    }

    /// Closes probe `hbid` with the player's measured return latency.
    pub fn on_latencyhb(&mut self, hbid: HeartbeatId, t_lathb: u32) -> (r: bool)
        ensures
            final(self).player == old(self).player,
            final(self).sender == old(self).sender,
            r == old(self).tracker@.closes(hbid),
            final(self).tracker@ == old(self).tracker@.closed(hbid, t_lathb),
    {
        self.tracker.on_latencyhb(hbid, t_lathb)
    }
}

} // verus!
