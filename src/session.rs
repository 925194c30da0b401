//! The connection layer of a room: binding a new connection to the host or
//! to a player, addressing the notifications of a transition to
//! connections, and scheduling the latency-fairness witness copies.
use vstd::prelude::*;

use crate::game::{
    entries_view, find_player, position_of, roster, status_msg, Room, RoomResponse, RoomView,
};
use crate::host::HostEntry;
use crate::latency::TrackerView;
use crate::player::{Outbox, Player, PlayerEntry, PlayerEntryView, PlayerId};
use crate::tokens::{drawn_from, generate_player_token, TOKEN_ALPHABET, TOKEN_LEN};
use crate::ws_msg::WsMsg;

verus! {

/// How a new connection binds to the room.
#[derive(Clone, Copy, Debug, PartialEq, Eq, Structural)]
pub enum Handshake {
    /// The host secret: the connection becomes the host.
    Host,
    /// Credentials of the player at this position: the connection replaces
    /// that player's channel.
    Rejoin(usize),
    /// A display name and no matching credentials: a new player.
    Join,
}

/// Why a connection is refused.
#[derive(Clone, Copy, Debug, PartialEq, Eq, Structural)]
pub enum ConnectError {
    /// A secret that is neither the host's nor any player's, and no name.
    UnknownPlayer,
    /// Neither a secret nor a name.
    MissingParameters,
}

/// A bound connection: the player it speaks for (`None` for the host) and
/// what to send now.
pub struct Connection {
    pub player_id: Option<PlayerId>,
    pub response: RoomResponse,
}

/// The characters of an optional string.
pub open spec fn text_of(s: Option<String>) -> Option<Seq<char>> {
    match s {
        Some(t) => Some(t@),
        None => None,
    }
}

/// Player `p` holds secret `token` and, when an id is given, that id.
pub open spec fn holds_credentials(p: Player, pid: Option<PlayerId>, token: Seq<char>) -> bool {
    p.token@ == token && match pid {
        Some(id) => p.pid == id,
        None => true,
    }
}

/// `i` is the first position of a player with these credentials.
pub open spec fn is_first_holder(
    players: Seq<PlayerEntryView>,
    pid: Option<PlayerId>,
    token: Seq<char>,
    i: int,
) -> bool {
    &&& 0 <= i < players.len()
    &&& holds_credentials(players[i].player, pid, token)
    &&& forall|j: int| 0 <= j < i ==> !holds_credentials(players[j].player, pid, token)
}

/// Position of the first player with these credentials, if any.
pub open spec fn holder_position(players: Seq<PlayerEntryView>, pid: Option<PlayerId>, token: Seq<char>) -> Option<int> {
    if exists|i: int| is_first_holder(players, pid, token, i) {
        Some(choose|i: int| is_first_holder(players, pid, token, i))
    } else {
        None
    }
}

/// `m` lists the given players.
pub open spec fn lists_players(m: WsMsg, players: Seq<PlayerEntryView>) -> bool {
    match m {
        WsMsg::PlayerList(v) => v@ == roster(players),
        _ => false,
    }
}

/// The players with entry `i` bound to channel `sender`.
pub open spec fn with_sender(players: Seq<PlayerEntryView>, i: int, sender: Outbox) -> Seq<PlayerEntryView> {
    players.update(i, PlayerEntryView { sender, ..players[i] })
}

/// Id given to the next new player: one more than the number of players.
pub open spec fn next_player_id(v: RoomView) -> int {
    v.players.len() + 1int
}

impl RoomView {
    /// How a connection with these parameters binds: the host secret first,
    /// then a player's credentials (id and secret, or the secret alone when
    /// no id is given), then a name for a new player; otherwise refused.
    pub open spec fn handshake(
        self,
        has_name: bool,
        token: Option<Seq<char>>,
        pid: Option<PlayerId>,
    ) -> Result<Handshake, ConnectError> {
        match token {
            Some(t) => if t == self.host_token {
                Ok(Handshake::Host)
            } else {
                match holder_position(self.players, pid, t) {
                    Some(i) => Ok(Handshake::Rejoin(i as usize)),
                    None => if has_name {
                        Ok(Handshake::Join)
                    } else {
                        Err(ConnectError::UnknownPlayer)
                    },
                }
            },
            None => if has_name {
                Ok(Handshake::Join)
            } else {
                Err(ConnectError::MissingParameters)
            },
        }
    }

    /// `next` and `r` are this room and the outcome after a connection with
    /// these parameters and channel `sender`, where a new player would get
    /// the secret `fresh`.
    pub open spec fn connected(
        self,
        next: RoomView,
        r: Result<Connection, ConnectError>,
        player_name: Option<String>,
        token: Option<String>,
        pid: Option<PlayerId>,
        sender: Outbox,
        fresh: String,
    ) -> bool {
        match self.handshake(player_name.is_some(), text_of(token), pid) {
            Err(e) => next == self && (r matches Err(e2) && e2 == e),
            Ok(Handshake::Host) => {
                &&& next == (RoomView {
                    host: Some(HostEntry { pid: pid.unwrap_or(0), sender }),
                    ..self
                })
                &&& (r matches Ok(c) && {
                    &&& c.player_id.is_none()
                    &&& c.response.messages_to_host@.len() == if self.state == crate::game::GameState::Start {
                        1int
                    } else {
                        2int
                    }
                    &&& lists_players(c.response.messages_to_host@[0], self.players)
                    &&& self.state != crate::game::GameState::Start ==> self.is_snapshot(
                        c.response.messages_to_host@[1],
                    )
                    &&& c.response.messages_to_players@.len() == 0
                    &&& c.response.messages_to_specific@.len() == 0
                })
            },
            Ok(Handshake::Rejoin(i)) => {
                let p = self.players[i as int].player;
                &&& next == (RoomView { players: with_sender(self.players, i as int, sender), ..self })
                &&& (r matches Ok(c) && {
                    &&& c.player_id == Some(p.pid)
                    &&& c.response.messages_to_host@.len() == 1
                    &&& lists_players(c.response.messages_to_host@[0], self.players)
                    &&& c.response.messages_to_players@.len() == 0
                    &&& c.response.messages_to_specific@ == seq![(p.pid, status_msg(p, self.state))]
                })
            },
            Ok(Handshake::Join) => {
                let id = next_player_id(self) as u32;
                let p = Player { pid: id, name: player_name.unwrap(), score: 0, buzzed: false, token: fresh };
                &&& next == (RoomView {
                    players: self.players.push(
                        PlayerEntryView { player: p, sender, tracker: TrackerView::initial() },
                    ),
                    ..self
                })
                &&& (r matches Ok(c) && {
                    &&& c.player_id == Some(id)
                    &&& c.response.messages_to_host@.len() == 1
                    &&& lists_players(c.response.messages_to_host@[0], next.players)
                    &&& c.response.messages_to_players@.len() == 0
                    &&& c.response.messages_to_specific@ == seq![
                        (id, WsMsg::NewPlayer { pid: id, token: fresh }),
                    ]
                })
            },
        }
    }
}

/// Longest delay, in milliseconds, before a witness copy is sent.
pub const WITNESS_DELAY_MS: u64 = 500;

/// Delay of the witness copy for a player with the given latency estimate:
/// `WITNESS_DELAY_MS` less the latency, never below zero.
pub open spec fn witness_delay(latency: int) -> u64 {
    if latency >= WITNESS_DELAY_MS {
        0
    } else {
        (WITNESS_DELAY_MS - latency) as u64
    }
}

/// Whether the witness copy of an event from `sender` goes to `p`: to every
/// player except the sender.
pub open spec fn is_witness_target(p: Player, sender: Option<PlayerId>) -> bool {
    match sender {
        Some(id) => p.pid != id,
        None => true,
    }
}

/// Position and delay of each witness copy of an event from `sender`, in
/// player order.
pub open spec fn witness_schedule(players: Seq<PlayerEntryView>, sender: Option<PlayerId>) -> Seq<(usize, u64)>
    decreases players.len(),
{
    if players.len() == 0 {
        Seq::empty()
    } else {
        let i = players.len() - 1;
        let earlier = witness_schedule(players.drop_last(), sender);
        if is_witness_target(players[i].player, sender) {
            earlier.push((i as usize, witness_delay(players[i].tracker.estimate())))
        } else {
            earlier
        }
    }
}

/// Where a message goes.
#[derive(Clone, Copy, Debug, PartialEq, Eq, Structural)]
pub enum Recipient {
    Host,
    /// The player at this position.
    Player(usize),
}

/// Each message to the host.
pub open spec fn hosted(msgs: Seq<WsMsg>) -> Seq<(Recipient, WsMsg)> {
    msgs.map_values(|m: WsMsg| (Recipient::Host, m))
}

/// Message `m` to each of `n` players, in order.
pub open spec fn to_all(m: WsMsg, n: nat) -> Seq<(Recipient, WsMsg)> {
    Seq::new(n, |i: int| (Recipient::Player(i as usize), m))
}

/// Each message to each of `n` players, message by message.
pub open spec fn to_each_player(msgs: Seq<WsMsg>, n: nat) -> Seq<(Recipient, WsMsg)>
    decreases msgs.len(),
{
    if msgs.len() == 0 {
        Seq::empty()
    } else {
        to_each_player(msgs.drop_last(), n) + to_all(msgs.last(), n)
    }
}

/// Each addressed message to the first player with its id; a message for
/// an unknown id goes nowhere.
pub open spec fn addressed(specific: Seq<(PlayerId, WsMsg)>, players: Seq<PlayerEntryView>) -> Seq<(Recipient, WsMsg)>
    decreases specific.len(),
{
    if specific.len() == 0 {
        Seq::empty()
    } else {
        let earlier = addressed(specific.drop_last(), players);
        match position_of(players, specific.last().0) {
            Some(i) => earlier.push((Recipient::Player(i as usize), specific.last().1)),
            None => earlier,
        }
    }
}

/// Two delivery lists agree: same recipients in the same order, with
/// messages of the same content.
pub open spec fn same_deliveries(a: Seq<(Recipient, WsMsg)>, b: Seq<(Recipient, WsMsg)>) -> bool {
    a.len() == b.len() && forall|k: int|
        0 <= k < a.len() ==> (#[trigger] a[k]).0 == b[k].0 && a[k].1.same_as(b[k].1)
}

impl RoomView {
    /// Deliveries of a response: the host's messages when a host is bound,
    /// then each message for all players to every player, then each
    /// addressed message.
    pub open spec fn deliveries(self, r: RoomResponse) -> Seq<(Recipient, WsMsg)> {
        (if self.host.is_some() {
            hosted(r.messages_to_host@)
        } else {
            Seq::empty()
        }) + to_each_player(r.messages_to_players@, self.players.len()) + addressed(
            r.messages_to_specific@,
            self.players,
        )
    }
}

proof fn lemma_same_deliveries_push(
    a: Seq<(Recipient, WsMsg)>,
    b: Seq<(Recipient, WsMsg)>,
    x: (Recipient, WsMsg),
    y: (Recipient, WsMsg),
)
    requires
        same_deliveries(a, b),
        x.0 == y.0,
        x.1.same_as(y.1),
    ensures
        same_deliveries(a.push(x), b.push(y)),
{
    assert forall|k: int| 0 <= k < a.push(x).len() implies (#[trigger] a.push(x)[k]).0 == b.push(y)[k].0
        && a.push(x)[k].1.same_as(b.push(y)[k].1) by {
        if k < a.len() {
            assert(a.push(x)[k] == a[k]);
            assert(b.push(y)[k] == b[k]);
        }
    }
}

/// Position of the first entry whose player holds these credentials.
fn find_holder(players: &Vec<PlayerEntry>, pid: Option<PlayerId>, token: &String) -> (r: Option<usize>)
    ensures
        match r {
            Some(i) => holder_position(entries_view(players@), pid, token@) == Some(i as int),
            None => holder_position(entries_view(players@), pid, token@).is_none(),
        },
{
    let ghost pv = entries_view(players@);
    let mut i: usize = 0;
    while i < players.len()
        invariant
            pv == entries_view(players@),
            0 <= i <= players@.len(),
            forall|j: int| 0 <= j < i ==> !holds_credentials(pv[j].player, pid, token@),
        decreases players@.len() - i,
    {
        let p = &players[i].player;
        let id_ok = match pid {
            Some(id) => p.pid == id,
            None => true,
        };
        if id_ok && p.token == *token {
            proof {
                assert(is_first_holder(pv, pid, token@, i as int));
                let k = choose|k: int| is_first_holder(pv, pid, token@, k);
                assert(k == i as int);
            }
            return Some(i);
        }
        i += 1;
    }
    assert(!exists|k: int| is_first_holder(pv, pid, token@, k));
    None
}

impl Room {
    /// The player records, in order.
    pub fn roster_vec(&self) -> (r: Vec<Player>)
        ensures
            r@ == roster(self@.players),
    {
        let mut players: Vec<Player> = Vec::new();
        let mut i: usize = 0;
        while i < self.players.len()
            invariant
                0 <= i <= self.players@.len(),
                players@.len() == i,
                forall|j: int| 0 <= j < i ==> players@[j] == self.players@[j].player,
            decreases self.players@.len() - i,
        {
            players.push(self.players[i].player.clone());
            i += 1;
        }
        assert(players@ =~= roster(self@.players));
        players
    }

    /// Position and delay of each witness copy of `msg` from `sender`: none
    /// unless `msg` is a witnessed event.
    pub fn witness_plan(&self, msg: &WsMsg, sender: Option<PlayerId>) -> (r: Vec<(usize, u64)>)
        ensures
            r@ == if msg.is_witnessed() {
                witness_schedule(self@.players, sender)
            } else {
                Seq::empty()
            },
    {
        let mut plan: Vec<(usize, u64)> = Vec::new();
        if !msg.is_witnessed() {
            return plan;
        }
        let ghost pv = self@.players;
        let mut i: usize = 0;
        while i < self.players.len()
            invariant
                pv == self@.players,
                0 <= i <= self.players@.len(),
                plan@ == witness_schedule(pv.subrange(0, i as int), sender),
            decreases self.players@.len() - i,
        {
            let entry = &self.players[i];
            let target = match sender {
                Some(id) => entry.player.pid != id,
                None => true,
            };
            assert(pv.subrange(0, i + 1).drop_last() =~= pv.subrange(0, i as int));
            if target {
                let lat = entry.latency() as u64;
                let delay: u64 = if lat >= WITNESS_DELAY_MS {
                    0
                } else {
                    WITNESS_DELAY_MS - lat
                };
                plan.push((i, delay));
            }
            i += 1;
        }
        assert(pv.subrange(0, i as int) =~= pv);
        plan
    }

    /// The deliveries of `response` to the connections of this room.
    pub fn route(&self, response: &RoomResponse) -> (r: Vec<(Recipient, WsMsg)>)
        ensures
            same_deliveries(r@, self@.deliveries(*response)),
    {
        let mut out: Vec<(Recipient, WsMsg)> = Vec::new();
        let ghost host_part: Seq<(Recipient, WsMsg)> = if self.host.is_some() {
            hosted(response.messages_to_host@)
        } else {
            Seq::empty()
        };
        if self.host.is_some() {
            let mut k: usize = 0;
            while k < response.messages_to_host.len()
                invariant
                    0 <= k <= response.messages_to_host@.len(),
                    same_deliveries(out@, hosted(response.messages_to_host@.subrange(0, k as int))),
                decreases response.messages_to_host@.len() - k,
            {
                let m = response.messages_to_host[k].clone();
                proof {
                    lemma_same_deliveries_push(
                        out@,
                        hosted(response.messages_to_host@.subrange(0, k as int)),
                        (Recipient::Host, m),
                        (Recipient::Host, response.messages_to_host@[k as int]),
                    );
                    assert(hosted(response.messages_to_host@.subrange(0, k as int)).push(
                        (Recipient::Host, response.messages_to_host@[k as int]),
                    ) =~= hosted(response.messages_to_host@.subrange(0, k + 1)));
                }
                out.push((Recipient::Host, m));
                k += 1;
            }
            assert(response.messages_to_host@.subrange(0, k as int) =~= response.messages_to_host@);
        } else {
            assert(out@ =~= host_part);
        }
        let n = self.players.len();
        let ghost msgs = response.messages_to_players@;
        let mut j: usize = 0;
        while j < response.messages_to_players.len()
            invariant
                n == self.players@.len(),
                msgs == response.messages_to_players@,
                0 <= j <= msgs.len(),
                same_deliveries(out@, host_part + to_each_player(msgs.subrange(0, j as int), n as nat)),
            decreases msgs.len() - j,
        {
            let ghost before = host_part + to_each_player(msgs.subrange(0, j as int), n as nat);
            let mut i: usize = 0;
            while i < n
                invariant
                    n == self.players@.len(),
                    msgs == response.messages_to_players@,
                    0 <= j < msgs.len(),
                    0 <= i <= n,
                    same_deliveries(out@, before + to_all(msgs[j as int], n as nat).subrange(0, i as int)),
                decreases n - i,
            {
                let m = response.messages_to_players[j].clone();
                proof {
                    let expected = before + to_all(msgs[j as int], n as nat).subrange(0, i as int);
                    lemma_same_deliveries_push(
                        out@,
                        expected,
                        (Recipient::Player(i), m),
                        (Recipient::Player(i), msgs[j as int]),
                    );
                    assert(expected.push((Recipient::Player(i), msgs[j as int])) =~= before + to_all(
                        msgs[j as int],
                        n as nat,
                    ).subrange(0, i + 1));
                }
                out.push((Recipient::Player(i), m));
                i += 1;
            }
            proof {
                assert(to_all(msgs[j as int], n as nat).subrange(0, n as int) =~= to_all(msgs[j as int], n as nat));
                assert(msgs.subrange(0, j + 1).drop_last() =~= msgs.subrange(0, j as int));
                assert(host_part + to_each_player(msgs.subrange(0, j + 1), n as nat) =~= before + to_all(
                    msgs[j as int],
                    n as nat,
                ));
            }
            j += 1;
        }
        assert(msgs.subrange(0, j as int) =~= msgs);
        let ghost middle = host_part + to_each_player(msgs, n as nat);
        let ghost pv = self@.players;
        let ghost spec_msgs = response.messages_to_specific@;
        let mut k: usize = 0;
        while k < response.messages_to_specific.len()
            invariant
                pv == self@.players,
                spec_msgs == response.messages_to_specific@,
                0 <= k <= spec_msgs.len(),
                same_deliveries(out@, middle + addressed(spec_msgs.subrange(0, k as int), pv)),
            decreases spec_msgs.len() - k,
        {
            let pid = response.messages_to_specific[k].0;
            let ghost before = middle + addressed(spec_msgs.subrange(0, k as int), pv);
            proof {
                assert(spec_msgs.subrange(0, k + 1).drop_last() =~= spec_msgs.subrange(0, k as int));
            }
            match find_player(&self.players, pid) {
                Some(i) => {
                    let m = response.messages_to_specific[k].1.clone();
                    proof {
                        lemma_same_deliveries_push(
                            out@,
                            before,
                            (Recipient::Player(i), m),
                            (Recipient::Player(i), spec_msgs[k as int].1),
                        );
                        assert(before.push((Recipient::Player(i), spec_msgs[k as int].1)) =~= middle
                            + addressed(spec_msgs.subrange(0, k + 1), pv));
                    }
                    out.push((Recipient::Player(i), m));
                },
                None => {
                    assert(before =~= middle + addressed(spec_msgs.subrange(0, k + 1), pv));
                },
            }
            k += 1;
        }
        assert(spec_msgs.subrange(0, k as int) =~= spec_msgs);
        out
    }

    /// How a connection with these parameters binds to the room.
    pub fn classify(
        &self,
        player_name: &Option<String>,
        token: &Option<String>,
        player_id: Option<PlayerId>,
    ) -> (r: Result<Handshake, ConnectError>)
        ensures
            r == self@.handshake(player_name.is_some(), text_of(*token), player_id),
    {
        match token {
            Some(t) => {
                if *t == self.host_token {
                    return Ok(Handshake::Host);
                }
                match find_holder(&self.players, player_id, t) {
                    Some(i) => Ok(Handshake::Rejoin(i)),
                    None => if player_name.is_some() {
                        Ok(Handshake::Join)
                    } else {
                        Err(ConnectError::UnknownPlayer)
                    },
                }
            },
            None => if player_name.is_some() {
                Ok(Handshake::Join)
            } else {
                Err(ConnectError::MissingParameters)
            },
        }
    }

    /// Binds a new connection with channel `sender`: as host, as a
    /// returning player, or as a new player who gets the id after the last
    /// one and the secret `fresh_token`; a connection that is none of these
    /// is refused and changes nothing.
    pub fn connect(
        &mut self,
        player_name: Option<String>,
        token: Option<String>,
        player_id: Option<PlayerId>,
        sender: Outbox,
        fresh_token: String,
    ) -> (r: Result<Connection, ConnectError>)
        requires
            old(self).players@.len() < u32::MAX,
        ensures
            old(self)@.connected(final(self)@, r, player_name, token, player_id, sender, fresh_token),
    {
        let kind = match self.classify(&player_name, &token, player_id) {
            Ok(k) => k,
            Err(e) => {
                return Err(e);
            },
        };
        match kind {
            Handshake::Host => {
                let mut response = RoomResponse::to_host(WsMsg::PlayerList(self.roster_vec()));
                if self.state != crate::game::GameState::Start {
                    response.messages_to_host.push(self.build_game_state_msg());
                }
                let pid = match player_id {
                    Some(id) => id,
                    None => 0,
                };
                self.host = Some(HostEntry::new(pid, sender));
                Ok(Connection { player_id: None, response })
            },
            Handshake::Rejoin(i) => {
                let list = WsMsg::PlayerList(self.roster_vec());
                self.players[i].sender = sender;
                assert(self@.players =~= with_sender(old(self)@.players, i as int, sender));
                let p = &self.players[i].player;
                let status = WsMsg::PlayerState {
                    pid: p.pid,
                    buzzed: p.buzzed,
                    score: p.score,
                    can_buzz: self.state == crate::game::GameState::WaitingForBuzz && !p.buzzed,
                };
                let response = RoomResponse::to_host(list).merge(RoomResponse::to_player(p.pid, status));
                Ok(Connection { player_id: Some(p.pid), response })
            },
            Handshake::Join => {
                let new_id: u32 = (self.players.len() + 1) as u32;
                let name = match player_name {
                    Some(n) => n,
                    None => {
                        return Err(ConnectError::MissingParameters);
                    },
                };
                let player = Player::new(new_id, name, 0, false, fresh_token.clone());
                self.players.push(PlayerEntry::new(player, sender));
                assert(self@.players =~= old(self)@.players.push(
                    PlayerEntryView {
                        player: Player {
                            pid: new_id,
                            name: player_name.unwrap(),
                            score: 0,
                            buzzed: false,
                            token: fresh_token,
                        },
                        sender,
                        tracker: TrackerView::initial(),
                    },
                ));
                let list = WsMsg::PlayerList(self.roster_vec());
                let response = RoomResponse::to_host(list).merge(
                    RoomResponse::to_player(new_id, WsMsg::NewPlayer { pid: new_id, token: fresh_token }),
                );
                Ok(Connection { player_id: Some(new_id), response })
            },
        }
    }

    /// Binds a new connection as `connect` does, drawing the secret of a new
    /// player at random.
    pub fn accept(
        &mut self,
        player_name: Option<String>,
        token: Option<String>,
        player_id: Option<PlayerId>,
        sender: Outbox,
    ) -> (r: Result<Connection, ConnectError>)
        requires
            old(self).players@.len() < u32::MAX,
        ensures
            exists|fresh: String|
                drawn_from(fresh@, TOKEN_LEN as nat, TOKEN_ALPHABET@) && #[trigger] old(self)@.connected(
                    final(self)@,
                    r,
                    player_name,
                    token,
                    player_id,
                    sender,
                    fresh,
                ),
    {
        let fresh = generate_player_token();
        self.connect(player_name, token, player_id, sender, fresh)
    }
}

} // verus!
