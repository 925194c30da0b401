//! Messages exchanged between the server and the host and player clients.
use vstd::prelude::*;

use crate::game::{Category, GameState};
use crate::player::{Player, PlayerId};
use crate::{HeartbeatId, UnixMs};

verus! {

#[verifier::external_type_specification]
#[verifier::external_body]
#[verifier::reject_recursive_types(T)]
pub struct ExSender<T>(tokio_mpmc::Sender<T>);

/// One message, in either direction.
#[derive(Debug)]
pub enum WsMsg {
    /// A fairness-delayed copy of an event, for players other than its sender.
    Witness { msg: Box<WsMsg> },
    PlayerList(Vec<Player>),
    NewPlayer { pid: PlayerId, token: String },
    /// Full snapshot of a room.
    GameState {
        state: GameState,
        categories: Vec<Category>,
        players: Vec<Player>,
        current_question: Option<(usize, usize)>,
        current_buzzer: Option<PlayerId>,
    },
    PlayerState { pid: PlayerId, buzzed: bool, score: i32, can_buzz: bool },
    StartGame {},
    EndGame {},
    HostChoice { category_index: usize, question_index: usize },
    HostReady {},
    HostChecked { correct: bool },
    BuzzEnable {},
    BuzzDisable {},
    Buzz {},
    Buzzed { pid: PlayerId, name: String },
    DoHeartbeat { hbid: HeartbeatId, t_sent: UnixMs },
    Heartbeat { hbid: HeartbeatId, t_dohb_recv: UnixMs },
    GotHeartbeat { hbid: HeartbeatId },
    LatencyOfHeartbeat { hbid: HeartbeatId, t_lat: UnixMs },
}

/// The abstract content of a list of categories.
pub open spec fn board_of(cats: Seq<Category>) -> Seq<crate::game::CategoryView> {
    cats.map_values(|c: Category| c@)
}

impl WsMsg {
    /// Two messages carry the same content: lists are compared by their
    /// contents, everything else by value.
    pub open spec fn same_as(self, other: WsMsg) -> bool
        decreases self,
    {
        match (self, other) {
            (WsMsg::Witness { msg: a }, WsMsg::Witness { msg: b }) => (*a).same_as(*b),
            (WsMsg::PlayerList(a), WsMsg::PlayerList(b)) => a@ == b@,
            (
                WsMsg::GameState {
                    state: s1,
                    categories: c1,
                    players: p1,
                    current_question: q1,
                    current_buzzer: b1,
                },
                WsMsg::GameState {
                    state: s2,
                    categories: c2,
                    players: p2,
                    current_question: q2,
                    current_buzzer: b2,
                },
            ) => s1 == s2 && board_of(c1@) == board_of(c2@) && p1@ == p2@ && q1 == q2 && b1 == b2,
            _ => self == other,
        }
    }

    /// Whether this message is one of the witnessed events, which every
    /// other player sees again after a fairness delay.
    pub open spec fn spec_is_witnessed(&self) -> bool {
        match self {
            WsMsg::StartGame {} | WsMsg::EndGame {} | WsMsg::BuzzEnable {} | WsMsg::BuzzDisable {}
            | WsMsg::Buzz {} => true,
            _ => false,
        }
    }

    /// Whether this message is one of the witnessed events.
    #[verifier::when_used_as_spec(spec_is_witnessed)]
    pub fn is_witnessed(&self) -> (r: bool)
        ensures
            r == self.spec_is_witnessed(),
    {
        match self {
            WsMsg::StartGame {} | WsMsg::EndGame {} | WsMsg::BuzzEnable {} | WsMsg::BuzzDisable {}
            | WsMsg::Buzz {} => true,
            _ => false,
        }
    }
}

impl WsMsg {
    /// The witness copy of this message.
    pub fn witness(&self) -> (r: WsMsg)
        ensures
            r matches WsMsg::Witness { msg } && (*msg).same_as(*self),
    {
        WsMsg::Witness { msg: Box::new(self.clone()) }
    }
}

fn clone_players(v: &Vec<Player>) -> (r: Vec<Player>)
    ensures
        r@ == v@,
{
    let r = v.clone();
    assert(r@ =~= v@);
    r
}

fn clone_categories(v: &Vec<Category>) -> (r: Vec<Category>)
    ensures
        board_of(r@) == board_of(v@),
{
    let r = v.clone();
    assert(board_of(r@) =~= board_of(v@));
    r
}

impl Clone for WsMsg {
    fn clone(&self) -> (r: Self)
        ensures
            r.same_as(*self),
        decreases self,
    {
        match self {
            WsMsg::Witness { msg } => {
                let inner: WsMsg = (**msg).clone();
                WsMsg::Witness { msg: Box::new(inner) }
            },
            WsMsg::PlayerList(v) => WsMsg::PlayerList(clone_players(v)),
            WsMsg::NewPlayer { pid, token } => WsMsg::NewPlayer { pid: *pid, token: token.clone() },
            WsMsg::GameState { state, categories, players, current_question, current_buzzer } => {
                WsMsg::GameState {
                    state: *state,
                    categories: clone_categories(categories),
                    players: clone_players(players),
                    current_question: *current_question,
                    current_buzzer: *current_buzzer,
                }
            },
            WsMsg::PlayerState { pid, buzzed, score, can_buzz } => WsMsg::PlayerState {
                pid: *pid,
                buzzed: *buzzed,
                score: *score,
                can_buzz: *can_buzz,
            },
            WsMsg::StartGame {} => WsMsg::StartGame {},
            WsMsg::EndGame {} => WsMsg::EndGame {},
            WsMsg::HostChoice { category_index, question_index } => WsMsg::HostChoice {
                category_index: *category_index,
                question_index: *question_index,
            },
            WsMsg::HostReady {} => WsMsg::HostReady {},
            WsMsg::HostChecked { correct } => WsMsg::HostChecked { correct: *correct },
            WsMsg::BuzzEnable {} => WsMsg::BuzzEnable {},
            WsMsg::BuzzDisable {} => WsMsg::BuzzDisable {},
            WsMsg::Buzz {} => WsMsg::Buzz {},
            WsMsg::Buzzed { pid, name } => WsMsg::Buzzed { pid: *pid, name: name.clone() },
            WsMsg::DoHeartbeat { hbid, t_sent } => WsMsg::DoHeartbeat { hbid: *hbid, t_sent: *t_sent },
            WsMsg::Heartbeat { hbid, t_dohb_recv } => WsMsg::Heartbeat {
                hbid: *hbid,
                t_dohb_recv: *t_dohb_recv,
            },
            WsMsg::GotHeartbeat { hbid } => WsMsg::GotHeartbeat { hbid: *hbid },
            WsMsg::LatencyOfHeartbeat { hbid, t_lat } => WsMsg::LatencyOfHeartbeat {
                hbid: *hbid,
                t_lat: *t_lat,
            },
        }
    }
}

} // verus!
