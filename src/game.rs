//! The room: its board of questions, its players, and the state machine
//! that turns inbound game messages into outbound notifications.
use vstd::prelude::*;

use crate::host::HostEntry;
use crate::latency::TrackerView;
use crate::player::{Player, PlayerEntry, PlayerEntryView, PlayerId};
use crate::ws_msg::{board_of, WsMsg};
use crate::UnixMs;

verus! {

/// One clue on the board.
#[derive(Debug)]
pub struct Question {
    pub question: String,
    pub answer: String,
    pub value: u32,
    pub answered: bool,
}

impl Clone for Question {
    fn clone(&self) -> (r: Self)
        ensures
            r == *self,
    {
        Question {
            question: self.question.clone(),
            answer: self.answer.clone(),
            value: self.value,
            answered: self.answered,
        }
    }
}

/// A titled column of questions; the order of the questions is their index.
#[derive(Debug)]
pub struct Category {
    pub title: String,
    pub questions: Vec<Question>,
}

/// Abstract content of a category.
pub ghost struct CategoryView {
    pub title: Seq<char>,
    pub questions: Seq<Question>,
}

impl View for Category {
    type V = CategoryView;

    open spec fn view(&self) -> CategoryView {
        CategoryView { title: self.title@, questions: self.questions@ }
    }
}

impl Clone for Category {
    fn clone(&self) -> (r: Self)
        ensures
            r@ == self@,
    {
        let questions = self.questions.clone();
        assert(questions@ =~= self.questions@);
        Category { title: self.title.clone(), questions }
    }
}

/// Phase of a room's game.
#[derive(Clone, Copy, Debug, PartialEq, Eq, Structural)]
pub enum GameState {
    Start,
    Selection,
    QuestionReading,
    Answer,
    WaitingForBuzz,
    GameEnd,
}

impl Default for GameState {
    fn default() -> (r: Self)
        ensures
            r == GameState::Start,
    {
        GameState::Start
    }
}

/// The notifications produced by one transition, by address: the host,
/// every player, or one player by id.
pub struct RoomResponse {
    pub messages_to_host: Vec<WsMsg>,
    pub messages_to_players: Vec<WsMsg>,
    pub messages_to_specific: Vec<(PlayerId, WsMsg)>,
}

impl RoomResponse {
    /// No notification at all.
    pub open spec fn is_empty(self) -> bool {
        &&& self.messages_to_host@.len() == 0
        &&& self.messages_to_players@.len() == 0
        &&& self.messages_to_specific@.len() == 0
    }

    pub fn new() -> (r: Self)
        ensures
            r.is_empty(),
    {
        RoomResponse {
            messages_to_host: Vec::new(),
            messages_to_players: Vec::new(),
            messages_to_specific: Vec::new(),
        }
    }

    /// The same state message to the host and to every player.
    pub fn broadcast_state(state_msg: WsMsg) -> (r: Self)
        ensures
            r.messages_to_host@.len() == 1,
            r.messages_to_host@[0].same_as(state_msg),
            r.messages_to_players@ == seq![state_msg],
            r.messages_to_specific@.len() == 0,
    {
        let copy = state_msg.clone();
        let r = RoomResponse {
            messages_to_host: vec![copy],
            messages_to_players: vec![state_msg],
            messages_to_specific: Vec::new(),
        };
        assert(r.messages_to_players@ =~= seq![state_msg]);
        r
    }

    /// One message to the host.
    pub fn to_host(msg: WsMsg) -> (r: Self)
        ensures
            r.messages_to_host@ == seq![msg],
            r.messages_to_players@.len() == 0,
            r.messages_to_specific@.len() == 0,
    {
        let r = RoomResponse {
            messages_to_host: vec![msg],
            messages_to_players: Vec::new(),
            messages_to_specific: Vec::new(),
        };
        assert(r.messages_to_host@ =~= seq![msg]);
        r
    }

    /// One message to the player with id `player_id`.
    pub fn to_player(player_id: PlayerId, msg: WsMsg) -> (r: Self)
        ensures
            r.messages_to_host@.len() == 0,
            r.messages_to_players@.len() == 0,
            r.messages_to_specific@ == seq![(player_id, msg)],
    {
        let r = RoomResponse {
            messages_to_host: Vec::new(),
            messages_to_players: Vec::new(),
            messages_to_specific: vec![(player_id, msg)],
        };
        assert(r.messages_to_specific@ =~= seq![(player_id, msg)]);
        r
    }

    /// Both responses, this one's messages first in each list.
    pub fn merge(self, other: RoomResponse) -> (r: Self)
        ensures
            r.messages_to_host@ == self.messages_to_host@ + other.messages_to_host@,
            r.messages_to_players@ == self.messages_to_players@ + other.messages_to_players@,
            r.messages_to_specific@ == self.messages_to_specific@ + other.messages_to_specific@,
    {
        let mut this = self;
        let mut other = other;
        this.messages_to_host.append(&mut other.messages_to_host);
        this.messages_to_players.append(&mut other.messages_to_players);
        this.messages_to_specific.append(&mut other.messages_to_specific);
        this
    }
}

/// The lowest and highest score a player can hold.
pub open spec fn clamp_score(x: int) -> i32 {
    if x < i32::MIN {
        i32::MIN
    } else if x > i32::MAX {
        i32::MAX
    } else {
        x as i32
    }
}

/// A score after a judged answer on a question worth `value`: raised by the
/// value when correct, lowered by it when not, held within the range of
/// an `i32`.
pub open spec fn adjusted_score(score: i32, value: u32, correct: bool) -> i32 {
    if correct {
        clamp_score(score + value)
    } else {
        clamp_score(score - value)
    }
}

/// Whether `(c, q)` addresses a question of the board.
pub open spec fn has_question(board: Seq<CategoryView>, c: int, q: int) -> bool {
    0 <= c < board.len() && 0 <= q < board[c].questions.len()
}

/// Whether `(c, q)` addresses a question that is still open.
pub open spec fn is_open_question(board: Seq<CategoryView>, c: int, q: int) -> bool {
    has_question(board, c, q) && !board[c].questions[q].answered
}

/// Whether some question of the board is still unanswered.
pub open spec fn any_unanswered(board: Seq<CategoryView>) -> bool {
    exists|c: int, q: int| is_open_question(board, c, q)
}

/// The board with question `(c, q)` marked answered.
pub open spec fn mark_answered(board: Seq<CategoryView>, c: int, q: int) -> Seq<CategoryView> {
    board.update(
        c,
        CategoryView {
            questions: board[c].questions.update(
                q,
                Question { answered: true, ..board[c].questions[q] },
            ),
            ..board[c]
        },
    )
}

/// `i` is the first position of a player with id `pid`.
pub open spec fn is_first_with_pid(players: Seq<PlayerEntryView>, pid: PlayerId, i: int) -> bool {
    &&& 0 <= i < players.len()
    &&& players[i].player.pid == pid
    &&& forall|j: int| 0 <= j < i ==> players[j].player.pid != pid
}

/// Position of the first player with id `pid`, if any.
pub open spec fn position_of(players: Seq<PlayerEntryView>, pid: PlayerId) -> Option<int> {
    if exists|i: int| is_first_with_pid(players, pid, i) {
        Some(choose|i: int| is_first_with_pid(players, pid, i))
    } else {
        None
    }
}

/// The players with entry `i` given the player record `p`.
pub open spec fn with_player(players: Seq<PlayerEntryView>, i: int, p: Player) -> Seq<PlayerEntryView> {
    players.update(i, PlayerEntryView { player: p, ..players[i] })
}

/// The players with entry `i` given the tracker `t`.
pub open spec fn with_tracker(players: Seq<PlayerEntryView>, i: int, t: TrackerView) -> Seq<PlayerEntryView> {
    players.update(i, PlayerEntryView { tracker: t, ..players[i] })
}

/// Every player's buzz cleared, nothing else changed.
pub open spec fn buzzes_cleared(players: Seq<PlayerEntryView>) -> Seq<PlayerEntryView> {
    players.map_values(
        |e: PlayerEntryView| PlayerEntryView { player: Player { buzzed: false, ..e.player }, ..e },
    )
}

/// Whether some player has not buzzed on the current question.
pub open spec fn any_unbuzzed(players: Seq<PlayerEntryView>) -> bool {
    exists|i: int| 0 <= i < players.len() && !players[i].player.buzzed
}

/// The player records of a list of entries.
pub open spec fn roster(players: Seq<PlayerEntryView>) -> Seq<Player> {
    players.map_values(|e: PlayerEntryView| e.player)
}

/// The personal state message of a player in a room in phase `state`.
pub open spec fn status_msg(p: Player, state: GameState) -> WsMsg {
    WsMsg::PlayerState {
        pid: p.pid,
        buzzed: p.buzzed,
        score: p.score,
        can_buzz: state == GameState::WaitingForBuzz && !p.buzzed,
    }
}

/// Abstract state of a room.
pub ghost struct RoomView {
    pub code: Seq<char>,
    pub host_token: Seq<char>,
    pub state: GameState,
    pub host: Option<HostEntry>,
    pub players: Seq<PlayerEntryView>,
    pub board: Seq<CategoryView>,
    pub current_question: Option<(usize, usize)>,
    pub current_buzzer: Option<PlayerId>,
    pub last_activity: UnixMs,
}

impl RoomView {
    /// A question is open exactly while the room is reading it, waiting for
    /// a buzz on it, or hearing an answer to it.
    pub open spec fn consistent(self) -> bool {
        self.current_question.is_some() <==> (self.state == GameState::QuestionReading
            || self.state == GameState::WaitingForBuzz || self.state == GameState::Answer)
    }

    /// Position of the player whose buzz is accepted: the room waits for a
    /// buzz and the sender is a player who has not buzzed on this question.
    pub open spec fn buzz_position(self, sender: Option<PlayerId>) -> Option<int> {
        if self.state != GameState::WaitingForBuzz {
            None
        } else {
            match sender {
                None => None,
                Some(pid) => match position_of(self.players, pid) {
                    Some(i) => if self.players[i].player.buzzed {
                        None
                    } else {
                        Some(i)
                    },
                    None => None,
                },
            }
        }
    }

    /// The room once the open question is closed: marked answered, nothing
    /// open, and the next phase is selection while any question remains.
    pub open spec fn question_closed(self, c: int, q: int) -> RoomView {
        let board = mark_answered(self.board, c, q);
        RoomView {
            board,
            current_question: None,
            current_buzzer: None,
            state: if any_unanswered(board) {
                GameState::Selection
            } else {
                GameState::GameEnd
            },
            ..self
        }
    }

    /// Whether a verdict is taken: a question is open and addresses the board.
    pub open spec fn judges(self) -> bool {
        match self.current_question {
            Some((c, q)) => has_question(self.board, c as int, q as int),
            None => false,
        }
    }

    /// The room after the host's verdict on the open question.
    pub open spec fn judged(self, correct: bool) -> RoomView {
        if !self.judges() {
            self
        } else {
            let c = self.current_question.unwrap().0 as int;
            let q = self.current_question.unwrap().1 as int;
            let value = self.board[c].questions[q].value;
            let players = match self.current_buzzer {
                Some(b) => match position_of(self.players, b) {
                    Some(i) => with_player(
                        self.players,
                        i,
                        Player {
                            score: adjusted_score(self.players[i].player.score, value, correct),
                            ..self.players[i].player
                        },
                    ),
                    None => self.players,
                },
                None => self.players,
            };
            let scored = RoomView { players, ..self };
            if correct || !any_unbuzzed(players) {
                scored.question_closed(c, q)
            } else {
                RoomView { current_buzzer: None, state: GameState::WaitingForBuzz, ..scored }
            }
        }
    }

    /// The room after the sender's heartbeat acknowledgement.
    pub open spec fn acknowledged(self, sender: Option<PlayerId>, hbid: u32, t: u64) -> RoomView {
        match sender {
            Some(pid) => match position_of(self.players, pid) {
                Some(i) => RoomView {
                    players: with_tracker(
                        self.players,
                        i,
                        self.players[i].tracker.acknowledged(hbid, t),
                    ),
                    ..self
                },
                None => self,
            },
            None => self,
        }
    }

    /// The room after the sender's latency report; a report beyond the
    /// range of a `u32` is ignored.
    pub open spec fn latency_reported(self, sender: Option<PlayerId>, hbid: u32, t_lat: u64) -> RoomView {
        match sender {
            Some(pid) => match position_of(self.players, pid) {
                Some(i) => if t_lat <= u32::MAX {
                    RoomView {
                        players: with_tracker(
                            self.players,
                            i,
                            self.players[i].tracker.closed(hbid, t_lat as u32),
                        ),
                        ..self
                    }
                } else {
                    self
                },
                None => self,
            },
            None => self,
        }
    }

    /// The room after message `msg` from `sender` (`None` for the host).
    pub open spec fn step(self, msg: WsMsg, sender: Option<PlayerId>) -> RoomView {
        match msg {
            WsMsg::StartGame {} => RoomView {
                state: GameState::Selection,
                current_question: None,
                current_buzzer: None,
                ..self
            },
            WsMsg::HostChoice { category_index, question_index } => if is_open_question(
                self.board,
                category_index as int,
                question_index as int,
            ) {
                RoomView {
                    state: GameState::QuestionReading,
                    current_question: Some((category_index, question_index)),
                    current_buzzer: None,
                    players: buzzes_cleared(self.players),
                    ..self
                }
            } else {
                self
            },
            WsMsg::HostReady {} => if self.state == GameState::QuestionReading {
                RoomView { state: GameState::WaitingForBuzz, ..self }
            } else {
                self
            },
            WsMsg::Buzz {} => match self.buzz_position(sender) {
                Some(i) => RoomView {
                    state: GameState::Answer,
                    current_buzzer: sender,
                    players: with_player(
                        self.players,
                        i,
                        Player { buzzed: true, ..self.players[i].player },
                    ),
                    ..self
                },
                None => self,
            },
            WsMsg::HostChecked { correct } => self.judged(correct),
            WsMsg::EndGame {} => RoomView {
                state: GameState::GameEnd,
                current_question: None,
                current_buzzer: None,
                ..self
            },
            WsMsg::Heartbeat { hbid, t_dohb_recv } => self.acknowledged(sender, hbid, t_dohb_recv),
            WsMsg::LatencyOfHeartbeat { hbid, t_lat } => self.latency_reported(sender, hbid, t_lat),
            _ => self,
        }
    }

    /// Whether message `msg` from `sender` changes the game and is announced.
    pub open spec fn announces(self, msg: WsMsg, sender: Option<PlayerId>) -> bool {
        match msg {
            WsMsg::StartGame {} | WsMsg::EndGame {} => true,
            WsMsg::HostChoice { category_index, question_index } => is_open_question(
                self.board,
                category_index as int,
                question_index as int,
            ),
            WsMsg::HostReady {} => self.state == GameState::QuestionReading,
            WsMsg::Buzz {} => self.buzz_position(sender).is_some(),
            WsMsg::HostChecked { .. } => self.judges(),
            _ => false,
        }
    }

    /// Messages for the host that come before the snapshot: the notice of an
    /// accepted buzz.
    pub open spec fn notices(self, msg: WsMsg, sender: Option<PlayerId>) -> Seq<WsMsg> {
        match (msg, self.buzz_position(sender)) {
            (WsMsg::Buzz {}, Some(i)) => seq![
                WsMsg::Buzzed { pid: self.players[i].player.pid, name: self.players[i].player.name },
            ],
            _ => Seq::empty(),
        }
    }

    /// The personal state message for each player, in order.
    pub open spec fn statuses(self) -> Seq<(PlayerId, WsMsg)> {
        Seq::new(
            self.players.len(),
            |i: int| (self.players[i].player.pid, status_msg(self.players[i].player, self.state)),
        )
    }

    /// `m` is a full snapshot of this room.
    pub open spec fn is_snapshot(self, m: WsMsg) -> bool {
        match m {
            WsMsg::GameState { state, categories, players, current_question, current_buzzer } => {
                &&& state == self.state
                &&& board_of(categories@) == self.board
                &&& players@ == roster(self.players)
                &&& current_question == self.current_question
                &&& current_buzzer == self.current_buzzer
            },
            _ => false,
        }
    }
}

impl RoomResponse {
    /// This response announces room `v`: the host gets `notices` and then a
    /// snapshot, every player the snapshot, each player its own state.
    pub open spec fn announces(self, v: RoomView, notices: Seq<WsMsg>) -> bool {
        &&& self.messages_to_host@.len() == notices.len() + 1
        &&& self.messages_to_host@.subrange(0, notices.len() as int) == notices
        &&& v.is_snapshot(self.messages_to_host@.last())
        &&& self.messages_to_players@.len() == 1
        &&& v.is_snapshot(self.messages_to_players@[0])
        &&& self.messages_to_specific@ == v.statuses()
    }
}

/// One game session.
pub struct Room {
    pub code: String,
    pub host_token: String,
    pub state: GameState,
    pub host: Option<HostEntry>,
    pub players: Vec<PlayerEntry>,
    pub categories: Vec<Category>,
    /// `(category index, question index)` of the open question.
    pub current_question: Option<(usize, usize)>,
    pub current_buzzer: Option<PlayerId>,
    pub last_activity: UnixMs,
}

impl View for Room {
    type V = RoomView;

    open spec fn view(&self) -> RoomView {
        RoomView {
            code: self.code@,
            host_token: self.host_token@,
            state: self.state,
            host: self.host,
            players: self.players@.map_values(|e: PlayerEntry| e@),
            board: board_of(self.categories@),
            current_question: self.current_question,
            current_buzzer: self.current_buzzer,
            last_activity: self.last_activity,
        }
    }
}

/// The abstract content of a list of player entries.
pub open spec fn entries_view(players: Seq<PlayerEntry>) -> Seq<PlayerEntryView> {
    players.map_values(|e: PlayerEntry| e@)
}

/// Position of the first entry whose player has id `pid`.
pub fn find_player(players: &Vec<PlayerEntry>, pid: PlayerId) -> (r: Option<usize>)
    ensures
        match r {
            Some(i) => position_of(entries_view(players@), pid) == Some(i as int),
            None => position_of(entries_view(players@), pid).is_none(),
        },
{
    let ghost pv = entries_view(players@);
    let mut i: usize = 0;
    while i < players.len()
        invariant
            pv == entries_view(players@),
            0 <= i <= players@.len(),
            forall|j: int| 0 <= j < i ==> pv[j].player.pid != pid,
        decreases players@.len() - i,
    {
        if players[i].player.pid == pid {
            proof {
                assert(is_first_with_pid(pv, pid, i as int));
                let k = choose|k: int| is_first_with_pid(pv, pid, k);
                assert(k == i as int);
            }
            return Some(i);
        }
        i += 1;
    }
    assert(!exists|k: int| is_first_with_pid(pv, pid, k));
    None
}

/// Clears every player's buzz.
fn clear_buzzes(players: &mut Vec<PlayerEntry>)
    ensures
        entries_view(final(players)@) == buzzes_cleared(entries_view(old(players)@)),
{
    let n = players.len();
    let mut i: usize = 0;
    while i < n
        invariant
            n == old(players)@.len(),
            players@.len() == n,
            0 <= i <= n,
            forall|j: int| 0 <= j < i ==> #[trigger] players@[j]@ == (PlayerEntryView {
                player: Player { buzzed: false, ..old(players)@[j].player },
                ..old(players)@[j]@
            }),
            forall|j: int| i <= j < n ==> #[trigger] players@[j] == old(players)@[j],
        decreases n - i,
    {
        players[i].player.buzzed = false;
        i += 1;
    }
    assert(entries_view(players@) =~= buzzes_cleared(entries_view(old(players)@)));
}

/// Whether some player has not buzzed on the current question.
fn someone_unbuzzed(players: &Vec<PlayerEntry>) -> (r: bool)
    ensures
        r == any_unbuzzed(entries_view(players@)),
{
    let ghost pv = entries_view(players@);
    let mut i: usize = 0;
    while i < players.len()
        invariant
            pv == entries_view(players@),
            0 <= i <= players@.len(),
            forall|j: int| 0 <= j < i ==> pv[j].player.buzzed,
        decreases players@.len() - i,
    {
        if !players[i].player.buzzed {
            assert(0 <= i < pv.len() && !pv[i as int].player.buzzed);
            return true;
        }
        i += 1;
    }
    false
}

/// A score after a judged answer, held within the range of an `i32`.
pub fn adjust_score(score: i32, value: u32, correct: bool) -> (r: i32)
    ensures
        r == adjusted_score(score, value, correct),
{
    let x: i64 = if correct {
        score as i64 + value as i64
    } else {
        score as i64 - value as i64
    };
    if x < i32::MIN as i64 {
        i32::MIN
    } else if x > i32::MAX as i64 {
        i32::MAX
    } else {
        x as i32
    }
}

/// Whether two strings hold the same characters.
fn same_text(a: &str, b: &str) -> (r: bool)
    ensures
        r == (a@ == b@),
{
    let n = a.unicode_len();
    if n != b.unicode_len() {
        return false;
    }
    let mut i: usize = 0;
    while i < n
        invariant
            n == a@.len(),
            n == b@.len(),
            0 <= i <= n,
            forall|j: int| 0 <= j < i ==> a@[j] == b@[j],
        decreases n - i,
    {
        if a.get_char(i) != b.get_char(i) {
            return false;
        }
        i += 1;
    }
    assert(a@ =~= b@);
    true
}

impl Room {
    /// A room in its starting phase, with no host, players or questions.
    pub fn new(code: String, host_token: String) -> (r: Self)
        ensures
            r@ == (RoomView {
                code: code@,
                host_token: host_token@,
                state: GameState::Start,
                host: None,
                players: Seq::empty(),
                board: Seq::empty(),
                current_question: None,
                current_buzzer: None,
                last_activity: 0,
            }),
    {
        let r = Room {
            code,
            host_token,
            state: GameState::Start,
            host: None,
            players: Vec::new(),
            categories: Vec::new(),
            current_question: None,
            current_buzzer: None,
            last_activity: 0,
        };
        assert(r@.players =~= Seq::empty());
        assert(r@.board =~= Seq::empty());
        r
    }

    pub fn code(&self) -> (r: &str)
        ensures
            r@ == self.code@,
    {
        self.code.as_str()
    }

    pub fn host_token(&self) -> (r: &str)
        ensures
            r@ == self.host_token@,
    {
        self.host_token.as_str()
    }

    /// Binds the host connection, replacing any earlier one.
    pub fn set_host(&mut self, host: HostEntry)
        ensures
            final(self)@ == (RoomView { host: Some(host), ..old(self)@ }),
    {
        self.host = Some(host);
    }

    /// Whether `token` is the host's secret.
    pub fn verify_host_token(&self, token: &str) -> (r: bool)
        ensures
            r == (self.host_token@ == token@),
    {
        same_text(self.host_token.as_str(), token)
    }

    /// Records activity at time `now`.
    pub fn touch(&mut self, now: UnixMs)
        ensures
            final(self)@ == (RoomView { last_activity: now, ..old(self)@ }),
    {
        self.last_activity = now;
    }

    /// Full snapshot of the room.
    pub fn build_game_state_msg(&self) -> (r: WsMsg)
        ensures
            self@.is_snapshot(r),
    {
        let mut players: Vec<Player> = Vec::new();
        let mut i: usize = 0;
        while i < self.players.len()
            invariant
                0 <= i <= self.players@.len(),
                players@.len() == i,
                forall|j: int| 0 <= j < i ==> players@[j] == self.players@[j].player,
            decreases self.players@.len() - i,
        {
            players.push(self.players[i].player.clone());
            i += 1;
        }
        assert(players@ =~= roster(self@.players));
        let categories = self.categories.clone();
        assert(board_of(categories@) =~= board_of(self.categories@));
        WsMsg::GameState {
            state: self.state,
            categories,
            players,
            current_question: self.current_question,
            current_buzzer: self.current_buzzer,
        }
    }

    /// Personal state of the first player with id `player_id`.
    pub fn build_player_state_msg(&self, player_id: PlayerId) -> (r: Option<WsMsg>)
        ensures
            match position_of(self@.players, player_id) {
                Some(i) => r == Some(status_msg(self@.players[i].player, self.state)),
                None => r.is_none(),
            },
    {
        match find_player(&self.players, player_id) {
            Some(i) => {
                let p = &self.players[i].player;
                Some(
                    WsMsg::PlayerState {
                        pid: p.pid,
                        buzzed: p.buzzed,
                        score: p.score,
                        can_buzz: self.state == GameState::WaitingForBuzz && !p.buzzed,
                    },
                )
            },
            None => None,
        }
    }

    /// Each player's personal state, addressed to that player.
    pub fn build_all_player_states(&self) -> (r: RoomResponse)
        ensures
            r.messages_to_host@.len() == 0,
            r.messages_to_players@.len() == 0,
            r.messages_to_specific@ == self@.statuses(),
    {
        let mut response = RoomResponse::new();
        let mut i: usize = 0;
        while i < self.players.len()
            invariant
                0 <= i <= self.players@.len(),
                response.messages_to_host@.len() == 0,
                response.messages_to_players@.len() == 0,
                response.messages_to_specific@ == self@.statuses().subrange(0, i as int),
            decreases self.players@.len() - i,
        {
            let p = &self.players[i].player;
            let msg = WsMsg::PlayerState {
                pid: p.pid,
                buzzed: p.buzzed,
                score: p.score,
                can_buzz: self.state == GameState::WaitingForBuzz && !p.buzzed,
            };
            response.messages_to_specific.push((p.pid, msg));
            i += 1;
            assert(response.messages_to_specific@ =~= self@.statuses().subrange(0, i as int));
        }
        assert(self@.statuses().subrange(0, i as int) =~= self@.statuses());
        response
    }

    /// The announcement of the room as it stands.
    fn announce(&self) -> (r: RoomResponse)
        ensures
            r.announces(self@, Seq::empty()),
    {
        let r = RoomResponse::broadcast_state(self.build_game_state_msg()).merge(
            self.build_all_player_states(),
        );
        assert(r.messages_to_host@.subrange(0, 0) =~= Seq::<WsMsg>::empty());
        r
    }

    /// Whether some question of the board is still unanswered.
    pub fn has_remaining_questions(&self) -> (r: bool)
        ensures
            r == any_unanswered(self@.board),
    {
        let ghost board = self@.board;
        let mut c: usize = 0;
        while c < self.categories.len()
            invariant
                board == self@.board,
                0 <= c <= self.categories@.len(),
                forall|c2: int, q2: int| 0 <= c2 < c ==> !is_open_question(board, c2, q2),
            decreases self.categories@.len() - c,
        {
            let questions = &self.categories[c].questions;
            let mut q: usize = 0;
            while q < questions.len()
                invariant
                    board == self@.board,
                    0 <= c < self.categories@.len(),
                    questions@ == board[c as int].questions,
                    0 <= q <= questions@.len(),
                    forall|c2: int, q2: int| 0 <= c2 < c ==> !is_open_question(board, c2, q2),
                    forall|q2: int| 0 <= q2 < q ==> !is_open_question(board, c as int, q2),
                decreases questions@.len() - q,
            {
                if !questions[q].answered {
                    assert(is_open_question(board, c as int, q as int));
                    return true;
                }
                q += 1;
            }
            c += 1;
        }
        false
    }

    /// Closes the open question `(c, q)`.
    fn close_question(&mut self, c: usize, q: usize)
        requires
            has_question(old(self)@.board, c as int, q as int),
        ensures
            final(self)@ == old(self)@.question_closed(c as int, q as int),
    {
        self.categories[c].questions[q].answered = true;
        assert(self@.board =~= mark_answered(old(self)@.board, c as int, q as int));
        self.current_question = None;
        self.current_buzzer = None;
        self.state = if self.has_remaining_questions() {
            GameState::Selection
        } else {
            GameState::GameEnd
        };
    }

    /// The host's verdict on the open question: the buzzer's score moves by
    /// the question's value; a correct answer, or a wrong one that leaves
    /// nobody to buzz, closes the question; otherwise the room waits for
    /// another buzz.
    fn handle_host_checked(&mut self, correct: bool) -> (r: RoomResponse)
        ensures
            final(self)@ == old(self)@.judged(correct),
            old(self)@.judges() ==> r.announces(final(self)@, Seq::empty()),
            !old(self)@.judges() ==> r.is_empty(),
    {
        let (c, q) = match self.current_question {
            Some(cq) => cq,
            None => {
                return RoomResponse::new();
            },
        };
        if c >= self.categories.len() || q >= self.categories[c].questions.len() {
            return RoomResponse::new();
        }
        let value = self.categories[c].questions[q].value;
        if let Some(buzzer_id) = self.current_buzzer {
            if let Some(i) = find_player(&self.players, buzzer_id) {
                let score = adjust_score(self.players[i].player.score, value, correct);
                self.players[i].player.score = score;
                assert(self@.players =~= with_player(
                    old(self)@.players,
                    i as int,
                    Player { score, ..old(self)@.players[i as int].player },
                ));
            }
        }
        let any_can_buzz = someone_unbuzzed(&self.players);
        if correct || !any_can_buzz {
            self.close_question(c, q);
        } else {
            self.current_buzzer = None;
            self.state = GameState::WaitingForBuzz;
        }
        self.announce()
    }

    /// Applies one game message from `sender_id` (`None` for the host) and
    /// returns what to tell whom. Messages that do not apply in the current
    /// phase, or that address nothing, change nothing and produce nothing.
    pub fn handle_message(&mut self, msg: &WsMsg, sender_id: Option<PlayerId>) -> (r: RoomResponse)
        ensures
            final(self)@ == old(self)@.step(*msg, sender_id),
            old(self)@.announces(*msg, sender_id) ==> r.announces(
                final(self)@,
                old(self)@.notices(*msg, sender_id),
            ),
            !old(self)@.announces(*msg, sender_id) ==> r.is_empty(),
    {
        match msg {
            WsMsg::StartGame {} => {
                self.state = GameState::Selection;
                self.current_question = None;
                self.current_buzzer = None;
                self.announce()
            },
            WsMsg::HostChoice { category_index, question_index } => {
                let c = *category_index;
                let q = *question_index;
                if c >= self.categories.len() || q >= self.categories[c].questions.len()
                    || self.categories[c].questions[q].answered {
                    return RoomResponse::new();
                }
                self.current_question = Some((c, q));
                self.current_buzzer = None;
                clear_buzzes(&mut self.players);
                self.state = GameState::QuestionReading;
                self.announce()
            },
            WsMsg::HostReady {} => {
                if self.state != GameState::QuestionReading {
                    return RoomResponse::new();
                }
                self.state = GameState::WaitingForBuzz;
                self.announce()
            },
            WsMsg::Buzz {} => {
                if self.state != GameState::WaitingForBuzz {
                    return RoomResponse::new();
                }
                let player_id = match sender_id {
                    Some(pid) => pid,
                    None => {
                        return RoomResponse::new();
                    },
                };
                let i = match find_player(&self.players, player_id) {
                    Some(i) => i,
                    None => {
                        return RoomResponse::new();
                    },
                };
                if self.players[i].player.buzzed {
                    return RoomResponse::new();
                }
                self.players[i].player.buzzed = true;
                assert(self@.players =~= with_player(
                    old(self)@.players,
                    i as int,
                    Player { buzzed: true, ..old(self)@.players[i as int].player },
                ));
                self.current_buzzer = Some(player_id);
                self.state = GameState::Answer;
                let buzzed_msg = WsMsg::Buzzed {
                    pid: player_id,
                    name: self.players[i].player.name.clone(),
                };
                let r = RoomResponse::to_host(buzzed_msg).merge(self.announce());
                assert(r.messages_to_host@.subrange(0, 1) =~= old(self)@.notices(*msg, sender_id));
                r
            },
            WsMsg::HostChecked { correct } => self.handle_host_checked(*correct),
            WsMsg::EndGame {} => {
                self.state = GameState::GameEnd;
                self.current_question = None;
                self.current_buzzer = None;
                self.announce()
            },
            WsMsg::Heartbeat { hbid, t_dohb_recv } => {
                if let Some(pid) = sender_id {
                    if let Some(i) = find_player(&self.players, pid) {
                        self.players[i].on_know_dohb_recv(*hbid, *t_dohb_recv);
                        assert(self@.players =~= with_tracker(
                            old(self)@.players,
                            i as int,
                            old(self)@.players[i as int].tracker.acknowledged(*hbid, *t_dohb_recv),
                        ));
                    }
                }
                RoomResponse::new()
            },
            WsMsg::LatencyOfHeartbeat { hbid, t_lat } => {
                if let Some(pid) = sender_id {
                    if let Some(i) = find_player(&self.players, pid) {
                        if *t_lat <= u32::MAX as u64 {
                            self.players[i].on_latencyhb(*hbid, *t_lat as u32);
                            assert(self@.players =~= with_tracker(
                                old(self)@.players,
                                i as int,
                                old(self)@.players[i as int].tracker.closed(*hbid, *t_lat as u32),
                            ));
                        }
                    }
                }
                RoomResponse::new()
            },
            _ => RoomResponse::new(),
        }
    }
}

} // verus!