//! Properties of the room state machine, the connection layer and the
//! latency tracker, stated over the same models their operations use.
use vstd::prelude::*;

use crate::game::{
    any_unanswered, any_unbuzzed, has_question, is_first_with_pid, is_open_question, position_of,
    GameState, RoomView,
};
use crate::latency::{forward_delay, one_way_latency, TrackerView, WINDOW_LEN};
use crate::player::{Outbox, PlayerEntryView, PlayerId};
use crate::session::{text_of, Connection, ConnectError, Handshake};
use crate::ws_msg::WsMsg;

verus! {

/// A question is open exactly while the room reads it, waits for a buzz on
/// it, or hears an answer to it; every message keeps this so.
pub proof fn lemma_step_keeps_consistency(r: RoomView, msg: WsMsg, sender: Option<PlayerId>)
    requires
        r.consistent(),
    ensures
        r.step(msg, sender).consistent(),
{
}

/// Once answered, a question stays answered, whatever message comes.
pub proof fn lemma_answered_stays_answered(r: RoomView, msg: WsMsg, sender: Option<PlayerId>, c: int, q: int)
    requires
        has_question(r.board, c, q),
        r.board[c].questions[q].answered,
    ensures
        has_question(r.step(msg, sender).board, c, q),
        r.step(msg, sender).board[c].questions[q].answered,
{
}

/// The room after each message of `script` in turn, with its sender.
pub open spec fn run(r: RoomView, script: Seq<(WsMsg, Option<PlayerId>)>) -> RoomView
    decreases script.len(),
{
    if script.len() == 0 {
        r
    } else {
        run(r, script.drop_last()).step(script.last().0, script.last().1)
    }
}

/// The open question matches the phase after any sequence of messages.
pub proof fn lemma_run_keeps_consistency(r: RoomView, script: Seq<(WsMsg, Option<PlayerId>)>)
    requires
        r.consistent(),
    ensures
        run(r, script).consistent(),
    decreases script.len(),
{
    if script.len() > 0 {
        lemma_run_keeps_consistency(r, script.drop_last());
        lemma_step_keeps_consistency(run(r, script.drop_last()), script.last().0, script.last().1);
    }
}

/// An answered question stays answered after any sequence of messages.
pub proof fn lemma_run_never_reopens(r: RoomView, script: Seq<(WsMsg, Option<PlayerId>)>, c: int, q: int)
    requires
        has_question(r.board, c, q),
        r.board[c].questions[q].answered,
    ensures
        has_question(run(r, script).board, c, q),
        run(r, script).board[c].questions[q].answered,
    decreases script.len(),
{
    if script.len() > 0 {
        lemma_run_never_reopens(r, script.drop_last(), c, q);
        lemma_answered_stays_answered(run(r, script.drop_last()), script.last().0, script.last().1, c, q);
    }
}

/// Choosing an open question clears every player's buzz and the buzzer,
/// whatever was buzzed before.
pub proof fn lemma_choice_clears_buzzes(r: RoomView, c: usize, q: usize, sender: Option<PlayerId>)
    requires
        is_open_question(r.board, c as int, q as int),
    ensures
        ({
            let next = r.step(WsMsg::HostChoice { category_index: c, question_index: q }, sender);
            &&& next.players.len() == r.players.len()
            &&& forall|i: int| 0 <= i < next.players.len() ==> !(#[trigger] next.players[i]).player.buzzed
            &&& next.current_buzzer.is_none()
        }),
{
}

/// A player who has buzzed on the current question cannot buzz again: the
/// second buzz changes nothing and announces nothing.
pub proof fn lemma_buzzed_player_buzz_is_noop(r: RoomView, pid: PlayerId, i: int)
    requires
        position_of(r.players, pid) == Some(i),
        r.players[i].player.buzzed,
    ensures
        r.step(WsMsg::Buzz {}, Some(pid)) == r,
        !r.announces(WsMsg::Buzz {}, Some(pid)),
{
}

/// A buzz stays on record until the next question is chosen: no other
/// message clears it or moves the players.
pub proof fn lemma_buzz_lasts_until_choice(r: RoomView, msg: WsMsg, sender: Option<PlayerId>, i: int)
    requires
        !(msg is HostChoice),
        0 <= i < r.players.len(),
        r.players[i].player.buzzed,
    ensures
        r.step(msg, sender).players.len() == r.players.len(),
        r.step(msg, sender).players[i].player.buzzed,
        forall|j: int|
            0 <= j < r.players.len() ==> (#[trigger] r.step(msg, sender).players[j]).player.pid
                == r.players[j].player.pid,
{
}

/// The first position of an id depends on the players' ids alone.
proof fn lemma_position_by_ids(a: Seq<PlayerEntryView>, b: Seq<PlayerEntryView>, pid: PlayerId)
    requires
        a.len() == b.len(),
        forall|j: int| 0 <= j < a.len() ==> (#[trigger] a[j]).player.pid == b[j].player.pid,
    ensures
        position_of(a, pid) == position_of(b, pid),
{
    if exists|i: int| is_first_with_pid(a, pid, i) {
        let i = choose|i: int| is_first_with_pid(a, pid, i);
        assert forall|j: int| 0 <= j < i implies b[j].player.pid != pid by {
            assert(a[j].player.pid == b[j].player.pid);
        }
        assert(is_first_with_pid(b, pid, i));
        let k = choose|k: int| is_first_with_pid(b, pid, k);
        assert(k == i);
    } else {
        assert forall|i: int| !is_first_with_pid(b, pid, i) by {
            if is_first_with_pid(b, pid, i) {
                assert forall|j: int| 0 <= j < i implies a[j].player.pid != pid by {
                    assert(a[j].player.pid == b[j].player.pid);
                }
                assert(is_first_with_pid(a, pid, i));
            }
        }
    }
}

/// After a player's buzz, any messages without a new question choice leave
/// that player unable to buzz again: the buzz changes nothing.
pub proof fn lemma_no_second_buzz_before_choice(
    r: RoomView,
    script: Seq<(WsMsg, Option<PlayerId>)>,
    pid: PlayerId,
    i: int,
)
    requires
        position_of(r.players, pid) == Some(i),
        r.players[i].player.buzzed,
        forall|k: int| 0 <= k < script.len() ==> !((#[trigger] script[k]).0 is HostChoice),
    ensures
        run(r, script).step(WsMsg::Buzz {}, Some(pid)) == run(r, script),
{
    lemma_run_keeps_buzz(r, script, i);
    lemma_position_by_ids(r.players, run(r, script).players, pid);
    lemma_buzzed_player_buzz_is_noop(run(r, script), pid, i);
}

proof fn lemma_run_keeps_buzz(r: RoomView, script: Seq<(WsMsg, Option<PlayerId>)>, i: int)
    requires
        0 <= i < r.players.len(),
        r.players[i].player.buzzed,
        forall|k: int| 0 <= k < script.len() ==> !((#[trigger] script[k]).0 is HostChoice),
    ensures
        run(r, script).players.len() == r.players.len(),
        run(r, script).players[i].player.buzzed,
        forall|j: int|
            0 <= j < r.players.len() ==> (#[trigger] run(r, script).players[j]).player.pid
                == r.players[j].player.pid,
    decreases script.len(),
{
    if script.len() > 0 {
        let prefix = script.drop_last();
        assert forall|k: int| 0 <= k < prefix.len() implies !((#[trigger] prefix[k]).0 is HostChoice) by {
            assert(prefix[k] == script[k]);
        }
        lemma_run_keeps_buzz(r, prefix, i);
        assert(!(script[script.len() - 1].0 is HostChoice));
        lemma_buzz_lasts_until_choice(run(r, prefix), script.last().0, script.last().1, i);
    }
}

/// Buzzing twice in a row is buzzing once.
pub proof fn lemma_double_buzz(r: RoomView, pid: PlayerId)
    ensures
        r.step(WsMsg::Buzz {}, Some(pid)).step(WsMsg::Buzz {}, Some(pid)) == r.step(
            WsMsg::Buzz {},
            Some(pid),
        ),
{
    let s = r.step(WsMsg::Buzz {}, Some(pid));
    if let Some(i) = r.buzz_position(Some(pid)) {
        assert(s.state == GameState::Answer);
    }
}

/// A correct answer raises the buzzer's score by the question's value,
/// closes the question, and moves to selection while any question remains,
/// else ends the game.
pub proof fn lemma_correct_answer(r: RoomView, c: usize, q: usize, pid: PlayerId, i: int)
    requires
        r.current_question == Some((c, q)),
        has_question(r.board, c as int, q as int),
        r.current_buzzer == Some(pid),
        position_of(r.players, pid) == Some(i),
        r.players[i].player.score + r.board[c as int].questions[q as int].value <= i32::MAX,
    ensures
        ({
            let next = r.step(WsMsg::HostChecked { correct: true }, None);
            &&& next.players[i].player.score == r.players[i].player.score
                + r.board[c as int].questions[q as int].value
            &&& next.board[c as int].questions[q as int].answered
            &&& next.state == if any_unanswered(next.board) {
                GameState::Selection
            } else {
                GameState::GameEnd
            }
            &&& next.current_question.is_none()
            &&& next.current_buzzer.is_none()
        }),
{
}

/// A wrong answer while some player has not buzzed lowers the buzzer's
/// score by the value and reopens buzzing on the same question.
pub proof fn lemma_wrong_answer_reopens(r: RoomView, c: usize, q: usize, pid: PlayerId, i: int)
    requires
        r.current_question == Some((c, q)),
        has_question(r.board, c as int, q as int),
        r.current_buzzer == Some(pid),
        position_of(r.players, pid) == Some(i),
        any_unbuzzed(r.players),
        r.players[i].player.score - r.board[c as int].questions[q as int].value >= i32::MIN,
    ensures
        ({
            let next = r.step(WsMsg::HostChecked { correct: false }, None);
            &&& next.players[i].player.score == r.players[i].player.score
                - r.board[c as int].questions[q as int].value
            &&& next.board == r.board
            &&& next.state == GameState::WaitingForBuzz
            &&& next.current_question == r.current_question
            &&& next.current_buzzer.is_none()
        }),
{
    let next = r.step(WsMsg::HostChecked { correct: false }, None);
    let k = choose|k: int| 0 <= k < r.players.len() && !r.players[k].player.buzzed;
    assert(0 <= k < next.players.len() && !next.players[k].player.buzzed);
}

/// A wrong answer when every player has buzzed lowers the buzzer's score
/// by the value and closes the question as a correct answer would.
pub proof fn lemma_wrong_answer_closes(r: RoomView, c: usize, q: usize, pid: PlayerId, i: int)
    requires
        r.current_question == Some((c, q)),
        has_question(r.board, c as int, q as int),
        r.current_buzzer == Some(pid),
        position_of(r.players, pid) == Some(i),
        !any_unbuzzed(r.players),
        r.players[i].player.score - r.board[c as int].questions[q as int].value >= i32::MIN,
    ensures
        ({
            let next = r.step(WsMsg::HostChecked { correct: false }, None);
            &&& next.players[i].player.score == r.players[i].player.score
                - r.board[c as int].questions[q as int].value
            &&& next.board[c as int].questions[q as int].answered
            &&& next.state == if any_unanswered(next.board) {
                GameState::Selection
            } else {
                GameState::GameEnd
            }
            &&& next.current_question.is_none()
            &&& next.current_buzzer.is_none()
        }),
{
    let next = r.step(WsMsg::HostChecked { correct: false }, None);
    assert forall|k: int| 0 <= k < next.players.len() implies next.players[k].player.buzzed by {
        assert(r.players[k].player.buzzed);
    }
}

/// Reconnecting with a player's credentials keeps that player's id, name,
/// score and buzz exactly, and never announces a new player.
pub proof fn lemma_rejoin_keeps_player(
    r: RoomView,
    next: RoomView,
    res: Result<Connection, ConnectError>,
    player_name: Option<String>,
    token: Option<String>,
    pid: Option<PlayerId>,
    sender: Outbox,
    fresh: String,
    i: usize,
)
    requires
        r.handshake(player_name.is_some(), text_of(token), pid) == Ok::<Handshake, ConnectError>(
            Handshake::Rejoin(i),
        ),
        r.connected(next, res, player_name, token, pid, sender, fresh),
    ensures
        next.players.len() == r.players.len(),
        next.players[i as int].player == r.players[i as int].player,
        res matches Ok(conn) && {
            &&& forall|k: int|
                0 <= k < conn.response.messages_to_specific@.len() ==> !((
                #[trigger] conn.response.messages_to_specific@[k]).1 is NewPlayer)
            &&& forall|k: int|
                0 <= k < conn.response.messages_to_host@.len() ==> !(
                #[trigger] conn.response.messages_to_host@[k] is NewPlayer)
        },
{
}

/// A latency report on an acknowledged probe pushes one sample into the
/// window: the oldest sample leaves, the others keep their order, the new
/// one comes last, and the window keeps its size.
pub proof fn lemma_report_shifts_window(t: TrackerView, hbid: u32, t_lat: u32)
    requires
        t.window.len() == WINDOW_LEN,
        t.closes(hbid),
    ensures
        t.closed(hbid, t_lat).window.len() == WINDOW_LEN,
        t.closed(hbid, t_lat).window.last() == one_way_latency(
            t_lat,
            forward_delay(t.pending[hbid]).unwrap(),
        ),
        t.closed(hbid, t_lat).window.subrange(0, WINDOW_LEN - 1) == t.window.subrange(
            1,
            WINDOW_LEN as int,
        ),
        !t.closed(hbid, t_lat).pending.contains_key(hbid),
{
    assert(t.closed(hbid, t_lat).window.subrange(0, WINDOW_LEN - 1) =~= t.window.subrange(
        1,
        WINDOW_LEN as int,
    ));
}

/// A latency report for a probe that is not in flight leaves the tracker,
/// and so the window, unchanged.
pub proof fn lemma_unknown_report_ignored(t: TrackerView, hbid: u32, t_lat: u32)
    requires
        !t.pending.contains_key(hbid),
    ensures
        t.closed(hbid, t_lat) == t,
{
}

} // verus!
