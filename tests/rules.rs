use madhacks2025::game::{adjust_score, Category, GameState, Question, Room};
use madhacks2025::player::{Player, PlayerEntry};
use madhacks2025::ws_msg::WsMsg;

fn question(value: u32) -> Question {
    Question {
        question: format!("Worth {}", value),
        answer: "yes".to_string(),
        value,
        answered: false,
    }
}

fn room_with(values: &[u32]) -> Room {
    let mut room = Room::new("ROOM".to_string(), "hosttoken".to_string());
    room.categories = vec![Category {
        title: "Category".to_string(),
        questions: values.iter().map(|v| question(*v)).collect(),
    }];
    room
}

fn add_player(room: &mut Room, pid: u32, name: &str) {
    let (tx, _rx) = tokio_mpmc::channel(10);
    room.players.push(PlayerEntry::new(
        Player::new(pid, name.to_string(), 0, false, format!("tok{}", pid)),
        tx,
    ));
}

fn is_consistent(room: &Room) -> bool {
    room.current_question.is_some()
        == matches!(
            room.state,
            GameState::QuestionReading | GameState::WaitingForBuzz | GameState::Answer
        )
}

fn pick(room: &mut Room, c: usize, q: usize) {
    room.handle_message(
        &WsMsg::HostChoice {
            category_index: c,
            question_index: q,
        },
        None,
    );
}

#[test]
fn end_to_end_two_questions_single_player() {
    let mut room = room_with(&[100, 200]);
    add_player(&mut room, 1, "P");

    room.handle_message(&WsMsg::StartGame {}, None);
    assert_eq!(room.state, GameState::Selection);
    pick(&mut room, 0, 0);
    assert_eq!(room.state, GameState::QuestionReading);
    room.handle_message(&WsMsg::HostReady {}, None);
    assert_eq!(room.state, GameState::WaitingForBuzz);
    room.handle_message(&WsMsg::Buzz {}, Some(1));
    assert_eq!(room.state, GameState::Answer);
    room.handle_message(&WsMsg::HostChecked { correct: true }, None);
    assert_eq!(room.players[0].player.score, 100);
    assert_eq!(room.state, GameState::Selection);
    assert!(room.categories[0].questions[0].answered);

    pick(&mut room, 0, 1);
    room.handle_message(&WsMsg::HostReady {}, None);
    room.handle_message(&WsMsg::Buzz {}, Some(1));
    room.handle_message(&WsMsg::HostChecked { correct: false }, None);
    assert_eq!(room.players[0].player.score, -100);
    assert_eq!(room.state, GameState::GameEnd);
    assert!(room.categories[0].questions[1].answered);
    assert_eq!(room.current_question, None);
    assert_eq!(room.current_buzzer, None);
}

#[test]
fn open_question_matches_phase_through_a_game() {
    let mut room = room_with(&[100, 200]);
    add_player(&mut room, 1, "A");
    add_player(&mut room, 2, "B");
    let script: Vec<(WsMsg, Option<u32>)> = vec![
        (WsMsg::StartGame {}, None),
        (WsMsg::HostReady {}, None),
        (WsMsg::HostChoice { category_index: 0, question_index: 1 }, None),
        (WsMsg::HostReady {}, None),
        (WsMsg::Buzz {}, Some(2)),
        (WsMsg::HostChecked { correct: false }, None),
        (WsMsg::Buzz {}, Some(1)),
        (WsMsg::HostChecked { correct: true }, None),
        (WsMsg::HostChecked { correct: true }, None),
        (WsMsg::EndGame {}, None),
    ];
    assert!(is_consistent(&room));
    for (msg, sender) in script {
        room.handle_message(&msg, sender);
        assert!(is_consistent(&room));
    }
    assert_eq!(room.state, GameState::GameEnd);
    assert_eq!(room.players[0].player.score, 200);
    assert_eq!(room.players[1].player.score, -200);
}

#[test]
fn host_ready_outside_reading_is_ignored() {
    let mut room = room_with(&[100]);
    room.handle_message(&WsMsg::StartGame {}, None);
    let r = room.handle_message(&WsMsg::HostReady {}, None);
    assert_eq!(room.state, GameState::Selection);
    assert!(r.messages_to_host.is_empty());
    assert!(r.messages_to_players.is_empty());
    assert!(r.messages_to_specific.is_empty());
}

#[test]
fn answered_question_cannot_be_chosen_again() {
    let mut room = room_with(&[100, 200]);
    room.state = GameState::Selection;
    room.categories[0].questions[0].answered = true;
    let r = room.handle_message(
        &WsMsg::HostChoice {
            category_index: 0,
            question_index: 0,
        },
        None,
    );
    assert!(room.categories[0].questions[0].answered);
    assert_eq!(room.state, GameState::Selection);
    assert_eq!(room.current_question, None);
    assert!(r.messages_to_host.is_empty());
}

#[test]
fn out_of_range_choice_is_ignored() {
    let mut room = room_with(&[100]);
    room.state = GameState::Selection;
    for (c, q) in [(0usize, 1usize), (1, 0)] {
        let r = room.handle_message(
            &WsMsg::HostChoice {
                category_index: c,
                question_index: q,
            },
            None,
        );
        assert_eq!(room.state, GameState::Selection);
        assert!(r.messages_to_host.is_empty() && r.messages_to_specific.is_empty());
    }
}

#[test]
fn choice_clears_every_buzz() {
    let mut room = room_with(&[100, 200]);
    add_player(&mut room, 1, "A");
    add_player(&mut room, 2, "B");
    room.state = GameState::Answer;
    room.current_question = Some((0, 0));
    room.current_buzzer = Some(2);
    room.players[0].player.buzzed = true;
    room.players[1].player.buzzed = true;
    pick(&mut room, 0, 1);
    assert!(room.players.iter().all(|p| !p.player.buzzed));
    assert_eq!(room.current_buzzer, None);
    assert_eq!(room.current_question, Some((0, 1)));
}

#[test]
fn second_buzz_changes_nothing() {
    let mut room = room_with(&[100, 200]);
    add_player(&mut room, 1, "A");
    add_player(&mut room, 2, "B");
    pick(&mut room, 0, 0);
    room.handle_message(&WsMsg::HostReady {}, None);
    room.handle_message(&WsMsg::Buzz {}, Some(1));
    room.handle_message(&WsMsg::HostChecked { correct: false }, None);
    assert_eq!(room.state, GameState::WaitingForBuzz);
    let r = room.handle_message(&WsMsg::Buzz {}, Some(1));
    assert_eq!(room.state, GameState::WaitingForBuzz);
    assert_eq!(room.current_buzzer, None);
    assert_eq!(room.players[0].player.score, -100);
    assert!(r.messages_to_host.is_empty());
    assert!(r.messages_to_players.is_empty());
    assert!(r.messages_to_specific.is_empty());
}

#[test]
fn buzz_from_unknown_or_host_is_ignored() {
    let mut room = room_with(&[100]);
    add_player(&mut room, 1, "A");
    pick(&mut room, 0, 0);
    room.handle_message(&WsMsg::HostReady {}, None);
    room.handle_message(&WsMsg::Buzz {}, Some(9));
    assert_eq!(room.state, GameState::WaitingForBuzz);
    room.handle_message(&WsMsg::Buzz {}, None);
    assert_eq!(room.state, GameState::WaitingForBuzz);
}

#[test]
fn verdict_without_open_question_is_ignored() {
    let mut room = room_with(&[100]);
    add_player(&mut room, 1, "A");
    room.state = GameState::Selection;
    room.current_buzzer = Some(1);
    let r = room.handle_message(&WsMsg::HostChecked { correct: true }, None);
    assert_eq!(room.players[0].player.score, 0);
    assert_eq!(room.state, GameState::Selection);
    assert!(r.messages_to_host.is_empty());
}

#[test]
fn verdict_on_missing_question_is_ignored() {
    let mut room = room_with(&[100]);
    add_player(&mut room, 1, "A");
    room.state = GameState::Answer;
    room.current_question = Some((0, 5));
    room.current_buzzer = Some(1);
    let r = room.handle_message(&WsMsg::HostChecked { correct: true }, None);
    assert_eq!(room.players[0].player.score, 0);
    assert_eq!(room.state, GameState::Answer);
    assert!(r.messages_to_players.is_empty());
}

#[test]
fn start_game_announces_state_to_everyone() {
    let mut room = room_with(&[100]);
    add_player(&mut room, 1, "A");
    add_player(&mut room, 2, "B");
    let r = room.handle_message(&WsMsg::StartGame {}, None);
    assert_eq!(r.messages_to_host.len(), 1);
    assert_eq!(r.messages_to_players.len(), 1);
    match &r.messages_to_host[0] {
        WsMsg::GameState {
            state,
            categories,
            players,
            current_question,
            current_buzzer,
        } => {
            assert_eq!(*state, GameState::Selection);
            assert_eq!(categories.len(), 1);
            assert_eq!(categories[0].questions[0].value, 100);
            assert_eq!(players.len(), 2);
            assert_eq!(players[1].name, "B");
            assert_eq!(*current_question, None);
            assert_eq!(*current_buzzer, None);
        }
        other => panic!("unexpected {:?}", other),
    }
    assert_eq!(r.messages_to_specific.len(), 2);
    assert_eq!(r.messages_to_specific[0].0, 1);
    assert_eq!(r.messages_to_specific[1].0, 2);
    assert!(matches!(
        r.messages_to_specific[1].1,
        WsMsg::PlayerState {
            pid: 2,
            buzzed: false,
            score: 0,
            can_buzz: false
        }
    ));
}

#[test]
fn buzz_notifies_host_first() {
    let mut room = room_with(&[100]);
    add_player(&mut room, 1, "A");
    add_player(&mut room, 2, "B");
    pick(&mut room, 0, 0);
    let r = room.handle_message(&WsMsg::HostReady {}, None);
    assert!(matches!(
        r.messages_to_specific[0].1,
        WsMsg::PlayerState { can_buzz: true, .. }
    ));
    let r = room.handle_message(&WsMsg::Buzz {}, Some(2));
    assert_eq!(r.messages_to_host.len(), 2);
    match &r.messages_to_host[0] {
        WsMsg::Buzzed { pid, name } => {
            assert_eq!(*pid, 2);
            assert_eq!(name, "B");
        }
        other => panic!("unexpected {:?}", other),
    }
    assert!(matches!(r.messages_to_host[1], WsMsg::GameState { .. }));
    assert!(matches!(
        r.messages_to_specific[1].1,
        WsMsg::PlayerState {
            pid: 2,
            buzzed: true,
            can_buzz: false,
            ..
        }
    ));
}

#[test]
fn wrong_answer_with_others_left_reopens() {
    let mut room = room_with(&[300, 500]);
    add_player(&mut room, 1, "A");
    add_player(&mut room, 2, "B");
    pick(&mut room, 0, 1);
    room.handle_message(&WsMsg::HostReady {}, None);
    room.handle_message(&WsMsg::Buzz {}, Some(2));
    room.handle_message(&WsMsg::HostChecked { correct: false }, None);
    assert_eq!(room.players[1].player.score, -500);
    assert!(!room.categories[0].questions[1].answered);
    assert_eq!(room.state, GameState::WaitingForBuzz);
    assert_eq!(room.current_buzzer, None);
    assert_eq!(room.current_question, Some((0, 1)));
}

#[test]
fn wrong_answer_with_nobody_left_closes() {
    let mut room = room_with(&[300, 500]);
    add_player(&mut room, 1, "A");
    pick(&mut room, 0, 0);
    room.handle_message(&WsMsg::HostReady {}, None);
    room.handle_message(&WsMsg::Buzz {}, Some(1));
    room.handle_message(&WsMsg::HostChecked { correct: false }, None);
    assert_eq!(room.players[0].player.score, -300);
    assert!(room.categories[0].questions[0].answered);
    assert_eq!(room.state, GameState::Selection);
}

#[test]
fn end_game_closes_everything() {
    let mut room = room_with(&[100]);
    pick(&mut room, 0, 0);
    room.handle_message(&WsMsg::EndGame {}, None);
    assert_eq!(room.state, GameState::GameEnd);
    assert_eq!(room.current_question, None);
}

#[test]
fn scores_saturate_at_the_limits() {
    assert_eq!(adjust_score(10, 5, true), 15);
    assert_eq!(adjust_score(10, 25, false), -15);
    assert_eq!(adjust_score(i32::MAX - 1, 5, true), i32::MAX);
    assert_eq!(adjust_score(i32::MIN + 1, 5, false), i32::MIN);
    assert_eq!(adjust_score(0, u32::MAX, false), i32::MIN);
}

#[test]
fn remaining_questions_are_detected() {
    let mut room = room_with(&[100, 200]);
    assert!(room.has_remaining_questions());
    room.categories[0].questions[0].answered = true;
    assert!(room.has_remaining_questions());
    room.categories[0].questions[1].answered = true;
    assert!(!room.has_remaining_questions());
    let empty = Room::new("E".to_string(), "t".to_string());
    assert!(!empty.has_remaining_questions());
}

#[test]
fn host_token_check() {
    let room = Room::new("CODE".to_string(), "secret".to_string());
    assert!(room.verify_host_token("secret"));
    assert!(!room.verify_host_token("secreT"));
    assert!(!room.verify_host_token("secret2"));
    assert_eq!(room.code(), "CODE");
    assert_eq!(room.host_token(), "secret");
    assert_eq!(GameState::default(), GameState::Start);
}

#[test]
fn player_state_lookup() {
    let mut room = room_with(&[100]);
    add_player(&mut room, 4, "D");
    room.players[0].player.score = 70;
    assert!(matches!(
        room.build_player_state_msg(4),
        Some(WsMsg::PlayerState {
            pid: 4,
            score: 70,
            buzzed: false,
            can_buzz: false
        })
    ));
    assert!(room.build_player_state_msg(5).is_none());
}
