use madhacks2025::game::Room;
use madhacks2025::latency::TrackedMessageTime;
use madhacks2025::player::{Player, PlayerEntry};
use madhacks2025::ws_msg::WsMsg;

fn entry() -> PlayerEntry {
    let (tx, _rx) = tokio_mpmc::channel(10);
    PlayerEntry::new(Player::new(1, "A".to_string(), 0, false, "t".to_string()), tx)
}

fn probe(e: &mut PlayerEntry, hbid: u32, sent: u64, recv: u64, t_lat: u32) -> bool {
    e.record_dohb(hbid, sent);
    assert!(e.on_know_dohb_recv(hbid, recv));
    e.on_latencyhb(hbid, t_lat)
}

#[test]
fn estimate_is_mean_of_window() {
    let mut e = entry();
    assert_eq!(e.latency(), 0);
    assert!(probe(&mut e, 7, 1000, 1040, 100));
    assert_eq!(e.latency(), 12);
}

#[test]
fn oldest_sample_leaves_the_window() {
    let mut e = entry();
    for (k, lat) in [10u32, 20, 30, 40, 50, 60].iter().enumerate() {
        assert!(probe(&mut e, k as u32, 5000, 5000, *lat));
    }
    assert_eq!(e.latency(), 40);
    assert!(probe(&mut e, 99, 5000, 5000, 160));
    assert_eq!(e.latency(), 68);
}

#[test]
fn forward_delay_is_subtracted_and_floored() {
    let mut e = entry();
    assert!(probe(&mut e, 1, 100, 400, 250));
    assert_eq!(e.latency(), 0);
    assert!(probe(&mut e, 2, 100, 150, 550));
    assert_eq!(e.latency(), 100);
}

#[test]
fn unknown_heartbeat_leaves_window_unchanged() {
    let mut e = entry();
    assert!(probe(&mut e, 1, 0, 0, 50));
    assert!(!e.on_latencyhb(42, 500));
    assert!(!e.on_know_dohb_recv(42, 10));
    assert_eq!(e.latency(), 10);
}

#[test]
fn unacknowledged_heartbeat_is_not_closed() {
    let mut e = entry();
    e.record_dohb(3, 1000);
    assert!(!e.on_latencyhb(3, 500));
    assert_eq!(e.latency(), 0);
    assert!(e.on_know_dohb_recv(3, 1010));
    assert!(e.on_latencyhb(3, 510));
    assert_eq!(e.latency(), 100);
    assert!(!e.on_latencyhb(3, 510));
}

#[test]
fn heartbeat_ids_mix_millis_and_counter() {
    let mut e = entry();
    assert_eq!(e.generate_hbid(1_700_000_001_234), 234);
    assert_eq!(e.generate_hbid(1_700_000_001_235), 1235);
    assert_eq!(e.generate_hbid(999), 2999);
}

#[test]
fn tracked_time_deltas() {
    let t = TrackedMessageTime { t_sent: 100, t_recv: Some(130) };
    assert_eq!(t.delta(), Some(30));
    assert_eq!(t.delta_32bit(), Some(30));
    let early = TrackedMessageTime { t_sent: 100, t_recv: Some(90) };
    assert_eq!(early.delta(), Some(0));
    let open = TrackedMessageTime { t_sent: 100, t_recv: None };
    assert_eq!(open.delta(), None);
    assert_eq!(open.delta_32bit(), None);
}

#[test]
fn heartbeat_messages_reach_the_tracker() {
    let mut room = Room::new("R".to_string(), "h".to_string());
    room.players.push(entry());
    room.players[0].record_dohb(5, 2000);
    let r = room.handle_message(&WsMsg::Heartbeat { hbid: 5, t_dohb_recv: 2020 }, Some(1));
    assert!(r.messages_to_host.is_empty());
    room.handle_message(&WsMsg::LatencyOfHeartbeat { hbid: 5, t_lat: 70 }, Some(1));
    assert_eq!(room.players[0].latency(), 10);
}
