use bar_game::lobby::{player_id_for_seat, Lobby};
use bar_game::matchmaker::Matchmaker;
use bar_game::session::{tick_interval_micros, SessionReply, SessionState};

#[test]
fn pairs_players_in_arrival_order() {
    let mut m = Matchmaker::new(2);
    assert_eq!(m.enqueue(10), None);
    assert_eq!(m.queue_size(), 1);
    assert_eq!(m.enqueue(11), Some(vec![10, 11]));
    assert_eq!(m.queue_size(), 0);
    assert_eq!(m.enqueue(12), None);
    assert_eq!(m.enqueue(13), Some(vec![12, 13]));
}

#[test]
fn dequeue_removes_waiting_player() {
    let mut m = Matchmaker::new(3);
    m.enqueue(1);
    m.enqueue(2);
    m.dequeue(1);
    assert_eq!(m.queue_size(), 1);
    m.dequeue(99);
    assert_eq!(m.queue_size(), 1);
    assert_eq!(m.enqueue(3), None);
    assert_eq!(m.enqueue(4), Some(vec![2, 3, 4]));
}

#[test]
fn single_player_games_match_at_once() {
    let mut m = Matchmaker::new(1);
    assert_eq!(m.enqueue(7), Some(vec![7]));
    assert_eq!(m.queue_size(), 0);
}

#[test]
fn zero_sized_games_match_nobody() {
    let mut m = Matchmaker::new(0);
    assert_eq!(m.enqueue(7), Some(vec![]));
    assert_eq!(m.queue_size(), 1);
}

#[test]
fn lobby_routes_matched_players() {
    let mut lobby = Lobby::new(2);
    assert!(lobby.player_ready(1).is_none());
    assert_eq!(lobby.game_of(1), None);
    let start = lobby.player_ready(2).unwrap();
    assert_eq!(start.game_id, 1);
    assert_eq!(start.players, vec![1, 2]);
    assert_eq!(lobby.game_of(1), Some(1));
    assert_eq!(lobby.game_of(2), Some(1));
    lobby.player_ready(3);
    let second = lobby.player_ready(4).unwrap();
    assert_eq!(second.game_id, 2);
    assert_eq!(lobby.game_of(4), Some(2));
    assert_eq!(lobby.player_disconnected(2), Some(1));
    assert_eq!(lobby.game_of(2), None);
    assert_eq!(lobby.player_disconnected(2), None);
}

#[test]
fn lobby_disconnect_while_waiting() {
    let mut lobby = Lobby::new(2);
    lobby.player_ready(1);
    assert_eq!(lobby.player_disconnected(1), None);
    assert!(lobby.player_ready(2).is_none());
    assert_eq!(lobby.player_ready(3).unwrap().players, vec![2, 3]);
}

#[test]
fn seat_player_ids() {
    assert_eq!(player_id_for_seat(0), 0);
    assert_eq!(player_id_for_seat(3), 3);
    assert_eq!(player_id_for_seat(256), 0);
    assert_eq!(player_id_for_seat(300), 44);
}

#[test]
fn session_tracks_players() {
    let mut s = SessionState::new(vec![5, 6]);
    assert_eq!(s.num_players(), 2);
    assert_eq!(s.player_id(5), Some(0));
    assert_eq!(s.player_id(6), Some(1));
    assert_eq!(s.player_id(7), None);
    assert!(matches!(s.on_commands(6), SessionReply::Forward(1)));
    assert!(matches!(s.on_commands(7), SessionReply::Ignore));
    assert!(matches!(s.on_disconnect(7), SessionReply::Ignore));
    assert!(!s.should_end());
    assert!(matches!(s.on_disconnect(5), SessionReply::PlayerLeft));
    assert!(!s.should_end());
    assert!(matches!(s.on_disconnect(6), SessionReply::PlayerLeft));
    assert!(s.should_end());
    // A repeated disconnect changes nothing.
    assert!(matches!(s.on_disconnect(6), SessionReply::PlayerLeft));
    assert!(s.should_end());
}

#[test]
fn session_repeated_disconnect_counts_once() {
    let mut s = SessionState::new(vec![1, 2]);
    assert!(matches!(s.on_disconnect(1), SessionReply::PlayerLeft));
    assert!(matches!(s.on_disconnect(1), SessionReply::PlayerLeft));
    assert!(!s.should_end());
    assert!(matches!(s.on_disconnect(2), SessionReply::PlayerLeft));
    assert!(s.should_end());
}

#[test]
fn session_without_players_ends_at_once() {
    let s = SessionState::new(vec![]);
    assert!(s.should_end());
}

#[test]
fn session_duplicate_connection_takes_last_seat() {
    let s = SessionState::new(vec![5, 6, 5]);
    assert_eq!(s.player_id(5), Some(2));
}

#[test]
fn tick_interval() {
    assert_eq!(tick_interval_micros(30), 33_333);
    assert_eq!(tick_interval_micros(1), 1_000_000);
    assert_eq!(tick_interval_micros(2_000_000), 0);
}
