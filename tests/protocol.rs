use lanterm::engine::{Effect, Engine, Event, Game, Key};
use lanterm::frame::{decode_frame, decode_len_prefix, encode_frame, encode_len_prefix, FrameDecode};
use lanterm::games::battleship::game::{BattleAction, BattleshipGame};
use lanterm::games::pong::{PongAction, PongGame, PongState};
use lanterm::session::{NetworkManager, PeerId, Role, SessionError};
use lanterm::sync::{InternalMsg, Replica, SequenceCounter, SyncPacket};

fn peer(s: &str) -> PeerId {
    PeerId { text: s.to_string() }
}

fn pong_with_score(score: u32) -> PongState {
    let mut s = PongState::default();
    s.score = score;
    s
}

fn snapshot(seq: u64, score: u32) -> InternalMsg<PongAction, PongState> {
    InternalMsg::Sync(SyncPacket { seq, state: pong_with_score(score) })
}

#[test]
fn frame_has_big_endian_length_prefix() {
    let f = encode_frame(&[1, 2, 3]).unwrap();
    assert_eq!(f, vec![0, 0, 0, 3, 1, 2, 3]);
    assert_eq!(encode_len_prefix(0x0102_0304), vec![1, 2, 3, 4]);
    assert_eq!(decode_len_prefix(&[1, 2, 3, 4, 9]), Some(0x0102_0304));
    assert_eq!(decode_len_prefix(&[1, 2, 3]), None);
}

#[test]
fn frame_round_trip_with_trailing_bytes() {
    let payload: Vec<u8> = (0..=255u8).collect();
    let mut stream = encode_frame(&payload).unwrap();
    stream.extend_from_slice(&[7, 7]);
    match decode_frame(&stream) {
        FrameDecode::Complete { payload: p, consumed } => {
            assert_eq!(p, payload);
            assert_eq!(consumed, 4 + 256);
        }
        FrameDecode::Incomplete => panic!("whole frame not recognised"),
    }
}

#[test]
fn frame_incomplete_until_all_bytes_arrive() {
    assert!(matches!(decode_frame(&[0, 0]), FrameDecode::Incomplete));
    assert!(matches!(decode_frame(&[0, 0, 0, 3, 1, 2]), FrameDecode::Incomplete));
    assert!(matches!(
        decode_frame(&[0, 0, 0, 0]),
        FrameDecode::Complete { consumed: 4, .. }
    ));
}

#[test]
fn sequence_counter_starts_at_one() {
    let mut c = SequenceCounter::new();
    assert_eq!(c.next_seq(), Some(1));
    assert_eq!(c.next_seq(), Some(2));
    let mut full = SequenceCounter { last: u64::MAX };
    assert_eq!(full.next_seq(), None);
    assert_eq!(full.last, u64::MAX);
}

#[test]
fn replica_first_snapshot_always_applies() {
    let mut r = Replica::new(pong_with_score(0));
    assert!(r.apply(SyncPacket { seq: 1, state: pong_with_score(1) }));
    assert_eq!(r.last_seen, 1);
    assert_eq!(r.state.score, 1);
    let mut r0 = Replica::new(pong_with_score(0));
    assert!(!r0.apply(SyncPacket { seq: 0, state: pong_with_score(9) }));
    assert_eq!(r0.state.score, 0);
}

#[test]
fn late_snapshot_ignored_after_newer() {
    let mut r = Replica::new(pong_with_score(0));
    assert!(r.apply(SyncPacket { seq: 2, state: pong_with_score(2) }));
    assert!(!r.apply(SyncPacket { seq: 1, state: pong_with_score(1) }));
    assert_eq!(r.last_seen, 2);
    assert_eq!(r.state.score, 2);
}

#[test]
fn duplicate_snapshot_applies_once() {
    let mut r = Replica::new(pong_with_score(0));
    assert!(r.apply(SyncPacket { seq: 5, state: pong_with_score(5) }));
    assert!(!r.apply(SyncPacket { seq: 5, state: pong_with_score(5) }));
    assert_eq!(r.last_seen, 5);
    assert_eq!(r.state.score, 5);
}

#[test]
fn highest_snapshot_wins_in_any_order() {
    let orders: [[u64; 5]; 4] = [[1, 2, 3, 4, 5], [5, 4, 3, 2, 1], [3, 5, 1, 5, 2], [2, 2, 5, 1, 4]];
    for order in orders.iter() {
        let mut r = Replica::new(pong_with_score(0));
        for &seq in order.iter() {
            r.apply(SyncPacket { seq, state: pong_with_score(seq as u32 * 10) });
        }
        assert_eq!(r.last_seen, 5);
        assert_eq!(r.state.score, 50);
    }
}

#[test]
fn handshake_host_and_client_agree() {
    let host = NetworkManager::new(peer("host"), peer("client"));
    let (host, chosen, frame) = host.host_handshake(Some("battleship".to_string())).unwrap();
    assert_eq!(chosen, "battleship");
    assert_eq!(host.game_id(), Some("battleship"));
    assert_eq!(&frame[..4], &[0, 0, 0, 10]);
    let payload = match decode_frame(&frame) {
        FrameDecode::Complete { payload, .. } => payload,
        FrameDecode::Incomplete => panic!("handshake frame incomplete"),
    };
    let client = NetworkManager::new(peer("client"), peer("host"));
    let (client, got) = client.client_handshake(payload).unwrap();
    assert_eq!(got, chosen);
    assert_eq!(client.game_id(), host.game_id());
}

#[test]
fn handshake_unicode_selector_agrees() {
    let host = NetworkManager::new(peer("h"), peer("c"));
    let (_, chosen, frame) = host.host_handshake(Some("jeu-\u{e9}t\u{e9}".to_string())).unwrap();
    let client = NetworkManager::new(peer("c"), peer("h"));
    let (_, got) = client.client_handshake(frame[4..].to_vec()).unwrap();
    assert_eq!(got, chosen);
}

#[test]
fn handshake_errors() {
    let host = NetworkManager::new(peer("h"), peer("c"));
    assert!(matches!(host.host_handshake(None), Err(SessionError::MissingGameId)));
    let client = NetworkManager::new(peer("c"), peer("h"));
    assert!(matches!(client.client_handshake(vec![0xff, 0xfe]), Err(SessionError::InvalidSelector)));
}

#[test]
fn upgrade_keeps_ids_and_reset_clears_game() {
    let s = NetworkManager::new(peer("me"), peer("you"));
    let (s, _, _) = s.host_handshake(Some("pong".to_string())).unwrap();
    let active = s.upgrade::<InternalMsg<PongAction, PongState>>();
    assert_eq!(active.game_id(), Some("pong"));
    assert_eq!(active.local_id().text, "me");
    assert_eq!(active.remote_id().text, "you");
    assert_eq!(active.frame_reliable(&[9]).unwrap(), vec![0, 0, 0, 1, 9]);
    let lobby = active.reset();
    assert_eq!(lobby.game_id(), None);
    assert_eq!(lobby.remote_id().text, "you");
}

#[test]
fn role_from_host_flag() {
    assert_eq!(Role::from_host_flag(true), Role::Host);
    assert_eq!(Role::from_host_flag(false), Role::Client);
}

#[test]
fn host_applies_reliable_action_once_before_broadcast() {
    let mut host = Engine::new(BattleshipGame::new(true), Role::Host, peer("H"), peer("C"));
    // The host's turn first: it misses, passing the turn to the client.
    let e = host.step(Event::LocalAction(BattleAction::Fire { is_host: true }));
    assert!(matches!(e, Effect::Continue));
    assert!(!host.state().host_turn);
    // The client's shot arrives over the reliable channel mid-tick.
    let msg = InternalMsg::Action(BattleAction::Fire { is_host: false });
    assert!(matches!(host.step(Event::Reliable(Some(msg))), Effect::Continue));
    assert_eq!(host.state().last_message, "Player C MISSED!");
    assert!(host.state().host_turn);
    let e = host.step(Event::Tick);
    assert!(matches!(e, Effect::Broadcast(1)));
    assert_eq!(host.sequence(), 1);
    assert_eq!(host.state().last_message, "Player C MISSED!");
}

#[test]
fn garbage_datagrams_change_nothing() {
    let mut client = Engine::new(PongGame::new(false), Role::Client, peer("C"), peer("H"));
    for _ in 0..50 {
        assert!(matches!(client.step(Event::Unreliable(None)), Effect::Continue));
    }
    assert_eq!(*client.state(), PongState::default());
    assert_eq!(client.last_seen(), 0);
    client.step(Event::Unreliable(Some(snapshot(1, 42))));
    assert_eq!(client.state().score, 42);
    assert_eq!(client.last_seen(), 1);
}

#[test]
fn client_cannot_broadcast() {
    let mut client = Engine::new(PongGame::new(false), Role::Client, peer("C"), peer("H"));
    assert!(matches!(client.step(Event::Tick), Effect::Continue));
    assert_eq!(client.sequence(), 0);
    assert_eq!(*client.state(), PongState::default());
    match client.step(Event::LocalAction(PongAction::Player2MoveUp)) {
        Effect::SendAction(a) => assert_eq!(a, PongAction::Player2MoveUp),
        _ => panic!("client must forward its action"),
    }
    assert_eq!(*client.state(), PongState::default());
    let e = client.step(Event::Reliable(Some(InternalMsg::Action(PongAction::Player1MoveUp))));
    assert!(matches!(e, Effect::Continue));
    assert_eq!(*client.state(), PongState::default());
}

#[test]
fn engine_client_orders_snapshots() {
    let mut client = Engine::new(PongGame::new(false), Role::Client, peer("C"), peer("H"));
    client.step(Event::Unreliable(Some(snapshot(2, 20))));
    client.step(Event::Unreliable(Some(snapshot(1, 10))));
    assert_eq!(client.state().score, 20);
    assert_eq!(client.last_seen(), 2);
}

#[test]
fn engine_host_ignores_snapshots_and_quits() {
    let mut host = Engine::new(PongGame::new(true), Role::Host, peer("H"), peer("C"));
    host.step(Event::Unreliable(Some(snapshot(3, 99))));
    assert_eq!(host.state().score, 0);
    assert!(matches!(host.step(Event::Quit), Effect::Quit));
    assert!(matches!(host.step(Event::Reliable(None)), Effect::ProtocolError));
}

#[test]
fn engine_host_ticks_pong() {
    let mut host = Engine::new(PongGame::new(true), Role::Host, peer("H"), peer("C"));
    assert_eq!(host.tick_interval_ms(), 16);
    assert!(matches!(host.step(Event::Tick), Effect::Broadcast(1)));
    assert_eq!(host.state().ball_x, 31);
    assert_eq!(host.state().ball_y, 11);
    assert!(matches!(host.step(Event::Tick), Effect::Broadcast(2)));
}

#[test]
fn battleship_host_without_ticks_uses_default_cadence() {
    let host = Engine::new(BattleshipGame::new(true), Role::Host, peer("H"), peer("C"));
    assert_eq!(host.tick_interval_ms(), 16);
    assert_eq!(host.role(), Role::Host);
}

#[test]
fn game_keys_map_to_actions() {
    let g = PongGame::new(true);
    assert_eq!(g.action_for_key(Key::Up), Some(PongAction::Player1MoveUp));
    assert_eq!(PongGame::new(false).action_for_key(Key::Down), Some(PongAction::Player2MoveDown));
    assert_eq!(g.action_for_key(Key::Left), None);
    let b = BattleshipGame::new(false);
    assert_eq!(b.action_for_key(Key::Char(' ')), Some(BattleAction::Fire { is_host: false }));
    assert_eq!(
        b.action_for_key(Key::Left),
        Some(BattleAction::MoveCursor { dx: -1, dy: 0, is_host: false })
    );
    assert_eq!(b.action_for_key(Key::Char('x')), None);
}

#[test]
fn host_broadcasts_are_numbered_across_actions() {
    let mut host = Engine::new(PongGame::new(true), Role::Host, peer("H"), peer("C"));
    assert!(matches!(host.step(Event::Tick), Effect::Broadcast(1)));
    host.step(Event::LocalAction(PongAction::Player1MoveUp));
    host.step(Event::Reliable(Some(InternalMsg::Action(PongAction::Player2MoveDown))));
    assert_eq!(host.sequence(), 1);
    assert!(matches!(host.step(Event::Tick), Effect::Broadcast(2)));
}
