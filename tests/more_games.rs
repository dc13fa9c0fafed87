use lanterm::engine::Key;
use lanterm::games::battleship::{Battleship, BattleshipInput, Cell, GamePhase};
use lanterm::games::rand_num::{GuessMsg, NumberGame};
use lanterm::runner::{menu_key, EngineEvent, EngineMode, InputLine, Lobby};
use lanterm::session::PeerId;
use lanterm::text::{decimal_string, parse_digits, parse_usize, split_words};

fn peer(s: &str) -> PeerId {
    PeerId { text: s.to_string() }
}

#[test]
fn decimal_and_numerals() {
    assert_eq!(decimal_string(0), "0");
    assert_eq!(decimal_string(1203), "1203");
    assert_eq!(decimal_string(u64::MAX), "18446744073709551615");
    assert_eq!(parse_digits(&"4294967295".chars().collect()), Some(u32::MAX));
    assert_eq!(parse_digits(&"4294967296".chars().collect()), None);
    assert_eq!(parse_usize(&"+17".chars().collect()), Some(17));
    assert_eq!(parse_usize(&"+".chars().collect()), None);
    assert_eq!(parse_usize(&"-1".chars().collect()), None);
    assert_eq!(parse_usize(&"99999999999999999999999".chars().collect()), None);
}

#[test]
fn words_split_on_any_white_space() {
    let w = split_words(" fire\t3 \u{3000}4\n");
    let w: Vec<String> = w.iter().map(|v| v.iter().collect()).collect();
    assert_eq!(w, vec!["fire", "3", "4"]);
    assert!(split_words("   ").is_empty());
}

#[test]
fn number_game_host_answers_guesses() {
    let mut host = NumberGame::with_secret(true, 42);
    assert_eq!(host.last_feedback(), "Waiting for guess...");
    assert!(matches!(host.handle_network(GuessMsg::PlayerGuessed(10)), Some(GuessMsg::Feedback(ref t)) if t == "Too low!"));
    assert!(matches!(host.handle_network(GuessMsg::PlayerGuessed(77)), Some(GuessMsg::Feedback(ref t)) if t == "Too high!"));
    assert!(!host.is_over());
    assert!(matches!(host.handle_network(GuessMsg::PlayerGuessed(42)), Some(GuessMsg::GameOver(42))));
    assert!(host.is_over());
    assert_eq!(host.last_feedback(), "Player won! Number was 42");
    assert_eq!(host.tick_rate(), None);
}

#[test]
fn number_game_client_types_and_sends() {
    let mut c = NumberGame::with_secret(false, 0);
    assert_eq!(c.last_feedback(), "Enter a guess!");
    assert!(c.handle_input(Key::Enter).is_none());
    c.handle_input(Key::Char('1'));
    c.handle_input(Key::Char('x'));
    c.handle_input(Key::Char('2'));
    c.handle_input(Key::Char('9'));
    c.handle_input(Key::Backspace);
    assert_eq!(c.current_input(), "12");
    assert!(matches!(c.handle_input(Key::Enter), Some(GuessMsg::PlayerGuessed(12))));
    assert_eq!(c.current_input(), "");
    assert_eq!(c.last_feedback(), "[SENT] You guessed 12. Waiting for feedback...");
    for _ in 0..11 {
        c.handle_input(Key::Char('9'));
    }
    assert!(c.handle_input(Key::Enter).is_none());
    assert_eq!(c.last_feedback(), "Invalid number!");
    assert!(c.handle_network(GuessMsg::Feedback("Too low!".to_string())).is_none());
    assert_eq!(c.last_feedback(), "Too low!");
    c.handle_network(GuessMsg::GameOver(7));
    assert!(c.is_over());
    assert_eq!(c.last_feedback(), "Correct! The number was 7");
    c.handle_input(Key::Char('5'));
    assert_eq!(c.current_input(), "");
}

#[test]
fn number_game_new_draws_secret() {
    let host = NumberGame::new(true);
    assert_eq!(host.last_feedback(), "Waiting for guess...");
    let mut probe = NumberGame::new(true);
    let mut found = false;
    for g in 1..100u32 {
        if let Some(GuessMsg::GameOver(n)) = probe.handle_network(GuessMsg::PlayerGuessed(g)) {
            assert_eq!(n, g);
            found = true;
            break;
        }
    }
    assert!(found);
}

#[test]
fn role_menu_and_lobby() {
    assert_eq!(menu_key(0, Key::Up), (1, None));
    assert_eq!(menu_key(1, Key::Down), (1, None));
    assert_eq!(menu_key(0, Key::Enter), (0, Some(EngineMode::HostingWaitingForPlayers)));
    assert_eq!(menu_key(1, Key::Enter), (1, Some(EngineMode::JoiningWaitingForAccept)));
    assert_eq!(menu_key(1, Key::Esc), (1, Some(EngineMode::Menu)));
    let mut l = Lobby::new(EngineMode::HostingWaitingForPlayers);
    l.player_joined();
    assert_eq!(l.mode(), EngineMode::HostingWaitingForPlayers);
    l.player_joined();
    assert_eq!(l.mode(), EngineMode::GameRunning);
    assert_eq!(l.players_connected(), 2);
    l.player_left();
    l.player_left();
    l.player_left();
    assert_eq!(l.players_connected(), -1);
    let mut j = Lobby::new(EngineMode::JoiningWaitingForAccept);
    j.player_joined();
    j.player_joined();
    assert_eq!(j.mode(), EngineMode::JoiningWaitingForAccept);
}

#[test]
fn input_line_hands_over_commands() {
    let mut line = InputLine::new();
    assert!(line.handle_key(Key::Enter).is_none());
    for c in "fire 1 2x".chars() {
        line.handle_key(Key::Char(c));
    }
    line.handle_key(Key::Backspace);
    line.handle_key(Key::Up);
    assert_eq!(line.text(), "fire 1 2");
    assert_eq!(line.handle_key(Key::Enter), Some("fire 1 2".to_string()));
    assert_eq!(line.text(), "");
}

#[test]
fn battleship_commands_parse() {
    assert_eq!(
        Battleship::parse_command("  P 2 3 V 4 "),
        Some(BattleshipInput::PlaceShip { x: 2, y: 3, horizontal: false, length: 4 })
    );
    assert_eq!(
        Battleship::parse_command("place 0 0 horizontal"),
        Some(BattleshipInput::PlaceShip { x: 0, y: 0, horizontal: true, length: 5 })
    );
    assert_eq!(Battleship::parse_command("FIRE 3 4"), Some(BattleshipInput::Fire { x: 3, y: 4 }));
    assert_eq!(Battleship::parse_command("r"), Some(BattleshipInput::ReadyForGame));
    assert_eq!(Battleship::parse_command("fire 3"), None);
    assert_eq!(Battleship::parse_command("fire x 4"), None);
    assert_eq!(Battleship::parse_command("place 1 2 h five"), None);
    assert_eq!(Battleship::parse_command("jump"), None);
    assert_eq!(Battleship::parse_command("   "), None);
}

#[test]
fn battleship_setup_and_ready() {
    let me = peer("me");
    let them = peer("them");
    let mut s = Battleship::new_game();
    assert_eq!(s.phase, GamePhase::Lobby);
    assert!(Battleship::handle_input(&mut s, BattleshipInput::ReadyForGame, &me, &me).is_none());
    assert_eq!(s.phase, GamePhase::Lobby);
    Battleship::handle_player_joined(&mut s, &them);
    assert_eq!(s.phase, GamePhase::Setup);
    assert_eq!(s.opponent_id.as_ref().unwrap().text, "them");
    let place = |x, y, horizontal, length| BattleshipInput::PlaceShip { x, y, horizontal, length };
    Battleship::handle_input(&mut s, place(0, 0, true, 6), &me, &me);
    assert_eq!(s.status_message, "Invalid ship length! Use 2-5.");
    Battleship::handle_input(&mut s, place(10, 0, true, 3), &me, &me);
    assert_eq!(s.status_message, "Coordinates out of bounds! Use 0-9.");
    Battleship::handle_input(&mut s, place(8, 0, true, 3), &me, &me);
    assert_eq!(s.status_message, "Ship doesn't fit on board!");
    Battleship::handle_input(&mut s, place(0, 0, true, 5), &me, &me);
    assert_eq!(s.my_board[0][4], Cell::Ship);
    assert_eq!(s.my_board[0][5], Cell::Empty);
    assert_eq!(
        s.status_message,
        "\u{2713} Ship placed at (0,0)! 1 ships placed. Place more (e.g. 'p 2 3 v 4') or type 'ready'"
    );
    Battleship::handle_input(&mut s, place(2, 0, false, 3), &me, &me);
    assert_eq!(s.status_message, "Ships overlap! Try different position.");
    Battleship::handle_input(&mut s, place(0, 5, true, 2), &them, &me);
    assert_eq!(s.my_board[5][0], Cell::Empty);
    let r = Battleship::handle_input(&mut s, BattleshipInput::ReadyForGame, &me, &me);
    assert_eq!(r, Some(BattleshipInput::ReadyForGame));
    assert_eq!(s.phase, GamePhase::Waiting);
    Battleship::handle_input(&mut s, BattleshipInput::ReadyForGame, &them, &me);
    assert_eq!(s.phase, GamePhase::Playing);
    assert!(s.is_my_turn);
    Battleship::handle_player_joined(&mut s, &them);
    assert_eq!(s.status_message, "Player them joined!");
}

#[test]
fn battleship_fire_and_report() {
    let me = peer("me");
    let them = peer("them");
    let mut s = Battleship::new_game();
    s.phase = GamePhase::Playing;
    s.my_board[4][3] = Cell::Ship;
    let r = Battleship::handle_input(&mut s, BattleshipInput::Fire { x: 3, y: 4 }, &them, &me);
    assert_eq!(r, Some(BattleshipInput::Report { x: 3, y: 4, hit: true }));
    assert_eq!(s.my_board[4][3], Cell::Hit);
    assert_eq!(s.status_message, "Opponent hit your ship at (3, 4)!");
    assert_eq!(s.opponent_ships_remaining, 4);
    assert!(s.is_my_turn);
    let r = Battleship::handle_input(&mut s, BattleshipInput::Fire { x: 0, y: 0 }, &them, &me);
    assert_eq!(r, Some(BattleshipInput::Report { x: 0, y: 0, hit: false }));
    assert_eq!(s.status_message, "Opponent missed at (0, 0)");
    assert!(Battleship::handle_input(&mut s, BattleshipInput::Fire { x: 10, y: 0 }, &them, &me).is_none());
    Battleship::handle_input(&mut s, BattleshipInput::Report { x: 1, y: 1, hit: true }, &them, &me);
    assert_eq!(s.opponent_view[1][1], Cell::Hit);
    assert_eq!(s.status_message, "You HIT their ship!");
    assert_eq!(s.my_ships_remaining, 4);
    assert!(!s.is_my_turn);
    Battleship::handle_input(&mut s, BattleshipInput::Report { x: 2, y: 1, hit: false }, &them, &me);
    assert_eq!(s.status_message, "You missed.");
    s.my_ships_remaining = 1;
    Battleship::handle_input(&mut s, BattleshipInput::Report { x: 3, y: 1, hit: true }, &them, &me);
    assert_eq!(s.phase, GamePhase::Ended);
    assert_eq!(s.status_message, "You LOST!");
    let mut w = Battleship::new_game();
    w.phase = GamePhase::Playing;
    w.opponent_ships_remaining = 0;
    Battleship::handle_input(&mut w, BattleshipInput::Report { x: 0, y: 0, hit: false }, &them, &me);
    assert_eq!(w.status_message, "You WON!");
    assert_eq!(w.phase, GamePhase::Ended);
}

#[test]
fn lobby_line_enter_applies_command_once() {
    let me = peer("me");
    let mut s = Battleship::new_game();
    Battleship::handle_player_joined(&mut s, &peer("them"));
    let mut line = InputLine::new();
    for c in "p 1 1 h 3".chars() {
        assert!(Battleship::handle_key(&mut s, &mut line, Key::Char(c), &me).is_none());
    }
    assert_eq!(s.my_board[1][1], Cell::Empty);
    assert!(Battleship::handle_key(&mut s, &mut line, Key::Enter, &me).is_none());
    assert_eq!(line.text(), "");
    assert_eq!(s.my_board[1][1], Cell::Ship);
    assert_eq!(s.my_board[1][3], Cell::Ship);
    assert_eq!(s.my_board[1][4], Cell::Empty);
    for c in "jump".chars() {
        Battleship::handle_key(&mut s, &mut line, Key::Char(c), &me);
    }
    let before = s.status_message.clone();
    assert!(Battleship::handle_key(&mut s, &mut line, Key::Enter, &me).is_none());
    assert_eq!(s.status_message, before);
    assert!(Battleship::handle_key(&mut s, &mut line, Key::Enter, &me).is_none());
    Battleship::handle_key(&mut s, &mut line, Key::Char('r'), &me);
    assert_eq!(
        Battleship::handle_key(&mut s, &mut line, Key::Enter, &me),
        Some(BattleshipInput::ReadyForGame)
    );
    assert_eq!(s.phase, GamePhase::Waiting);
}

#[test]
fn lobby_events_reach_the_game() {
    let me = peer("me");
    let mut s = Battleship::new_game();
    let mut lobby = Lobby::new(EngineMode::HostingWaitingForPlayers);
    lobby.player_joined();
    assert!(Battleship::handle_event(&mut s, &mut lobby, EngineEvent::PlayerJoined(peer("them")), &me).is_none());
    assert_eq!(lobby.mode(), EngineMode::GameRunning);
    assert_eq!(s.phase, GamePhase::Setup);
    assert_eq!(s.opponent_id.as_ref().unwrap().text, "them");
    s.phase = GamePhase::Playing;
    s.my_board[2][3] = Cell::Ship;
    let r = Battleship::handle_event(&mut s, &mut lobby, EngineEvent::InputReceived(peer("them"), BattleshipInput::Fire { x: 3, y: 2 }), &me);
    assert_eq!(r, Some(BattleshipInput::Report { x: 3, y: 2, hit: true }));
    assert_eq!(s.my_board[2][3], Cell::Hit);
    Battleship::handle_event(&mut s, &mut lobby, EngineEvent::PlayerLeft(peer("them")), &me);
    assert_eq!(lobby.players_connected(), 1);
    assert_eq!(s.my_board[2][3], Cell::Hit);
}
