use lanterm::engine::{Game, Key};
use lanterm::games::battleship::game::{BattleAction, BattleState, BattleshipGame, Tile};
use lanterm::games::hangman::{HangmanGame, HangmanInput, HangmanState};
use lanterm::games::pong::{PongAction, PongGame, PongState};
use lanterm::menu::{get_all_games, get_game, Menu, MenuChoice, MenuMode};
use lanterm::session::PeerId;

fn peer(s: &str) -> PeerId {
    PeerId { text: s.to_string() }
}

fn two_players() -> HangmanState {
    let mut s = HangmanState::new("rust".to_string());
    s.add_player("ann".to_string());
    s.add_player("bob".to_string());
    s
}

#[test]
fn hangman_new_uppercases_and_masks() {
    let s = HangmanState::new("rust-lang".to_string());
    assert_eq!(s.word, "RUST-LANG");
    assert_eq!(s.masked_word, "____-____");
    assert_eq!(s.remaining_tries, 6);
    assert_eq!(s.message, "Welcome to Hangman!");
    assert!(!s.finished);
}

#[test]
fn hangman_second_player_starts_game() {
    let mut s = HangmanState::new("rust".to_string());
    s.add_player("ann".to_string());
    assert_eq!(s.message, "Welcome to Hangman!");
    s.add_player("ann".to_string());
    assert_eq!(s.players.len(), 1);
    s.add_player("bob".to_string());
    assert_eq!(s.players, vec!["ann".to_string(), "bob".to_string()]);
    assert_eq!(s.message, "Game started! ann goes first.");
}

#[test]
fn hangman_guess_errors() {
    let mut lonely = HangmanState::new("rust".to_string());
    lonely.add_player("ann".to_string());
    assert_eq!(lonely.guess('r', "ann"), Err("Need at least 2 players to start".to_string()));
    let mut s = two_players();
    assert_eq!(s.guess('r', "bob"), Err("Not your turn! It's ann's turn.".to_string()));
    assert_eq!(s.guess('3', "ann"), Err("Please guess a letter A-Z".to_string()));
    assert_eq!(s.guess('r', "ann"), Ok(true));
    assert_eq!(s.guess('R', "bob"), Err("Letter 'R' already guessed".to_string()));
}

#[test]
fn hangman_right_and_wrong_guesses() {
    let mut s = two_players();
    assert_eq!(s.guess('u', "ann"), Ok(true));
    assert_eq!(s.masked_word, "_U__");
    assert_eq!(s.message, "Good guess! 'U' is in the word.  Next: bob");
    assert_eq!(s.current_turn, 1);
    assert_eq!(s.guess('z', "bob"), Ok(false));
    assert_eq!(s.remaining_tries, 5);
    assert_eq!(s.wrong, vec!['Z']);
    assert_eq!(s.message, "Sorry, 'Z' is not in the word.  Next: ann");
    assert_eq!(s.current_turn, 0);
}

#[test]
fn hangman_win_and_finished() {
    let mut s = two_players();
    assert_eq!(s.guess('r', "ann"), Ok(true));
    assert_eq!(s.guess('u', "bob"), Ok(true));
    assert_eq!(s.guess('s', "ann"), Ok(true));
    assert_eq!(s.guess('t', "bob"), Ok(true));
    assert!(s.finished);
    assert_eq!(s.masked_word, "RUST");
    assert_eq!(s.message, "\u{1F389} bob won! The word was 'RUST'.");
    assert_eq!(s.guess('a', "ann"), Err("Game is finished".to_string()));
}

#[test]
fn hangman_loss_after_six_misses() {
    let mut s = two_players();
    let misses = ['a', 'b', 'c', 'd', 'e', 'f'];
    let names = ["ann", "bob"];
    for (i, c) in misses.iter().enumerate() {
        assert_eq!(s.guess(*c, names[i % 2]), Ok(false));
    }
    assert!(s.finished);
    assert_eq!(s.remaining_tries, 0);
    assert_eq!(s.message, "\u{1F480} Game over! The word was 'RUST'.");
}

#[test]
fn hangman_helpers() {
    let mut s = HangmanState::new("ab c".to_string());
    s.guessed.push('A');
    s.update_masked_word();
    assert_eq!(s.masked_word, "A_ _");
    assert!(!s.is_word_complete());
    s.guessed.push('B');
    s.guessed.push('C');
    assert!(s.is_word_complete());
}

#[test]
fn hangman_game_input_and_parsing() {
    assert!(matches!(HangmanGame::parse_line("  12x y"), Some(HangmanInput::Guess('x'))));
    assert!(HangmanGame::parse_line("123 !").is_none());
    let mut s = HangmanState::new("rust".to_string());
    s.add_player("ann".to_string());
    let reply = HangmanGame::handle_input(&HangmanInput::Guess('r'), &mut s, "bob");
    assert_eq!(s.players.len(), 2);
    assert_eq!(reply, "Not your turn! It's ann's turn.");
    let reply = HangmanGame::handle_input(&HangmanInput::Guess('r'), &mut s, "ann");
    assert_eq!(reply, "\u{2705} Good guess! 'r' is in the word.");
    let reply = HangmanGame::handle_input(&HangmanInput::Guess('q'), &mut s, "bob");
    assert_eq!(reply, "\u{274C} Sorry, 'q' is not in the word.");
}

#[test]
fn hangman_new_game_draws_from_list() {
    let words = ["EXAMPLE", "WEBSOCKET", "RUST", "ASYNC", "TOKIO", "HANGMAN", "TERMINAL", "NETWORK", "SOCKET"];
    for _ in 0..20 {
        let s = HangmanGame::new_game();
        assert!(words.contains(&s.word.as_str()));
        assert!(s.masked_word.chars().all(|c| c == '_'));
    }
    assert_eq!(HangmanGame::word_at(3), "ASYNC");
}

#[test]
fn battleship_opening_position() {
    let s = BattleState::new();
    assert_eq!(s.p1_board[1][1], Tile::Ship);
    assert_eq!(s.p1_board[1][2], Tile::Ship);
    assert_eq!(s.p2_board[5][5], Tile::Ship);
    assert_eq!(s.p2_board[5][6], Tile::Ship);
    assert_eq!(s.p2_board[0][0], Tile::Empty);
    assert!(s.host_turn);
    assert_eq!(s.last_message, "Game Start! Host (P1) moves first.");
    assert_eq!(Tile::default(), Tile::Empty);
}

#[test]
fn battleship_cursor_is_clamped() {
    let g = BattleshipGame::new(true);
    let mut s = BattleState::new();
    g.handle_action(BattleAction::MoveCursor { dx: -1, dy: -1, is_host: true }, &mut s, &peer("H"));
    assert_eq!(s.p1_cursor, (0, 0));
    g.handle_action(BattleAction::MoveCursor { dx: 9, dy: 3, is_host: true }, &mut s, &peer("H"));
    assert_eq!(s.p1_cursor, (7, 3));
    g.handle_action(BattleAction::MoveCursor { dx: 1, dy: 0, is_host: false }, &mut s, &peer("C"));
    assert_eq!(s.p2_cursor, (1, 0));
}

#[test]
fn battleship_turns_hits_and_winner() {
    let g = BattleshipGame::new(true);
    let h = peer("H");
    let mut s = BattleState::new();
    g.handle_action(BattleAction::Fire { is_host: false }, &mut s, &peer("C"));
    assert_eq!(s.last_message, "Wait for your turn!");
    s.p1_cursor = (5, 5);
    g.handle_action(BattleAction::Fire { is_host: true }, &mut s, &h);
    assert_eq!(s.p2_board[5][5], Tile::Hit);
    assert_eq!(s.last_message, "Player H HIT a ship!");
    assert!(s.host_turn);
    assert!(s.winner.is_none());
    g.handle_action(BattleAction::Fire { is_host: true }, &mut s, &h);
    assert_eq!(s.last_message, "Already fired there!");
    s.p1_cursor = (6, 5);
    g.handle_action(BattleAction::Fire { is_host: true }, &mut s, &h);
    assert_eq!(s.winner, Some("Player H".to_string()));
    g.handle_action(BattleAction::MoveCursor { dx: 1, dy: 1, is_host: true }, &mut s, &h);
    assert_eq!(s.p1_cursor, (6, 5));
}

#[test]
fn battleship_miss_passes_turn() {
    let g = BattleshipGame::new(false);
    let mut s = BattleState::new();
    g.handle_action(BattleAction::Fire { is_host: true }, &mut s, &peer("H"));
    assert_eq!(s.p2_board[0][0], Tile::Miss);
    assert_eq!(s.last_message, "Player H MISSED!");
    assert!(!s.host_turn);
}

#[test]
fn pong_paddles_stay_on_court() {
    let g = PongGame::new(true);
    let mut s = PongState::default();
    s.paddle1_y = 0;
    g.handle_action(PongAction::Player1MoveUp, &mut s, &peer("H"));
    assert_eq!(s.paddle1_y, 0);
    s.paddle2_y = 16;
    g.handle_action(PongAction::Player2MoveDown, &mut s, &peer("C"));
    assert_eq!(s.paddle2_y, 16);
    g.handle_action(PongAction::Player2MoveUp, &mut s, &peer("C"));
    assert_eq!(s.paddle2_y, 15);
    g.handle_action(PongAction::Player1MoveDown, &mut s, &peer("H"));
    assert_eq!(s.paddle1_y, 1);
}

#[test]
fn pong_ball_bounces_and_scores() {
    let g = PongGame::new(true);
    let mut s = PongState::default();
    s.ball_x = 3;
    s.ball_y = 9;
    s.ball_dx = -1;
    s.ball_dy = 1;
    s.paddle1_y = 8;
    g.on_tick(&mut s);
    assert_eq!((s.ball_x, s.ball_y), (2, 10));
    assert_eq!(s.ball_dx, 1);
    assert_eq!(s.score, 1);
    let mut t = PongState::default();
    t.ball_y = 19;
    g.on_tick(&mut t);
    assert_eq!(t.ball_y, 20);
    assert_eq!(t.ball_dy, -1);
    let mut u = PongState::default();
    u.ball_x = 60;
    u.ball_dx = 1;
    u.paddle2_y = 0;
    g.on_tick(&mut u);
    assert_eq!((u.ball_x, u.ball_y, u.ball_dx, u.ball_dy), (30, 10, -1, 1));
}

#[test]
fn catalog_lists_four_games() {
    let all = get_all_games();
    let ids: Vec<&str> = all.iter().map(|g| g.id.as_str()).collect();
    assert_eq!(ids, vec!["pong", "rand_num", "battleship", "poker"]);
    assert_eq!(get_game("battleship").unwrap().name, "Battleship");
    assert!(get_game("chess").is_none());
}

#[test]
fn menu_host_flow() {
    let mut m = Menu::new();
    assert!(m.handle_input(Key::Char('x')).is_none());
    assert_eq!(m.mode(), MenuMode::HostOrJoin);
    m.handle_input(Key::Char('1'));
    assert_eq!(m.mode(), MenuMode::SelectGame);
    m.handle_input(Key::Up);
    assert_eq!(m.selected_game_index(), 0);
    for _ in 0..5 {
        m.handle_input(Key::Down);
    }
    assert_eq!(m.selected_game_index(), 3);
    m.handle_input(Key::Up);
    let (choice, id, join) = m.handle_input(Key::Enter).unwrap();
    assert_eq!(choice, MenuChoice::Host);
    assert_eq!(id, "battleship");
    assert!(join.is_none());
    m.handle_input(Key::Esc);
    assert_eq!(m.mode(), MenuMode::HostOrJoin);
}

#[test]
fn menu_join_flow() {
    let mut m = Menu::new();
    m.handle_input(Key::Char('2'));
    assert_eq!(m.mode(), MenuMode::JoinNodeId);
    assert!(m.handle_input(Key::Enter).is_none());
    for c in "abcd".chars() {
        m.handle_input(Key::Char(c));
    }
    m.handle_input(Key::Backspace);
    assert_eq!(m.input_buffer(), "abc");
    let (choice, id, join) = m.handle_input(Key::Enter).unwrap();
    assert_eq!(choice, MenuChoice::Join);
    assert_eq!(id, "pong");
    assert_eq!(join.unwrap().node_id, "abc");
    for _ in 0..70 {
        m.handle_input(Key::Char('z'));
    }
    assert_eq!(m.input_buffer().len(), 64);
    m.handle_input(Key::Esc);
    assert_eq!(m.input_buffer(), "");
    assert_eq!(m.mode(), MenuMode::HostOrJoin);
}

#[test]
fn hangman_turn_with_three_players() {
    let mut s = HangmanState::new("rust".to_string());
    s.add_player("ann".to_string());
    s.add_player("bob".to_string());
    s.add_player("cid".to_string());
    s.current_turn = 2;
    assert_eq!(s.guess('r', "ann"), Err("Not your turn! It's cid's turn.".to_string()));
    assert_eq!(s.guess('r', "cid"), Ok(true));
    assert_eq!(s.current_turn, 1);
    assert_eq!(s.message, "Good guess! 'R' is in the word.  Next: bob");
}

#[test]
fn hangman_lone_player_any_turn() {
    let mut s = HangmanState::new("rust".to_string());
    s.add_player("ann".to_string());
    s.current_turn = 5;
    assert_eq!(s.guess('r', "ann"), Err("Need at least 2 players to start".to_string()));
    assert_eq!(s.current_turn, 5);
    assert!(s.guessed.is_empty());
}
