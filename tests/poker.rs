use lanterm::engine::{Game, Key};
use lanterm::games::poker::{create_deck, Card, PokerAction, PokerGame, PokerPhase, PokerState, Rank, Suit};
use lanterm::session::PeerId;

fn peer(s: &str) -> PeerId {
    PeerId { text: s.to_string() }
}

fn c(rank: Rank, suit: Suit) -> Card {
    Card { suit, rank }
}

fn table() -> (PokerGame, PokerState) {
    let g = PokerGame::new(true, peer("host-0001"));
    let mut s = PokerState::new();
    g.handle_action(PokerAction::Join, &mut s, &peer("host-0001"));
    g.handle_action(PokerAction::Join, &mut s, &peer("guest-0002"));
    (g, s)
}

#[test]
fn deck_has_each_card_once() {
    let d = create_deck();
    assert_eq!(d.len(), 52);
    for (i, a) in d.iter().enumerate() {
        for b in d.iter().skip(i + 1) {
            assert!(a != b);
        }
    }
    assert_eq!(Rank::Ace.value(), 14);
    assert_eq!(Rank::Two.value(), 2);
}

#[test]
fn hand_categories() {
    let g = PokerGame::new(true, peer("h"));
    let sf = g.evaluate_hand(&[c(Rank::Nine, Suit::Hearts), c(Rank::Eight, Suit::Hearts)], &[c(Rank::Seven, Suit::Hearts), c(Rank::Six, Suit::Hearts), c(Rank::Five, Suit::Hearts), c(Rank::Two, Suit::Clubs), c(Rank::Ace, Suit::Spades)]);
    assert_eq!(sf, (9, vec![9]));
    let quads = g.evaluate_hand(&[c(Rank::Four, Suit::Hearts), c(Rank::Four, Suit::Clubs)], &[c(Rank::Four, Suit::Spades), c(Rank::Four, Suit::Diamonds), c(Rank::King, Suit::Hearts)]);
    assert_eq!(quads, (8, vec![4]));
    let full = g.evaluate_hand(&[c(Rank::Three, Suit::Hearts), c(Rank::Three, Suit::Clubs)], &[c(Rank::Three, Suit::Spades), c(Rank::Nine, Suit::Diamonds), c(Rank::Nine, Suit::Hearts)]);
    assert_eq!(full, (7, vec![3, 9]));
    let flush = g.evaluate_hand(&[c(Rank::Two, Suit::Hearts), c(Rank::Nine, Suit::Hearts)], &[c(Rank::Jack, Suit::Hearts), c(Rank::Four, Suit::Hearts), c(Rank::King, Suit::Hearts), c(Rank::King, Suit::Clubs)]);
    assert_eq!(flush, (6, vec![13, 13, 11, 9, 4]));
    let straight = g.evaluate_hand(&[c(Rank::Ten, Suit::Hearts), c(Rank::Jack, Suit::Clubs)], &[c(Rank::Queen, Suit::Spades), c(Rank::King, Suit::Diamonds), c(Rank::Ace, Suit::Hearts), c(Rank::Nine, Suit::Clubs)]);
    assert_eq!(straight, (5, vec![14]));
    let trips = g.evaluate_hand(&[c(Rank::Seven, Suit::Hearts), c(Rank::Seven, Suit::Clubs)], &[c(Rank::Seven, Suit::Spades), c(Rank::Two, Suit::Diamonds), c(Rank::Nine, Suit::Hearts)]);
    assert_eq!(trips, (4, vec![7]));
    let two_pair = g.evaluate_hand(&[c(Rank::Five, Suit::Hearts), c(Rank::Five, Suit::Clubs)], &[c(Rank::Jack, Suit::Spades), c(Rank::Jack, Suit::Diamonds), c(Rank::Ace, Suit::Hearts), c(Rank::Ace, Suit::Clubs)]);
    assert_eq!(two_pair, (3, vec![5, 11]));
    let pair = g.evaluate_hand(&[c(Rank::Five, Suit::Hearts), c(Rank::Five, Suit::Clubs)], &[c(Rank::Jack, Suit::Spades), c(Rank::Two, Suit::Diamonds), c(Rank::Ace, Suit::Hearts)]);
    assert_eq!(pair, (2, vec![5]));
    let high = g.evaluate_hand(&[c(Rank::Two, Suit::Hearts), c(Rank::Nine, Suit::Clubs)], &[c(Rank::Jack, Suit::Spades), c(Rank::Four, Suit::Diamonds), c(Rank::King, Suit::Hearts), c(Rank::Six, Suit::Hearts)]);
    assert_eq!(high, (1, vec![13, 11, 9, 6, 4]));
    let wheel = g.evaluate_hand(&[c(Rank::Ace, Suit::Hearts), c(Rank::Two, Suit::Clubs)], &[c(Rank::Three, Suit::Spades), c(Rank::Four, Suit::Diamonds), c(Rank::Five, Suit::Hearts)]);
    assert_eq!(wheel, (1, vec![14, 5, 4, 3, 2]));
    assert_eq!(g.score_name(7), "Full House");
    assert_eq!(g.score_name(0), "High Card");
}

#[test]
fn players_register_on_first_action() {
    let (_, s) = table();
    assert_eq!(s.players.len(), 2);
    assert_eq!(s.players[1].chips, 1000);
    assert_eq!(s.log, "ID registered: guest-00...");
    let g = PokerGame::new(true, peer("h"));
    let mut t = PokerState::new();
    g.handle_action(PokerAction::Join, &mut t, &peer("ab"));
    assert_eq!(t.log, "ID registered: ab...");
}

#[test]
fn host_alone_starts_a_hand() {
    let (g, mut s) = table();
    let guest = PokerGame::new(false, peer("guest-0002"));
    guest.handle_action(PokerAction::StartRound, &mut s, &peer("guest-0002"));
    assert_eq!(s.phase, PokerPhase::Waiting);
    let mut lonely = PokerState::new();
    g.handle_action(PokerAction::StartRound, &mut lonely, &peer("host-0001"));
    assert_eq!(lonely.phase, PokerPhase::Waiting);
    g.handle_action(PokerAction::StartRound, &mut s, &peer("host-0001"));
    assert_eq!(s.phase, PokerPhase::PreFlop);
    assert_eq!(s.deck.len(), 48);
    assert_eq!(s.players[0].hand.len(), 2);
    assert_eq!(s.current_bet, 20);
    assert_eq!(s.log, "Cards Dealt! Blinds Posted.");
}

#[test]
fn betting_round_reaches_the_flop() {
    let (g, mut s) = table();
    g.handle_action(PokerAction::StartRound, &mut s, &peer("host-0001"));
    // Out of turn: nothing happens.
    g.handle_action(PokerAction::Call, &mut s, &peer("guest-0002"));
    assert_eq!(s.pot, 0);
    g.handle_action(PokerAction::Call, &mut s, &peer("host-0001"));
    assert_eq!(s.players[0].chips, 980);
    assert_eq!(s.pot, 20);
    assert_eq!(s.turn_idx, 1);
    g.handle_action(PokerAction::Raise(10), &mut s, &peer("guest-0002"));
    assert_eq!(s.pot, 20);
    g.handle_action(PokerAction::Call, &mut s, &peer("guest-0002"));
    assert_eq!(s.phase, PokerPhase::Flop);
    assert_eq!(s.community_cards.len(), 3);
    assert_eq!(s.current_bet, 0);
    assert_eq!(s.turn_idx, 0);
    assert_eq!(s.pot, 40);
}

#[test]
fn fold_ends_the_hand() {
    let (g, mut s) = table();
    g.handle_action(PokerAction::StartRound, &mut s, &peer("host-0001"));
    g.handle_action(PokerAction::Raise(100), &mut s, &peer("host-0001"));
    assert_eq!(s.pot, 100);
    assert_eq!(s.players[0].chips, 900);
    g.handle_action(PokerAction::Fold, &mut s, &peer("guest-0002"));
    assert_eq!(s.phase, PokerPhase::Showdown);
    assert_eq!(s.pot, 0);
    assert_eq!(s.players[0].chips, 1000);
    assert!(s.log.starts_with("Showdown Winner: P[1]. Hand: "));
}

#[test]
fn showdown_splits_ties() {
    let g = PokerGame::new(true, peer("h"));
    let mut s = PokerState::new();
    g.handle_action(PokerAction::Join, &mut s, &peer("a"));
    g.handle_action(PokerAction::Join, &mut s, &peer("b"));
    s.community_cards = vec![c(Rank::Ace, Suit::Spades), c(Rank::King, Suit::Spades), c(Rank::Queen, Suit::Spades), c(Rank::Jack, Suit::Spades), c(Rank::Ten, Suit::Spades)];
    s.players[0].hand = vec![c(Rank::Two, Suit::Hearts), c(Rank::Three, Suit::Hearts)];
    s.players[1].hand = vec![c(Rank::Two, Suit::Clubs), c(Rank::Three, Suit::Clubs)];
    s.pot = 101;
    g.resolve_showdown(&mut s);
    assert_eq!(s.players[0].chips, 1050);
    assert_eq!(s.players[1].chips, 1050);
    assert_eq!(s.log, "Showdown Winner: P[1, 2]. Hand: Straight Flush");
}

#[test]
fn host_tick_takes_a_seat() {
    let g = PokerGame::new(true, peer("host-0001"));
    let mut s = PokerState::new();
    g.on_tick(&mut s);
    g.on_tick(&mut s);
    assert_eq!(s.players.len(), 1);
    assert_eq!(s.players[0].id.text, "host-0001");
    let guest = PokerGame::new(false, peer("g"));
    let mut t = PokerState::new();
    guest.on_tick(&mut t);
    assert!(t.players.is_empty());
    assert_eq!(g.tick_rate(), Some(16));
}

#[test]
fn bet_keys() {
    let mut g = PokerGame::new(false, peer("g"));
    assert_eq!(g.handle_input(Key::Char('j')), Some(PokerAction::Join));
    assert_eq!(g.handle_input(Key::Char('l')), Some(PokerAction::Call));
    assert_eq!(g.action_for_key(Key::Char('f')), Some(PokerAction::Fold));
    assert_eq!(g.handle_input(Key::Enter), None);
    for d in "1234567".chars() {
        g.handle_input(Key::Char(d));
    }
    assert_eq!(g.bet_input(), "12345");
    g.handle_input(Key::Backspace);
    assert_eq!(g.handle_input(Key::Enter), Some(PokerAction::Raise(1234)));
    assert_eq!(g.bet_input(), "");
}
