//! Texas hold'em for any number of players, dealt and judged by the host.

use vstd::prelude::*;
use rand::seq::SliceRandom;
use crate::engine::{Game, Key};
use crate::session::PeerId;
use crate::text::decimal;

verus! {

/// Chips each player starts with.
pub const INITIAL_CHIPS: u32 = 1000;

#[derive(Debug, Clone, Copy, PartialEq, Eq, Structural, Hash)]
pub enum Suit {
    Clubs,
    Diamonds,
    Hearts,
    Spades,
}

#[derive(Debug, Clone, Copy, PartialEq, Eq, Structural, Hash)]
pub enum Rank {
    Two,
    Three,
    Four,
    Five,
    Six,
    Seven,
    Eight,
    Nine,
    Ten,
    Jack,
    Queen,
    King,
    Ace,
}

/// The value of a rank: 2 for a two up to 14 for an ace.
pub open spec fn rank_val(r: Rank) -> u32 {
    match r {
        Rank::Two => 2,
        Rank::Three => 3,
        Rank::Four => 4,
        Rank::Five => 5,
        Rank::Six => 6,
        Rank::Seven => 7,
        Rank::Eight => 8,
        Rank::Nine => 9,
        Rank::Ten => 10,
        Rank::Jack => 11,
        Rank::Queen => 12,
        Rank::King => 13,
        Rank::Ace => 14,
    }
}

impl Rank {
    pub fn value(&self) -> (r: u32)
        ensures
            r == rank_val(*self),
    {
        match self {
            Rank::Two => 2,
            Rank::Three => 3,
            Rank::Four => 4,
            Rank::Five => 5,
            Rank::Six => 6,
            Rank::Seven => 7,
            Rank::Eight => 8,
            Rank::Nine => 9,
            Rank::Ten => 10,
            Rank::Jack => 11,
            Rank::Queen => 12,
            Rank::King => 13,
            Rank::Ace => 14,
        }
    }
}

#[derive(Debug, Clone, Copy, PartialEq, Eq, Structural)]
pub struct Card {
    pub suit: Suit,
    pub rank: Rank,
}

/// Relies on rand's SliceRandom::shuffle: the cards come back in another order.
#[verifier::external_body]
fn shuffle_cards(v: &mut Vec<Card>)
    ensures
        final(v)@.to_multiset() == old(v)@.to_multiset(),
{
    v.shuffle(&mut rand::rng());
}

pub open spec fn suit_of(i: int) -> Suit {
    if i == 0 {
        Suit::Clubs
    } else if i == 1 {
        Suit::Diamonds
    } else if i == 2 {
        Suit::Hearts
    } else {
        Suit::Spades
    }
}

pub open spec fn rank_of(i: int) -> Rank {
    if i == 0 { Rank::Two } else if i == 1 { Rank::Three } else if i == 2 { Rank::Four }
    else if i == 3 { Rank::Five } else if i == 4 { Rank::Six } else if i == 5 { Rank::Seven }
    else if i == 6 { Rank::Eight } else if i == 7 { Rank::Nine } else if i == 8 { Rank::Ten }
    else if i == 9 { Rank::Jack } else if i == 10 { Rank::Queen } else if i == 11 { Rank::King }
    else { Rank::Ace }
}

/// The 52 cards in suit order, each suit from two to ace.
pub open spec fn fresh_deck() -> Seq<Card> {
    Seq::new(52, |i: int| Card { suit: suit_of(i / 13), rank: rank_of(i % 13) })
}

fn suit_at(i: usize) -> (r: Suit)
    ensures
        r == suit_of(i as int),
{
    if i == 0 { Suit::Clubs } else if i == 1 { Suit::Diamonds } else if i == 2 { Suit::Hearts } else { Suit::Spades }
}

fn rank_at(i: usize) -> (r: Rank)
    ensures
        r == rank_of(i as int),
{
    if i == 0 { Rank::Two } else if i == 1 { Rank::Three } else if i == 2 { Rank::Four }
    else if i == 3 { Rank::Five } else if i == 4 { Rank::Six } else if i == 5 { Rank::Seven }
    else if i == 6 { Rank::Eight } else if i == 7 { Rank::Nine } else if i == 8 { Rank::Ten }
    else if i == 9 { Rank::Jack } else if i == 10 { Rank::Queen } else if i == 11 { Rank::King }
    else { Rank::Ace }
}

/// A shuffled deck: the 52 cards, in random order.
pub fn create_deck() -> (r: Vec<Card>)
    ensures
        r@.to_multiset() == fresh_deck().to_multiset(),
        r@.len() == 52,
{
    let mut deck: Vec<Card> = Vec::new();
    let mut s: usize = 0;
    while s < 4
        invariant
            s <= 4,
            deck@ == fresh_deck().subrange(0, 13 * s as int),
        decreases 4 - s,
    {
        let mut k: usize = 0;
        while k < 13
            invariant
                s < 4,
                k <= 13,
                deck@ == fresh_deck().subrange(0, 13 * s + k as int),
            decreases 13 - k,
        {
            deck.push(Card { suit: suit_at(s), rank: rank_at(k) });
            proof {
                let n = 13 * s + k;
                assert(n / 13 == s as int && n % 13 == k as int) by (nonlinear_arith)
                    requires n == 13 * s + k, k < 13, s < 4;
                assert(deck@ =~= fresh_deck().subrange(0, n + 1));
            }
            k = k + 1;
        }
        s = s + 1;
    }
    assert(deck@ =~= fresh_deck());
    shuffle_cards(&mut deck);
    proof {
        deck@.to_multiset_ensures();
        fresh_deck().to_multiset_ensures();
    }
    deck
}

#[derive(Debug, Clone, Copy, PartialEq, Eq, Structural)]
pub enum PokerPhase {
    Waiting,
    PreFlop,
    Flop,
    Turn,
    River,
    Showdown,
}

pub struct PlayerInfo {
    pub id: PeerId,
    pub chips: u32,
    pub current_bet: u32,
    pub hand: Vec<Card>,
    pub folded: bool,
}

#[derive(Debug, Clone, Copy, PartialEq, Eq)]
pub enum PokerAction {
    Join,
    Fold,
    Call,
    Raise(u32),
    StartRound,
}

pub struct PokerState {
    pub players: Vec<PlayerInfo>,
    pub deck: Vec<Card>,
    pub community_cards: Vec<Card>,
    pub pot: u32,
    pub current_bet: u32,
    pub turn_idx: usize,
    pub phase: PokerPhase,
    pub log: String,
    pub small_blind: u32,
}

/// A player as the rules see it.
pub struct PlayerView {
    pub id: Seq<char>,
    pub chips: u32,
    pub bet: u32,
    pub hand: Seq<Card>,
    pub folded: bool,
}

/// A table as the rules see it.
pub struct PokerView {
    pub players: Seq<PlayerView>,
    pub deck: Seq<Card>,
    pub community: Seq<Card>,
    pub pot: u32,
    pub current_bet: u32,
    pub turn_idx: usize,
    pub phase: PokerPhase,
    pub log: Seq<char>,
    pub small_blind: u32,
}

pub open spec fn player_view(p: PlayerInfo) -> PlayerView {
    PlayerView { id: p.id.text@, chips: p.chips, bet: p.current_bet, hand: p.hand@, folded: p.folded }
}

pub open spec fn players_view(ps: Seq<PlayerInfo>) -> Seq<PlayerView> {
    ps.map_values(|p: PlayerInfo| player_view(p))
}

impl PokerState {
    pub open spec fn view(&self) -> PokerView {
        PokerView {
            players: players_view(self.players@),
            deck: self.deck@,
            community: self.community_cards@,
            pot: self.pot,
            current_bet: self.current_bet,
            turn_idx: self.turn_idx,
            phase: self.phase,
            log: self.log@,
            small_blind: self.small_blind,
        }
    }
}

pub struct PokerGame {
    is_host: bool,
    my_id: PeerId,
    bet_input: String,
}

/// Cards of rank value `v` among `c`.
pub open spec fn rank_count(c: Seq<Card>, v: u32) -> nat
    decreases c.len(),
{
    if c.len() == 0 {
        0
    } else {
        rank_count(c.drop_last(), v) + if rank_val(c.last().rank) == v { 1nat } else { 0nat }
    }
}

/// Cards of suit `s` among `c`.
pub open spec fn suit_count(c: Seq<Card>, s: Suit) -> nat
    decreases c.len(),
{
    if c.len() == 0 {
        0
    } else {
        suit_count(c.drop_last(), s) + if c.last().suit == s { 1nat } else { 0nat }
    }
}

pub open spec fn is_flush(c: Seq<Card>) -> bool {
    suit_count(c, Suit::Clubs) >= 5 || suit_count(c, Suit::Diamonds) >= 5 || suit_count(c, Suit::Hearts) >= 5
        || suit_count(c, Suit::Spades) >= 5
}

/// Five ranks in a row, up to `h`, are present.
pub open spec fn run_to(c: Seq<Card>, h: u32) -> bool {
    h >= 6 && rank_count(c, h) > 0 && rank_count(c, (h - 1) as u32) > 0 && rank_count(c, (h - 2) as u32) > 0
        && rank_count(c, (h - 3) as u32) > 0 && rank_count(c, (h - 4) as u32) > 0
}

/// The top of the highest run of five at or below `h` (0 when there is none).
pub open spec fn straight_high(c: Seq<Card>, h: u32) -> u32
    decreases h,
{
    if h < 6 {
        0
    } else if run_to(c, h) {
        h
    } else {
        straight_high(c, (h - 1) as u32)
    }
}

/// The lowest rank from `v` up held exactly `n` times.
pub open spec fn lowest_with(c: Seq<Card>, n: nat, v: u32) -> Option<u32>
    decreases 15 - v,
{
    if v > 14 {
        None
    } else if rank_count(c, v) == n {
        Some(v)
    } else {
        lowest_with(c, n, (v + 1) as u32)
    }
}

/// The ranks from `v` up held exactly twice, lowest first.
pub open spec fn pairs_from(c: Seq<Card>, v: u32) -> Seq<u32>
    decreases 15 - v,
{
    if v > 14 {
        Seq::empty()
    } else {
        (if rank_count(c, v) == 2 { seq![v] } else { Seq::empty() }) + pairs_from(c, (v + 1) as u32)
    }
}

/// The `k` highest card ranks at or below `v`, highest first, repeats kept.
pub open spec fn top_ranks(c: Seq<Card>, v: u32, k: nat) -> Seq<u32>
    decreases v,
{
    if k == 0 || v < 2 {
        Seq::empty()
    } else {
        let n = if rank_count(c, v) < k { rank_count(c, v) } else { k };
        Seq::new(n, |i: int| v) + top_ranks(c, (v - 1) as u32, (k - n) as nat)
    }
}

/// The strength of the cards `c`: a category from 1 (high card) to 9
/// (straight flush), then the ranks that break ties within it.
pub open spec fn hand_score(c: Seq<Card>) -> (u32, Seq<u32>) {
    let flush = is_flush(c);
    let sh = straight_high(c, 14);
    let q = lowest_with(c, 4, 2);
    let t = lowest_with(c, 3, 2);
    let p = pairs_from(c, 2);
    if flush && sh > 0 {
        (9, seq![sh])
    } else if q is Some {
        (8, seq![q->0])
    } else if t is Some && p.len() > 0 {
        (7, seq![t->0, p[0]])
    } else if flush {
        (6, top_ranks(c, 14, 5))
    } else if sh > 0 {
        (5, seq![sh])
    } else if t is Some {
        (4, seq![t->0])
    } else if p.len() >= 2 {
        (3, seq![p[0], p[1]])
    } else if p.len() > 0 {
        (2, seq![p[0]])
    } else {
        (1, top_ranks(c, 14, 5))
    }
}

pub open spec fn suit_idx(s: Suit) -> int {
    match s {
        Suit::Clubs => 0,
        Suit::Diamonds => 1,
        Suit::Hearts => 2,
        Suit::Spades => 3,
    }
}

fn suit_index(s: Suit) -> (r: usize)
    ensures
        r == suit_idx(s),
{
    match s {
        Suit::Clubs => 0,
        Suit::Diamonds => 1,
        Suit::Hearts => 2,
        Suit::Spades => 3,
    }
}

/// How many cards of each rank value (index 2 to 14) and of each suit.
fn tally(c: &Vec<Card>) -> (r: (Vec<usize>, Vec<usize>))
    ensures
        r.0@.len() == 15,
        r.1@.len() == 4,
        forall|v: u32| 2 <= v <= 14 ==> r.0@[v as int] == rank_count(c@, v),
        forall|s: Suit| r.1@[#[trigger] suit_idx(s)] == suit_count(c@, s),
{
    let mut rc: Vec<usize> = vec![0; 15];
    let mut sc: Vec<usize> = vec![0; 4];
    let mut i: usize = 0;
    while i < c.len()
        invariant
            i <= c@.len(),
            rc@.len() == 15,
            sc@.len() == 4,
            forall|v: u32| 2 <= v <= 14 ==> rc@[v as int] == rank_count(c@.subrange(0, i as int), v),
            forall|v: int| 0 <= v < 15 ==> rc@[v] <= i,
            forall|s: Suit| sc@[#[trigger] suit_idx(s)] == suit_count(c@.subrange(0, i as int), s),
            forall|v: int| 0 <= v < 4 ==> sc@[v] <= i,
        decreases c@.len() - i,
    {
        let card = c[i];
        let v = card.rank.value() as usize;
        let si = suit_index(card.suit);
        assert(c@.subrange(0, i + 1).drop_last() =~= c@.subrange(0, i as int));
        assert(c@.subrange(0, i + 1).last() == card);
        rc.set(v, rc[v] + 1);
        sc.set(si, sc[si] + 1);
        i = i + 1;
        assert forall|s: Suit| sc@[#[trigger] suit_idx(s)] == suit_count(c@.subrange(0, i as int), s) by {
            assert(suit_idx(s) == si <==> s == card.suit);
        }
    }
    assert(c@.subrange(0, c@.len() as int) =~= c@);
    (rc, sc)
}

impl PokerGame {
    /// Scores a player's two cards together with the community cards; see
    /// [`hand_score`].
    pub fn evaluate_hand(&self, hand: &[Card], community: &[Card]) -> (r: (u32, Vec<u32>))
        ensures
            r.0 == hand_score(hand@ + community@).0,
            r.1@ == hand_score(hand@ + community@).1,
    {
        let mut all: Vec<Card> = Vec::new();
        let mut i: usize = 0;
        while i < hand.len()
            invariant
                i <= hand@.len(),
                all@ == hand@.subrange(0, i as int),
            decreases hand@.len() - i,
        {
            all.push(hand[i]);
            i = i + 1;
            assert(all@ =~= hand@.subrange(0, i as int));
        }
        let mut j: usize = 0;
        while j < community.len()
            invariant
                j <= community@.len(),
                all@ == hand@ + community@.subrange(0, j as int),
            decreases community@.len() - j,
        {
            all.push(community[j]);
            j = j + 1;
            assert(all@ =~= hand@ + community@.subrange(0, j as int));
        }
        assert(hand@.subrange(0, hand@.len() as int) =~= hand@);
        assert(community@.subrange(0, community@.len() as int) =~= community@);
        let ghost c = all@;
        assert(c == hand@ + community@);
        let (rc, sc) = tally(&all);
        assert(sc@[0] == suit_count(c, Suit::Clubs) && sc@[1] == suit_count(c, Suit::Diamonds)
            && sc@[2] == suit_count(c, Suit::Hearts) && sc@[3] == suit_count(c, Suit::Spades)) by {
            assert(suit_idx(Suit::Clubs) == 0 && suit_idx(Suit::Diamonds) == 1 && suit_idx(Suit::Hearts) == 2
                && suit_idx(Suit::Spades) == 3);
        }
        let flush = sc[0] >= 5 || sc[1] >= 5 || sc[2] >= 5 || sc[3] >= 5;
        // the highest run of five
        let mut sh: u32 = 0;
        let mut h: u32 = 14;
        while h >= 6
            invariant_except_break
                sh == 0,
            invariant
                5 <= h <= 14,
                rc@.len() == 15,
                forall|v: u32| 2 <= v <= 14 ==> rc@[v as int] == rank_count(c, v),
                straight_high(c, 14) == straight_high(c, h),
            ensures
                sh == straight_high(c, 14),
            decreases h,
        {
            let hu = h as usize;
            if rc[hu] > 0 && rc[hu - 1] > 0 && rc[hu - 2] > 0 && rc[hu - 3] > 0 && rc[hu - 4] > 0 {
                sh = h;
                break;
            }
            h = h - 1;
        }
        let q = lowest_rank_with(&rc, 4, Ghost(c));
        let t = lowest_rank_with(&rc, 3, Ghost(c));
        let p = pair_ranks(&rc, Ghost(c));
        if flush && sh > 0 {
            (9, vec![sh])
        } else if q.is_some() {
            (8, vec![q.unwrap()])
        } else if t.is_some() && p.len() > 0 {
            (7, vec![t.unwrap(), p[0]])
        } else if flush {
            (6, top_five(&rc, Ghost(c)))
        } else if sh > 0 {
            (5, vec![sh])
        } else if t.is_some() {
            (4, vec![t.unwrap()])
        } else if p.len() >= 2 {
            (3, vec![p[0], p[1]])
        } else if p.len() > 0 {
            (2, vec![p[0]])
        } else {
            (1, top_five(&rc, Ghost(c)))
        }
    }
}

fn lowest_rank_with(rc: &Vec<usize>, n: usize, Ghost(c): Ghost<Seq<Card>>) -> (r: Option<u32>)
    requires
        rc@.len() == 15,
        forall|v: u32| 2 <= v <= 14 ==> rc@[v as int] == rank_count(c, v),
    ensures
        r == lowest_with(c, n as nat, 2),
{
    let mut v: u32 = 2;
    while v <= 14
        invariant
            2 <= v <= 15,
            rc@.len() == 15,
            forall|w: u32| 2 <= w <= 14 ==> rc@[w as int] == rank_count(c, w),
            lowest_with(c, n as nat, 2) == lowest_with(c, n as nat, v),
        decreases 15 - v,
    {
        if rc[v as usize] == n {
            return Some(v);
        }
        v = v + 1;
    }
    None
}

fn pair_ranks(rc: &Vec<usize>, Ghost(c): Ghost<Seq<Card>>) -> (r: Vec<u32>)
    requires
        rc@.len() == 15,
        forall|v: u32| 2 <= v <= 14 ==> rc@[v as int] == rank_count(c, v),
    ensures
        r@ == pairs_from(c, 2),
{
    let mut out: Vec<u32> = Vec::new();
    let mut v: u32 = 2;
    while v <= 14
        invariant
            2 <= v <= 15,
            rc@.len() == 15,
            forall|w: u32| 2 <= w <= 14 ==> rc@[w as int] == rank_count(c, w),
            out@ + pairs_from(c, v) == pairs_from(c, 2),
        decreases 15 - v,
    {
        let ghost before = out@;
        if rc[v as usize] == 2 {
            out.push(v);
        }
        assert(before + pairs_from(c, v) == out@ + pairs_from(c, (v + 1) as u32)) by {
            if rank_count(c, v) == 2 {
                assert(before + (seq![v] + pairs_from(c, (v + 1) as u32)) =~= out@ + pairs_from(c, (v + 1) as u32));
            } else {
                assert(before + (Seq::<u32>::empty() + pairs_from(c, (v + 1) as u32)) =~= out@ + pairs_from(c, (v + 1) as u32));
            }
        }
        v = v + 1;
    }
    assert(pairs_from(c, 15) =~= Seq::<u32>::empty());
    assert(out@ =~= out@ + pairs_from(c, 15));
    out
}

fn top_five(rc: &Vec<usize>, Ghost(c): Ghost<Seq<Card>>) -> (r: Vec<u32>)
    requires
        rc@.len() == 15,
        forall|v: u32| 2 <= v <= 14 ==> rc@[v as int] == rank_count(c, v),
    ensures
        r@ == top_ranks(c, 14, 5),
{
    let mut out: Vec<u32> = Vec::new();
    let mut v: u32 = 14;
    while v >= 2
        invariant
            1 <= v <= 14,
            out@.len() <= 5,
            rc@.len() == 15,
            forall|w: u32| 2 <= w <= 14 ==> rc@[w as int] == rank_count(c, w),
            out@ + top_ranks(c, v, (5 - out@.len()) as nat) == top_ranks(c, 14, 5),
        decreases v,
    {
        let ghost before = out@;
        let ghost k = (5 - out@.len()) as nat;
        let cnt = rc[v as usize];
        let want: usize = 5 - out.len();
        let n: usize = if cnt < want { cnt } else { want };
        let mut m: usize = 0;
        while m < n
            invariant
                m <= n,
                n <= want,
                want == 5 - before.len(),
                out@ == before + Seq::new(m as nat, |i: int| v),
            decreases n - m,
        {
            out.push(v);
            m = m + 1;
            assert(out@ =~= before + Seq::new(m as nat, |i: int| v));
        }
        assert(before + top_ranks(c, v, k) =~= out@ + top_ranks(c, (v - 1) as u32, (5 - out@.len()) as nat)) by {
            if k > 0 {
                assert(top_ranks(c, v, k) == Seq::new(n as nat, |i: int| v) + top_ranks(c, (v - 1) as u32, (k - n) as nat));
            } else {
                assert(n == 0);
            }
        }
        v = v - 1;
    }
    assert(top_ranks(c, 1, (5 - out@.len()) as nat) =~= Seq::<u32>::empty());
    assert(out@ =~= out@ + top_ranks(c, 1, (5 - out@.len()) as nat));
    out
}

/// `a` comes after `b` in lexicographic order.
pub open spec fn lex_gt(a: Seq<u32>, b: Seq<u32>) -> bool
    decreases a.len(),
{
    if a.len() == 0 {
        false
    } else if b.len() == 0 {
        true
    } else if a[0] != b[0] {
        a[0] > b[0]
    } else {
        lex_gt(a.drop_first(), b.drop_first())
    }
}

/// The best score among the first `n` players still in, and the seats that
/// hold it, in seat order.
pub open spec fn judge(ps: Seq<PlayerView>, community: Seq<Card>, n: int) -> ((u32, Seq<u32>), Seq<int>)
    decreases n,
{
    if n <= 0 {
        ((0u32, Seq::empty()), Seq::empty())
    } else {
        let prev = judge(ps, community, n - 1);
        let best = prev.0;
        let w = prev.1;
        let p = ps[n - 1];
        if p.folded {
            prev
        } else {
            let sc = hand_score(p.hand + community);
            if sc.0 > best.0 || (sc.0 == best.0 && lex_gt(sc.1, best.1)) {
                (sc, seq![n - 1])
            } else if sc.0 == best.0 && sc.1 == best.1 {
                (best, w.push(n - 1))
            } else {
                prev
            }
        }
    }
}

pub open spec fn score_name_of(s: u32) -> Seq<char> {
    if s == 9 {
        "Straight Flush"@
    } else if s == 8 {
        "Quads"@
    } else if s == 7 {
        "Full House"@
    } else if s == 6 {
        "Flush"@
    } else if s == 5 {
        "Straight"@
    } else if s == 4 {
        "Trips"@
    } else if s == 3 {
        "Two Pair"@
    } else if s == 2 {
        "Pair"@
    } else {
        "High Card"@
    }
}

/// Seat numbers (counted from 1), comma separated.
pub open spec fn seat_list(w: Seq<int>) -> Seq<char>
    decreases w.len(),
{
    if w.len() == 0 {
        Seq::empty()
    } else if w.len() == 1 {
        decimal((w[0] + 1) as nat)
    } else {
        seat_list(w.drop_last()) + ", "@ + decimal((w.last() + 1) as nat)
    }
}

/// The pot's share of each winner.
pub open spec fn share(pot: u32, winners: nat) -> u32 {
    let d = winners as u32;
    (pot / if d > 1 { d } else { 1 }) as u32
}

/// The hand is over: every best hand still in takes an equal share of the pot.
pub open spec fn showdown(v: PokerView) -> PokerView {
    let j = judge(v.players, v.community, v.players.len() as int);
    let w = j.1;
    let amt = share(v.pot, w.len());
    PokerView {
        phase: PokerPhase::Showdown,
        players: Seq::new(
            v.players.len(),
            |i: int|
                if w.contains(i) {
                    PlayerView { chips: v.players[i].chips.wrapping_add(amt), ..v.players[i] }
                } else {
                    v.players[i]
                },
        ),
        pot: 0,
        log: "Showdown Winner: P["@ + seat_list(w) + "]. Hand: "@ + score_name_of(j.0.0),
        ..v
    }
}

fn lex_greater(a: &Vec<u32>, b: &Vec<u32>) -> (r: bool)
    ensures
        r == lex_gt(a@, b@),
{
    let mut i: usize = 0;
    assert(a@.subrange(0, a@.len() as int) =~= a@);
    assert(b@.subrange(0, b@.len() as int) =~= b@);
    while i < a.len() && i < b.len()
        invariant
            i <= a@.len(),
            i <= b@.len(),
            forall|k: int| 0 <= k < i ==> a@[k] == b@[k],
            lex_gt(a@, b@) == lex_gt(a@.subrange(i as int, a@.len() as int), b@.subrange(i as int, b@.len() as int)),
        decreases a@.len() - i,
    {
        let ghost sa = a@.subrange(i as int, a@.len() as int);
        let ghost sb = b@.subrange(i as int, b@.len() as int);
        assert(sa.drop_first() =~= a@.subrange(i + 1, a@.len() as int));
        assert(sb.drop_first() =~= b@.subrange(i + 1, b@.len() as int));
        if a[i] != b[i] {
            return a[i] > b[i];
        }
        i = i + 1;
    }
    i < a.len()
}

fn same_ranks(a: &Vec<u32>, b: &Vec<u32>) -> (r: bool)
    ensures
        r == (a@ == b@),
{
    if a.len() != b.len() {
        return false;
    }
    let mut i: usize = 0;
    while i < a.len()
        invariant
            i <= a@.len(),
            a@.len() == b@.len(),
            forall|k: int| 0 <= k < i ==> a@[k] == b@[k],
        decreases a@.len() - i,
    {
        if a[i] != b[i] {
            return false;
        }
        i = i + 1;
    }
    assert(a@ =~= b@);
    true
}

fn seat_text(w: &Vec<usize>) -> (r: String)
    requires
        forall|k: int| 0 <= k < w@.len() ==> w@[k] < usize::MAX,
    ensures
        r@ == seat_list(w@.map_values(|x: usize| x as int)),
{
    let ghost ws = w@.map_values(|x: usize| x as int);
    let mut out = String::new();
    let mut i: usize = 0;
    while i < w.len()
        invariant
            i <= w@.len(),
            ws == w@.map_values(|x: usize| x as int),
            forall|k: int| 0 <= k < w@.len() ==> w@[k] < usize::MAX,
            out@ == seat_list(ws.subrange(0, i as int)),
        decreases w@.len() - i,
    {
        if i > 0 {
            out.append(", ");
        }
        out.append(crate::text::decimal_string((w[i] + 1) as u64).as_str());
        i = i + 1;
        assert(ws.subrange(0, i as int).drop_last() =~= ws.subrange(0, i - 1));
    }
    assert(ws.subrange(0, w@.len() as int) =~= ws);
    out
}

/// Replaces the chips of seat `i`.
fn set_chips(ps: &mut Vec<PlayerInfo>, i: usize, chips: u32)
    requires
        i < old(ps)@.len(),
    ensures
        final(ps)@.len() == old(ps)@.len(),
        players_view(final(ps)@) == players_view(old(ps)@).update(
            i as int,
            PlayerView { chips, ..players_view(old(ps)@)[i as int] },
        ),
{
    let p = ps.remove(i);
    ps.insert(i, PlayerInfo { chips, ..p });
    assert(players_view(ps@) =~= players_view(old(ps)@).update(
        i as int,
        PlayerView { chips, ..players_view(old(ps)@)[i as int] },
    ));
}

impl PokerGame {
    /// Ends the hand; see [`showdown`].
    pub fn resolve_showdown(&self, state: &mut PokerState)
        ensures
            final(state).view() == showdown(old(state).view()),
    {
        let ghost v = state.view();
        state.phase = PokerPhase::Showdown;
        let mut winners: Vec<usize> = Vec::new();
        let mut best: (u32, Vec<u32>) = (0, Vec::new());
        let mut idx: usize = 0;
        while idx < state.players.len()
            invariant
                idx <= state.players@.len(),
                players_view(state.players@) == v.players,
                state.community_cards@ == v.community,
                best.0 == judge(v.players, v.community, idx as int).0.0,
                best.1@ == judge(v.players, v.community, idx as int).0.1,
                winners@.map_values(|x: usize| x as int) == judge(v.players, v.community, idx as int).1,
                forall|k: int| 0 <= k < winners@.len() ==> winners@[k] < idx,
                forall|a: int, b: int| 0 <= a < b < winners@.len() ==> winners@[a] < winners@[b],
                state.pot == v.pot,
                state.log@ == v.log,
                state.deck@ == v.deck,
                state.current_bet == v.current_bet,
                state.turn_idx == v.turn_idx,
                state.small_blind == v.small_blind,
                state.phase == PokerPhase::Showdown,
            decreases state.players@.len() - idx,
        {
            assert(players_view(state.players@)[idx as int] == player_view(state.players@[idx as int]));
            if !state.players[idx].folded {
                let score = self.evaluate_hand(state.players[idx].hand.as_slice(), state.community_cards.as_slice());
                if score.0 > best.0 || (score.0 == best.0 && lex_greater(&score.1, &best.1)) {
                    best = score;
                    winners = vec![idx];
                    assert(winners@.map_values(|x: usize| x as int) =~= seq![idx as int]);
                } else if score.0 == best.0 && same_ranks(&score.1, &best.1) {
                    let ghost before = winners@;
                    winners.push(idx);
                    assert(winners@.map_values(|x: usize| x as int) =~= before.map_values(|x: usize| x as int).push(idx as int));
                }
            }
            idx = idx + 1;
        }
        let ghost w = judge(v.players, v.community, v.players.len() as int).1;
        let n = #[verifier::truncate] (winners.len() as u32);
        let amt = state.pot / if n > 1 { n } else { 1 };
        assert(amt == share(v.pot, w.len()));
        let mut k: usize = 0;
        while k < winners.len()
            invariant
                k <= winners@.len(),
                winners@.map_values(|x: usize| x as int) == w,
                forall|a: int| 0 <= a < winners@.len() ==> winners@[a] < state.players@.len(),
                forall|a: int, b: int| 0 <= a < b < winners@.len() ==> winners@[a] < winners@[b],
                state.players@.len() == v.players.len(),
                state.pot == v.pot,
                state.log@ == v.log,
                state.deck@ == v.deck,
                state.community_cards@ == v.community,
                state.current_bet == v.current_bet,
                state.turn_idx == v.turn_idx,
                state.small_blind == v.small_blind,
                state.phase == PokerPhase::Showdown,
                forall|i: int| 0 <= i < v.players.len() ==> #[trigger] players_view(state.players@)[i] == if w.subrange(0, k as int).contains(i) {
                    PlayerView { chips: v.players[i].chips.wrapping_add(amt), ..v.players[i] }
                } else {
                    v.players[i]
                },
            decreases winners@.len() - k,
        {
            let seat = winners[k];
            let c = state.players[seat].chips.wrapping_add(amt);
            set_chips(&mut state.players, seat, c);
            k = k + 1;
            assert forall|i: int| 0 <= i < v.players.len() implies #[trigger] players_view(state.players@)[i] == if w.subrange(0, k as int).contains(i) {
                PlayerView { chips: v.players[i].chips.wrapping_add(amt), ..v.players[i] }
            } else {
                v.players[i]
            } by {
                assert(w[k - 1] == seat as int);
                if i != seat as int {
                    assert(w.subrange(0, k as int).contains(i) == w.subrange(0, k - 1).contains(i)) by {
                        if w.subrange(0, k as int).contains(i) {
                            let t = choose|t: int| 0 <= t < k && #[trigger] w.subrange(0, k as int)[t] == i;
                            assert(w.subrange(0, k - 1)[t] == i);
                        }
                        if w.subrange(0, k - 1).contains(i) {
                            let t = choose|t: int| 0 <= t < k - 1 && #[trigger] w.subrange(0, k - 1)[t] == i;
                            assert(w.subrange(0, k as int)[t] == i);
                        }
                    }
                } else {
                    assert(w.subrange(0, k as int)[k - 1] == i);
                    assert(!w.subrange(0, k - 1).contains(i)) by {
                        if w.subrange(0, k - 1).contains(i) {
                            let t = choose|t: int| 0 <= t < k - 1 && #[trigger] w.subrange(0, k - 1)[t] == i;
                            assert(winners@[t] < winners@[k - 1]);
                        }
                    }
                }
            }
        }
        assert(w.subrange(0, w.len() as int) =~= w);
        state.pot = 0;
        let mut log = "Showdown Winner: P[".to_owned();
        log.append(seat_text(&winners).as_str());
        log.append("]. Hand: ");
        log.append(self.score_name(best.0));
        state.log = log;
        assert(players_view(state.players@) =~= showdown(v).players);
    }

    pub fn score_name(&self, s: u32) -> (r: &'static str)
        ensures
            r@ == score_name_of(s),
    {
        match s {
            9 => "Straight Flush",
            8 => "Quads",
            7 => "Full House",
            6 => "Flush",
            5 => "Straight",
            4 => "Trips",
            3 => "Two Pair",
            2 => "Pair",
            _ => "High Card",
        }
    }
}

/// Deals up to `k` cards from the end of the deck onto the table.
pub open spec fn burn_deal(v: PokerView, k: nat) -> PokerView
    decreases k,
{
    if k == 0 || v.deck.len() == 0 {
        v
    } else {
        burn_deal(
            PokerView { community: v.community.push(v.deck.last()), deck: v.deck.drop_last(), ..v },
            (k - 1) as nat,
        )
    }
}

/// A new betting round: no bets yet, the first seat to act.
pub open spec fn reset_bets(v: PokerView) -> PokerView {
    PokerView {
        players: Seq::new(v.players.len(), |i: int| PlayerView { bet: 0, ..v.players[i] }),
        current_bet: 0,
        turn_idx: 0,
        ..v
    }
}

/// The next street: flop (three cards), turn, river (one card each), then
/// the showdown; every street starts a new betting round.
pub open spec fn next_street(v: PokerView) -> PokerView {
    let w = match v.phase {
        PokerPhase::PreFlop => burn_deal(PokerView { phase: PokerPhase::Flop, ..v }, 3),
        PokerPhase::Flop => burn_deal(PokerView { phase: PokerPhase::Turn, ..v }, 1),
        PokerPhase::Turn => burn_deal(PokerView { phase: PokerPhase::River, ..v }, 1),
        _ => showdown(v),
    };
    reset_bets(w)
}

/// Players still in the hand.
pub open spec fn active_count(ps: Seq<PlayerView>) -> nat
    decreases ps.len(),
{
    if ps.len() == 0 {
        0
    } else {
        active_count(ps.drop_last()) + if ps.last().folded { 0nat } else { 1nat }
    }
}

/// The first seat from `j` on, going round the table, still in the hand
/// (looking at most `fuel` seats further).
pub open spec fn seek(ps: Seq<PlayerView>, j: int, fuel: nat) -> int
    decreases fuel,
{
    if fuel == 0 || !ps[j].folded {
        j
    } else {
        seek(ps, (j + 1) % (ps.len() as int), (fuel - 1) as nat)
    }
}

/// Every player still in has matched the bet.
pub open spec fn all_matched(ps: Seq<PlayerView>, bet: u32) -> bool {
    forall|i: int| 0 <= i < ps.len() && !(#[trigger] ps[i]).folded ==> ps[i].bet == bet
}

/// After a player acts: with one player left the hand is over; otherwise
/// the turn passes to the next player still in, and once every such player
/// has matched the bet the next street comes.
pub open spec fn advance(v: PokerView) -> PokerView {
    if active_count(v.players) <= 1 {
        showdown(v)
    } else {
        let n = v.players.len() as int;
        let t = seek(v.players, (v.turn_idx + 1) % n, n as nat);
        let v1 = PokerView { turn_idx: t as usize, ..v };
        if all_matched(v1.players, v1.current_bet) {
            next_street(v1)
        } else {
            v1
        }
    }
}

pub open spec fn sat_sub(a: u32, b: u32) -> u32 {
    if a > b { (a - b) as u32 } else { 0 }
}

/// A betting action by `actor`, taken only when it is `actor`'s turn: fold;
/// call (as far as the chips go); or raise to more than the current bet,
/// when the chips cover it.
pub open spec fn bet_step(v: PokerView, action: PokerAction, actor: Seq<char>) -> PokerView {
    let i = v.turn_idx as int;
    if i >= v.players.len() || v.players[i].id != actor {
        v
    } else {
        let p = v.players[i];
        match action {
            PokerAction::Fold => advance(
                PokerView { players: v.players.update(i, PlayerView { folded: true, ..p }), ..v },
            ),
            PokerAction::Call => {
                let diff = sat_sub(v.current_bet, p.bet);
                let actual = if diff < p.chips { diff } else { p.chips };
                advance(
                    PokerView {
                        players: v.players.update(
                            i,
                            PlayerView { chips: (p.chips - actual) as u32, bet: (p.bet + actual) as u32, ..p },
                        ),
                        pot: v.pot.wrapping_add(actual),
                        ..v
                    },
                )
            },
            PokerAction::Raise(amt) => if amt > v.current_bet && amt >= p.bet && p.chips >= amt - p.bet {
                let diff = (amt - p.bet) as u32;
                advance(
                    PokerView {
                        players: v.players.update(
                            i,
                            PlayerView { chips: (p.chips - diff) as u32, bet: amt, ..p },
                        ),
                        current_bet: amt,
                        pot: v.pot.wrapping_add(diff),
                        ..v
                    },
                )
            } else {
                v
            },
            _ => v,
        }
    }
}

pub open spec fn seated(ps: Seq<PlayerView>, id: Seq<char>) -> bool {
    exists|i: int| 0 <= i < ps.len() && (#[trigger] ps[i]).id == id
}

pub open spec fn prefix8(s: Seq<char>) -> Seq<char> {
    if s.len() < 8 { s } else { s.subrange(0, 8) }
}

pub open spec fn newcomer(id: Seq<char>) -> PlayerView {
    PlayerView { id, chips: INITIAL_CHIPS, bet: 0, hand: Seq::empty(), folded: false }
}

/// Anyone who acts is seated first, with a fresh stack.
pub open spec fn register(v: PokerView, actor: Seq<char>) -> PokerView {
    if seated(v.players, actor) {
        v
    } else {
        PokerView {
            players: v.players.push(newcomer(actor)),
            log: "ID registered: "@ + prefix8(actor) + "..."@,
            ..v
        }
    }
}

/// A new hand dealt from the shuffled deck `d`: each seat, in order, takes
/// the top two cards.
pub open spec fn dealt(v: PokerView, d: Seq<Card>, after: PokerView) -> bool {
    let n = v.players.len() as int;
    after == PokerView {
        players: Seq::new(
            v.players.len(),
            |i: int| PlayerView { hand: seq![d[51 - 2 * i], d[50 - 2 * i]], folded: false, bet: 0, ..v.players[i] },
        ),
        deck: d.subrange(0, 52 - 2 * n),
        community: Seq::empty(),
        pot: 0,
        current_bet: v.small_blind.wrapping_mul(2),
        phase: PokerPhase::PreFlop,
        turn_idx: 0,
        log: "Cards Dealt! Blinds Posted."@,
        small_blind: v.small_blind,
    }
}

/// Largest table a deck can deal two cards to each.
pub const MAX_SEATS: usize = 26;

/// What `action` by `actor` does to the table. The host alone starts a
/// hand, with two to 26 players seated; betting actions count during a hand.
pub open spec fn poker_applied(v0: PokerView, action: PokerAction, actor: Seq<char>, is_host: bool, after: PokerView) -> bool {
    let v = register(v0, actor);
    if action == PokerAction::StartRound && is_host {
        if v.players.len() < 2 || v.players.len() > MAX_SEATS {
            after == v
        } else {
            exists|d: Seq<Card>| d.len() == 52 && #[trigger] d.to_multiset() == fresh_deck().to_multiset() && dealt(v, d, after)
        }
    } else if v.phase != PokerPhase::Waiting && v.phase != PokerPhase::Showdown {
        after == bet_step(v, action, actor)
    } else {
        after == v
    }
}

/// Replaces the bet of seat `i`.
fn set_bet(ps: &mut Vec<PlayerInfo>, i: usize, bet: u32)
    requires
        i < old(ps)@.len(),
    ensures
        final(ps)@.len() == old(ps)@.len(),
        players_view(final(ps)@) == players_view(old(ps)@).update(
            i as int,
            PlayerView { bet, ..players_view(old(ps)@)[i as int] },
        ),
{
    let p = ps.remove(i);
    ps.insert(i, PlayerInfo { current_bet: bet, ..p });
    assert(players_view(ps@) =~= players_view(old(ps)@).update(
        i as int,
        PlayerView { bet, ..players_view(old(ps)@)[i as int] },
    ));
}

/// Replaces chips, bet and folding of seat `i`.
fn set_stake(ps: &mut Vec<PlayerInfo>, i: usize, chips: u32, bet: u32, folded: bool)
    requires
        i < old(ps)@.len(),
    ensures
        final(ps)@.len() == old(ps)@.len(),
        players_view(final(ps)@) == players_view(old(ps)@).update(
            i as int,
            PlayerView { chips, bet, folded, ..players_view(old(ps)@)[i as int] },
        ),
{
    let p = ps.remove(i);
    ps.insert(i, PlayerInfo { chips, current_bet: bet, folded, ..p });
    assert(players_view(ps@) =~= players_view(old(ps)@).update(
        i as int,
        PlayerView { chips, bet, folded, ..players_view(old(ps)@)[i as int] },
    ));
}

fn count_active(ps: &Vec<PlayerInfo>) -> (r: usize)
    ensures
        r == active_count(players_view(ps@)),
{
    let ghost pv = players_view(ps@);
    let mut n: usize = 0;
    let mut i: usize = 0;
    while i < ps.len()
        invariant
            i <= ps@.len(),
            pv == players_view(ps@),
            n == active_count(pv.subrange(0, i as int)),
            n <= i,
        decreases ps@.len() - i,
    {
        assert(pv.subrange(0, i + 1).drop_last() =~= pv.subrange(0, i as int));
        if !ps[i].folded {
            n = n + 1;
        }
        i = i + 1;
    }
    assert(pv.subrange(0, ps@.len() as int) =~= pv);
    n
}

fn bets_matched(ps: &Vec<PlayerInfo>, bet: u32) -> (r: bool)
    ensures
        r == all_matched(players_view(ps@), bet),
{
    let ghost pv = players_view(ps@);
    let mut i: usize = 0;
    while i < ps.len()
        invariant
            i <= ps@.len(),
            pv == players_view(ps@),
            forall|k: int| 0 <= k < i && !(#[trigger] pv[k]).folded ==> pv[k].bet == bet,
        decreases ps@.len() - i,
    {
        if !ps[i].folded && ps[i].current_bet != bet {
            assert(!pv[i as int].folded && pv[i as int].bet != bet);
            return false;
        }
        i = i + 1;
    }
    true
}

impl PokerGame {
    /// Deals the next street; see [`next_street`].
    pub fn next_street(&self, state: &mut PokerState)
        ensures
            final(state).view() == next_street(old(state).view()),
    {
        let ghost v = state.view();
        let k: usize = match state.phase {
            PokerPhase::PreFlop => 3,
            PokerPhase::Flop => 1,
            PokerPhase::Turn => 1,
            _ => 0,
        };
        match state.phase {
            PokerPhase::PreFlop => state.phase = PokerPhase::Flop,
            PokerPhase::Flop => state.phase = PokerPhase::Turn,
            PokerPhase::Turn => state.phase = PokerPhase::River,
            _ => self.resolve_showdown(state),
        }
        let ghost w0 = state.view();
        let mut m: usize = 0;
        while m < k && state.deck.len() > 0
            invariant
                m <= k,
                k <= 3,
                k == 0 ==> state.view() == showdown(v),
                k > 0 ==> burn_deal(w0, k as nat) == burn_deal(state.view(), (k - m) as nat),
            decreases k - m,
        {
            let ghost before = state.view();
            let c = state.deck.pop().unwrap();
            state.community_cards.push(c);
            assert(state.view() == PokerView {
                community: before.community.push(before.deck.last()),
                deck: before.deck.drop_last(),
                ..before
            });
            m = m + 1;
        }
        assert(k > 0 ==> burn_deal(w0, k as nat) == state.view());
        let ghost w = state.view();
        let mut i: usize = 0;
        while i < state.players.len()
            invariant
                i <= state.players@.len(),
                state.players@.len() == w.players.len(),
                state.deck@ == w.deck,
                state.community_cards@ == w.community,
                state.pot == w.pot,
                state.current_bet == w.current_bet,
                state.turn_idx == w.turn_idx,
                state.phase == w.phase,
                state.log@ == w.log,
                state.small_blind == w.small_blind,
                forall|j: int| 0 <= j < w.players.len() ==> #[trigger] players_view(state.players@)[j] == if j < i {
                    PlayerView { bet: 0, ..w.players[j] }
                } else {
                    w.players[j]
                },
            decreases state.players@.len() - i,
        {
            set_bet(&mut state.players, i, 0);
            i = i + 1;
        }
        state.current_bet = 0;
        state.turn_idx = 0;
        assert(state.view().players =~= reset_bets(w).players);
    }

    /// Passes the turn after a player acts; see [`advance`].
    fn advance_turn(&self, state: &mut PokerState)
        requires
            old(state).turn_idx < old(state).players@.len(),
        ensures
            final(state).view() == advance(old(state).view()),
    {
        let ghost v = state.view();
        let active = count_active(&state.players);
        if active <= 1 {
            self.resolve_showdown(state);
            return;
        }
        let n = state.players.len();
        let ghost pv = players_view(state.players@);
        let mut t = (state.turn_idx + 1) % n;
        let mut fuel: usize = n;
        while fuel > 0 && state.players[t].folded
            invariant
                n == state.players@.len(),
                n > 0,
                t < n,
                fuel <= n,
                pv == players_view(state.players@),
                seek(pv, (v.turn_idx + 1) % (n as int), n as nat) == seek(pv, t as int, fuel as nat),
            decreases fuel,
        {
            t = (t + 1) % n;
            fuel = fuel - 1;
        }
        state.turn_idx = t;
        if bets_matched(&state.players, state.current_bet) {
            self.next_street(state);
        }
    }

    /// Applies a betting action; see [`bet_step`].
    fn bet(&self, state: &mut PokerState, action: PokerAction, actor: &PeerId)
        ensures
            final(state).view() == bet_step(old(state).view(), action, actor.text@),
    {
        let i = state.turn_idx;
        if i >= state.players.len() {
            return;
        }
        assert(players_view(state.players@)[i as int] == player_view(state.players@[i as int]));
        if state.players[i].id.text != actor.text {
            return;
        }
        let chips = state.players[i].chips;
        let cur = state.players[i].current_bet;
        let folded = state.players[i].folded;
        let ghost v = state.view();
        let ghost p = v.players[i as int];
        match action {
            PokerAction::Fold => {
                set_stake(&mut state.players, i, chips, cur, true);
                assert(state.view() == PokerView {
                    players: v.players.update(i as int, PlayerView { folded: true, ..p }),
                    ..v
                });
                self.advance_turn(state);
            },
            PokerAction::Call => {
                let diff = if state.current_bet > cur { state.current_bet - cur } else { 0 };
                let actual = if diff < chips { diff } else { chips };
                set_stake(&mut state.players, i, chips - actual, cur + actual, folded);
                state.pot = state.pot.wrapping_add(actual);
                assert(state.view() == PokerView {
                    players: v.players.update(
                        i as int,
                        PlayerView { chips: (p.chips - actual) as u32, bet: (p.bet + actual) as u32, ..p },
                    ),
                    pot: v.pot.wrapping_add(actual),
                    ..v
                });
                self.advance_turn(state);
            },
            PokerAction::Raise(amt) => {
                if amt > state.current_bet && amt >= cur && chips >= amt - cur {
                    let diff = amt - cur;
                    set_stake(&mut state.players, i, chips - diff, amt, folded);
                    state.current_bet = amt;
                    state.pot = state.pot.wrapping_add(diff);
                    assert(state.view() == PokerView {
                        players: v.players.update(
                            i as int,
                            PlayerView { chips: (p.chips - diff) as u32, bet: amt, ..p },
                        ),
                        current_bet: amt,
                        pot: v.pot.wrapping_add(diff),
                        ..v
                    });
                    self.advance_turn(state);
                }
            },
            _ => {},
        }
    }
}

/// The table before anyone sits down.
pub open spec fn initial_table() -> PokerView {
    PokerView {
        players: Seq::empty(),
        deck: Seq::empty(),
        community: Seq::empty(),
        pot: 0,
        current_bet: 0,
        turn_idx: 0,
        phase: PokerPhase::Waiting,
        log: "Wait for both IDs to appear in 'Players', then Host press 'S'"@,
        small_blind: 10,
    }
}

impl PokerState {
    pub fn new() -> (r: Self)
        ensures
            r.view() == initial_table(),
    {
        let r = PokerState {
            players: Vec::new(),
            deck: Vec::new(),
            community_cards: Vec::new(),
            pot: 0,
            current_bet: 0,
            turn_idx: 0,
            phase: PokerPhase::Waiting,
            log: "Wait for both IDs to appear in 'Players', then Host press 'S'".to_owned(),
            small_blind: 10,
        };
        assert(r.view().players =~= Seq::<PlayerView>::empty());
        r
    }
}

/// Seats `actor` unless already seated.
fn register_player(state: &mut PokerState, actor: &PeerId)
    ensures
        final(state).view() == register(old(state).view(), actor.text@),
{
    let ghost v = state.view();
    let mut i: usize = 0;
    while i < state.players.len()
        invariant
            i <= state.players@.len(),
            state.view() == v,
            forall|k: int| 0 <= k < i ==> (#[trigger] v.players[k]).id != actor.text@,
        decreases state.players@.len() - i,
    {
        assert(v.players[i as int] == player_view(state.players@[i as int]));
        if state.players[i].id.text == actor.text {
            assert(seated(v.players, actor.text@));
            return;
        }
        i = i + 1;
    }
    let ghost ps0 = state.players@;
    state.players.push(PlayerInfo {
        id: PeerId { text: actor.text.clone() },
        chips: INITIAL_CHIPS,
        current_bet: 0,
        hand: Vec::new(),
        folded: false,
    });
    assert(players_view(state.players@) =~= v.players.push(newcomer(actor.text@)));
    let cs = crate::text::chars_of(actor.text.as_str());
    let mut head: Vec<char> = Vec::new();
    let mut k: usize = 0;
    while k < cs.len() && k < 8
        invariant
            k <= cs@.len(),
            k <= 8,
            cs@ == actor.text@,
            head@ == cs@.subrange(0, k as int),
        decreases 8 - k,
    {
        head.push(cs[k]);
        k = k + 1;
        assert(head@ =~= cs@.subrange(0, k as int));
    }
    assert(head@ =~= prefix8(actor.text@));
    let mut log = "ID registered: ".to_owned();
    log.append(crate::text::string_of(&head).as_str());
    log.append("...");
    state.log = log;
}

/// Gives seat `i` a new hand and clears its bet and folding.
fn set_hand(ps: &mut Vec<PlayerInfo>, i: usize, hand: Vec<Card>)
    requires
        i < old(ps)@.len(),
    ensures
        final(ps)@.len() == old(ps)@.len(),
        players_view(final(ps)@) == players_view(old(ps)@).update(
            i as int,
            PlayerView { hand: hand@, folded: false, bet: 0, ..players_view(old(ps)@)[i as int] },
        ),
{
    let p = ps.remove(i);
    ps.insert(i, PlayerInfo { hand, folded: false, current_bet: 0, ..p });
    assert(players_view(ps@) =~= players_view(old(ps)@).update(
        i as int,
        PlayerView { hand: hand@, folded: false, bet: 0, ..players_view(old(ps)@)[i as int] },
    ));
}

/// Shuffles a fresh deck and deals a new hand.
fn start_round(state: &mut PokerState)
    requires
        2 <= old(state).players@.len() <= MAX_SEATS,
    ensures
        exists|d: Seq<Card>| d.len() == 52 && #[trigger] d.to_multiset() == fresh_deck().to_multiset() && dealt(
            old(state).view(),
            d,
            final(state).view(),
        ),
{
    let ghost v = state.view();
    state.deck = create_deck();
    let ghost d = state.deck@;
    state.community_cards = Vec::new();
    state.pot = 0;
    state.current_bet = state.small_blind.wrapping_mul(2);
    state.phase = PokerPhase::PreFlop;
    state.turn_idx = 0;
    let n = state.players.len();
    let mut i: usize = 0;
    while i < n
        invariant
            i <= n,
            n == state.players@.len(),
            n == v.players.len(),
            n <= MAX_SEATS,
            d.len() == 52,
            state.deck@ == d.subrange(0, 52 - 2 * i),
            state.community_cards@.len() == 0,
            state.pot == 0,
            state.current_bet == v.small_blind.wrapping_mul(2),
            state.phase == PokerPhase::PreFlop,
            state.turn_idx == 0,
            state.small_blind == v.small_blind,
            forall|j: int| 0 <= j < n ==> #[trigger] players_view(state.players@)[j] == if j < i {
                PlayerView { hand: seq![d[51 - 2 * j], d[50 - 2 * j]], folded: false, bet: 0, ..v.players[j] }
            } else {
                v.players[j]
            },
        decreases n - i,
    {
        let c1 = state.deck.pop().unwrap();
        let c2 = state.deck.pop().unwrap();
        assert(state.deck@ =~= d.subrange(0, 52 - 2 * (i + 1)));
        let hand = vec![c1, c2];
        assert(hand@ =~= seq![d[51 - 2 * i as int], d[50 - 2 * i as int]]);
        set_hand(&mut state.players, i, hand);
        i = i + 1;
    }
    state.log = "Cards Dealt! Blinds Posted.".to_owned();
    assert(state.view().players =~= Seq::new(
        v.players.len(),
        |j: int| PlayerView { hand: seq![d[51 - 2 * j], d[50 - 2 * j]], folded: false, bet: 0, ..v.players[j] },
    ));
    assert(state.view().community =~= Seq::<Card>::empty());
    assert(dealt(v, d, state.view()));
}

impl PokerGame {
    pub closed spec fn spec_is_host(&self) -> bool {
        self.is_host
    }

    pub closed spec fn spec_me(&self) -> Seq<char> {
        self.my_id.text@
    }

    pub closed spec fn spec_bet_input(&self) -> Seq<char> {
        self.bet_input@
    }

    /// The typed bet is at most five decimal digits.
    pub open spec fn wf(&self) -> bool {
        &&& self.spec_bet_input().len() <= 5
        &&& forall|i: int| 0 <= i < self.spec_bet_input().len() ==> crate::text::is_digit(#[trigger] self.spec_bet_input()[i])
    }

    pub fn new(is_host: bool, my_id: PeerId) -> (r: Self)
        ensures
            r.wf(),
            r.spec_is_host() == is_host,
            r.spec_me() == my_id.text@,
            r.spec_bet_input().len() == 0,
    {
        PokerGame { is_host, my_id, bet_input: String::new() }
    }

    pub fn bet_input(&self) -> (r: &str)
        ensures
            r@ == self.spec_bet_input(),
    {
        self.bet_input.as_str()
    }

    /// Applies an action of `actor`; see [`poker_applied`].
    pub fn handle_action(&self, action: PokerAction, state: &mut PokerState, actor: &PeerId)
        ensures
            poker_applied(old(state).view(), action, actor.text@, self.spec_is_host(), final(state).view()),
    {
        register_player(state, actor);
        if matches!(action, PokerAction::StartRound) && self.is_host {
            if state.players.len() < 2 || state.players.len() > MAX_SEATS {
                return;
            }
            start_round(state);
        } else if state.phase != PokerPhase::Waiting && state.phase != PokerPhase::Showdown {
            self.bet(state, action, actor);
        }
    }

    /// One key press: `j` joins, `s` starts a hand, `f` folds, `c` or `l`
    /// calls; digits type a bet (up to five), Backspace erases, and Enter
    /// raises to the typed bet, if any, and clears it.
    pub fn handle_input(&mut self, key: Key) -> (r: Option<PokerAction>)
        requires
            old(self).wf(),
        ensures
            final(self).wf(),
            final(self).spec_is_host() == old(self).spec_is_host(),
            final(self).spec_me() == old(self).spec_me(),
            ({
                let b = old(self).spec_bet_input();
                match key {
                    Key::Char(c) => if c == 'j' {
                        r == Some(PokerAction::Join) && final(self).spec_bet_input() == b
                    } else if c == 's' {
                        r == Some(PokerAction::StartRound) && final(self).spec_bet_input() == b
                    } else if c == 'f' {
                        r == Some(PokerAction::Fold) && final(self).spec_bet_input() == b
                    } else if c == 'c' || c == 'l' {
                        r == Some(PokerAction::Call) && final(self).spec_bet_input() == b
                    } else {
                        r is None && final(self).spec_bet_input() == if crate::text::is_digit(c) && b.len() < 5 {
                            b.push(c)
                        } else {
                            b
                        }
                    },
                    Key::Backspace => r is None && final(self).spec_bet_input() == if b.len() > 0 {
                        b.drop_last()
                    } else {
                        b
                    },
                    Key::Enter => final(self).spec_bet_input().len() == 0 && if b.len() > 0 {
                        r == Some(PokerAction::Raise(crate::text::digits_value(b) as u32))
                    } else {
                        r is None
                    },
                    _ => r is None && final(self).spec_bet_input() == b,
                }
            }),
    {
        match key {
            Key::Char(c) => {
                if c == 'j' {
                    Some(PokerAction::Join)
                } else if c == 's' {
                    Some(PokerAction::StartRound)
                } else if c == 'f' {
                    Some(PokerAction::Fold)
                } else if c == 'c' || c == 'l' {
                    Some(PokerAction::Call)
                } else {
                    if '0' <= c && c <= '9' && self.bet_input.as_str().len() < 5 {
                        proof {
                            crate::text::lemma_ascii_bytes(self.bet_input@);
                        }
                        crate::text::push_char(&mut self.bet_input, c);
                        assert forall|i: int| 0 <= i < self.bet_input@.len() implies crate::text::is_digit(
                            #[trigger] self.bet_input@[i],
                        ) by {
                            if i < old(self).bet_input@.len() {
                                assert(self.bet_input@[i] == old(self).spec_bet_input()[i]);
                            }
                        }
                    } else {
                        proof {
                            crate::text::lemma_ascii_bytes(self.bet_input@);
                        }
                    }
                    None
                }
            },
            Key::Backspace => {
                crate::text::pop_char(&mut self.bet_input);
                assert forall|i: int| 0 <= i < self.bet_input@.len() implies crate::text::is_digit(
                    #[trigger] self.bet_input@[i],
                ) by {
                    assert(self.bet_input@[i] == old(self).spec_bet_input()[i]);
                }
                None
            },
            Key::Enter => {
                let digits = crate::text::chars_of(self.bet_input.as_str());
                self.bet_input = String::new();
                if digits.len() == 0 {
                    return None;
                }
                assert forall|i: int| 0 <= i < digits@.len() implies crate::text::is_digit(#[trigger] digits@[i]) by {
                    assert(digits@[i] == old(self).spec_bet_input()[i]);
                }
                proof {
                    crate::text::lemma_five_digits(digits@);
                }
                match crate::text::parse_digits(&digits) {
                    Some(amt) => Some(PokerAction::Raise(amt)),
                    None => None,
                }
            },
            _ => None,
        }
    }
}

impl Game for PokerGame {
    type Action = PokerAction;
    type State = PokerState;

    open spec fn initial(&self, state: PokerState) -> bool {
        state.view() == initial_table()
    }

    open spec fn applied(&self, before: PokerState, action: PokerAction, player: Seq<char>, after: PokerState) -> bool {
        poker_applied(before.view(), action, player, self.spec_is_host(), after.view())
    }

    /// The host makes sure it has a seat.
    open spec fn ticked(&self, before: PokerState, after: PokerState) -> bool {
        if self.spec_is_host() && !seated(before.view().players, self.spec_me()) {
            after.view() == PokerView { players: before.view().players.push(newcomer(self.spec_me())), ..before.view() }
        } else {
            after.view() == before.view()
        }
    }

    open spec fn tick_ms(&self) -> u64 {
        crate::engine::DEFAULT_TICK_MS
    }

    open spec fn ticks(&self) -> bool {
        true
    }

    open spec fn key_action(&self, key: Key) -> Option<PokerAction> {
        match key {
            Key::Char(c) => if c == 'j' {
                Some(PokerAction::Join)
            } else if c == 's' {
                Some(PokerAction::StartRound)
            } else if c == 'f' {
                Some(PokerAction::Fold)
            } else if c == 'c' || c == 'l' {
                Some(PokerAction::Call)
            } else {
                None
            },
            _ => None,
        }
    }

    fn new_game(&self) -> (r: PokerState) {
        PokerState::new()
    }

    fn action_for_key(&self, key: Key) -> (r: Option<PokerAction>) {
        match key {
            Key::Char(c) => {
                if c == 'j' {
                    Some(PokerAction::Join)
                } else if c == 's' {
                    Some(PokerAction::StartRound)
                } else if c == 'f' {
                    Some(PokerAction::Fold)
                } else if c == 'c' || c == 'l' {
                    Some(PokerAction::Call)
                } else {
                    None
                }
            },
            _ => None,
        }
    }

    fn handle_action(&self, action: PokerAction, state: &mut PokerState, player: &PeerId) {
        PokerGame::handle_action(self, action, state, player)
    }

    fn on_tick(&self, state: &mut PokerState) {
        if self.is_host {
            let ghost v = state.view();
            let mut i: usize = 0;
            while i < state.players.len()
                invariant
                    i <= state.players@.len(),
                    state.view() == v,
                    forall|k: int| 0 <= k < i ==> (#[trigger] v.players[k]).id != self.spec_me(),
                decreases state.players@.len() - i,
            {
                assert(v.players[i as int] == player_view(state.players@[i as int]));
                if state.players[i].id.text == self.my_id.text {
                    assert(seated(v.players, self.spec_me()));
                    return;
                }
                i = i + 1;
            }
            state.players.push(PlayerInfo {
                id: PeerId { text: self.my_id.text.clone() },
                chips: INITIAL_CHIPS,
                current_bet: 0,
                hand: Vec::new(),
                folded: false,
            });
            assert(state.view().players =~= v.players.push(newcomer(self.spec_me())));
        }
    }

    fn tick_rate(&self) -> (r: Option<u64>) {
        Some(crate::engine::DEFAULT_TICK_MS)
    }
}

} // verus!
