//! Two-board battleship: each side moves a targeting cursor over the other's
//! board and fires in turn; a miss passes the turn, a hit keeps it.

use vstd::prelude::*;
use crate::engine::{Game, Key};
use crate::session::PeerId;

verus! {

/// Side length of a board.
pub const GRID_SIZE: usize = 8;

#[derive(Debug, Clone, Copy, PartialEq, Eq)]
pub enum BattleAction {
    /// Moves the targeting cursor of the host's or the client's side.
    MoveCursor { dx: i8, dy: i8, is_host: bool },
    /// Fires at the cursor of the host's or the client's side.
    Fire { is_host: bool },
}

#[derive(Debug, Clone, Copy, PartialEq, Eq, Structural)]
pub enum Tile {
    Empty,
    Ship,
    Hit,
    Miss,
}

impl Default for Tile {
    fn default() -> (r: Tile)
        ensures
            r == Tile::Empty,
    {
        Tile::Empty
    }
}

/// A board, indexed by row and then by column.
pub type Board = [[Tile; 8]; 8];

pub struct BattleState {
    /// The host's board.
    pub p1_board: Board,
    /// The client's board.
    pub p2_board: Board,
    /// The host's cursor, as (column, row) on the client's board.
    pub p1_cursor: (usize, usize),
    /// The client's cursor, as (column, row) on the host's board.
    pub p2_cursor: (usize, usize),
    pub host_turn: bool,
    pub winner: Option<String>,
    pub last_message: String,
}

pub open spec fn opt_view(o: Option<String>) -> Option<Seq<char>> {
    match o {
        Some(s) => Some(s@),
        None => None,
    }
}

pub open spec fn tile_at(b: Board, x: int, y: int) -> Tile {
    b@[y]@[x]
}

/// Whether some ship tile is left on `b`.
pub open spec fn has_ship(b: Board) -> bool {
    exists|x: int, y: int| 0 <= x < 8 && 0 <= y < 8 && #[trigger] tile_at(b, x, y) == Tile::Ship
}

/// `after` is `before` with the tile at column `x`, row `y` set to `t`.
pub open spec fn board_set(before: Board, after: Board, x: int, y: int, t: Tile) -> bool {
    forall|i: int, j: int|
        0 <= i < 8 && 0 <= j < 8 ==> #[trigger] tile_at(after, i, j) == if i == x && j == y {
            t
        } else {
            tile_at(before, i, j)
        }
}

/// A cursor coordinate moved by `d`, kept on the board.
pub open spec fn move_coord(c: usize, d: i8) -> usize {
    let v = (c as i8).wrapping_add(d);
    if v < 0 {
        0
    } else if v > 7 {
        7
    } else {
        v as usize
    }
}

/// The two states agree on everything but, possibly, the boards, the
/// cursors, the turn, the winner and the message, as the flags say.
pub open spec fn same_except(
    a: BattleState,
    b: BattleState,
    boards: bool,
    cursors: bool,
    turn: bool,
    winner: bool,
    message: bool,
) -> bool {
    &&& (boards || (a.p1_board == b.p1_board && a.p2_board == b.p2_board))
    &&& (cursors || (a.p1_cursor == b.p1_cursor && a.p2_cursor == b.p2_cursor))
    &&& (turn || a.host_turn == b.host_turn)
    &&& (winner || opt_view(a.winner) == opt_view(b.winner))
    &&& (message || a.last_message@ == b.last_message@)
}

/// A shot of `player` at column `x`, row `y` of `target`, which becomes
/// `target2`; `other` is the board not fired at, and `host` says which
/// side fires.
pub open spec fn shot(
    before: BattleState,
    after: BattleState,
    host: bool,
    x: int,
    y: int,
    player: Seq<char>,
) -> bool {
    let target = if host { before.p2_board } else { before.p1_board };
    let target2 = if host { after.p2_board } else { after.p1_board };
    let other_same = if host { after.p1_board == before.p1_board } else { after.p2_board == before.p2_board };
    match tile_at(target, x, y) {
        Tile::Ship => {
            &&& other_same
            &&& board_set(target, target2, x, y, Tile::Hit)
            &&& after.last_message@ == "Player "@ + player + " HIT a ship!"@
            &&& opt_view(after.winner) == if has_ship(target2) {
                opt_view(before.winner)
            } else {
                Some("Player "@ + player)
            }
            &&& same_except(before, after, true, false, false, true, true)
        },
        Tile::Empty => {
            &&& other_same
            &&& board_set(target, target2, x, y, Tile::Miss)
            &&& after.last_message@ == "Player "@ + player + " MISSED!"@
            &&& after.host_turn == !before.host_turn
            &&& same_except(before, after, true, false, true, false, true)
        },
        _ => {
            &&& after.last_message@ == "Already fired there!"@
            &&& same_except(before, after, false, false, false, false, true)
        },
    }
}

/// The rules: nothing changes once there is a winner; a cursor move is
/// always allowed; a shot out of turn only earns a reminder; a shot in turn
/// at the shooter's cursor hits, misses, or finds the tile already fired at.
pub open spec fn battle_applied(
    before: BattleState,
    action: BattleAction,
    player: Seq<char>,
    after: BattleState,
) -> bool {
    if before.winner is Some {
        same_except(before, after, false, false, false, false, false)
    } else {
        match action {
            BattleAction::MoveCursor { dx, dy, is_host } => {
                let c = if is_host { before.p1_cursor } else { before.p2_cursor };
                let moved = (move_coord(c.0, dx), move_coord(c.1, dy));
                &&& (if is_host {
                    after.p1_cursor == moved && after.p2_cursor == before.p2_cursor
                } else {
                    after.p2_cursor == moved && after.p1_cursor == before.p1_cursor
                })
                &&& same_except(before, after, false, true, false, false, false)
            },
            BattleAction::Fire { is_host } => {
                let c = if is_host { before.p1_cursor } else { before.p2_cursor };
                if is_host != before.host_turn {
                    &&& after.last_message@ == "Wait for your turn!"@
                    &&& same_except(before, after, false, false, false, false, true)
                } else if c.0 < 8 && c.1 < 8 {
                    shot(before, after, is_host, c.0 as int, c.1 as int, player)
                } else {
                    same_except(before, after, false, false, false, false, false)
                }
            },
        }
    }
}

fn move_cursor_coord(c: usize, d: i8) -> (r: usize)
    ensures
        r == move_coord(c, d),
{
    let v = (c as i8).wrapping_add(d);
    if v < 0 {
        0
    } else if v > 7 {
        7
    } else {
        v as usize
    }
}

fn any_ship(b: &Board) -> (r: bool)
    ensures
        r == has_ship(*b),
{
    let mut y: usize = 0;
    while y < GRID_SIZE
        invariant
            y <= 8,
            forall|i: int, j: int| 0 <= i < 8 && 0 <= j < y ==> #[trigger] tile_at(*b, i, j) != Tile::Ship,
        decreases 8 - y,
    {
        let mut x: usize = 0;
        while x < GRID_SIZE
            invariant
                y < 8,
                x <= 8,
                forall|i: int, j: int| 0 <= i < 8 && 0 <= j < y ==> #[trigger] tile_at(*b, i, j) != Tile::Ship,
                forall|i: int| 0 <= i < x ==> #[trigger] tile_at(*b, i, y as int) != Tile::Ship,
            decreases 8 - x,
        {
            if b[y][x] == Tile::Ship {
                assert(tile_at(*b, x as int, y as int) == Tile::Ship);
                return true;
            }
            x = x + 1;
        }
        y = y + 1;
    }
    false
}

/// Sets one tile of a board.
fn set_tile(b: &mut Board, x: usize, y: usize, t: Tile)
    requires
        x < 8,
        y < 8,
    ensures
        board_set(*old(b), *final(b), x as int, y as int, t),
{
    let mut row = b[y];
    row[x] = t;
    b[y] = row;
}

/// "Player " followed by `player`.
fn player_label(player: &PeerId) -> (r: String)
    ensures
        r@ == "Player "@ + player.text@,
{
    let mut s = "Player ".to_owned();
    s.append(player.text.as_str());
    s
}

/// Battleship for one side of a session.
pub struct BattleshipGame {
    is_host: bool,
}

impl BattleshipGame {
    pub fn new(is_host: bool) -> (r: Self)
        ensures
            r.spec_is_host() == is_host,
    {
        BattleshipGame { is_host }
    }

    pub closed spec fn spec_is_host(&self) -> bool {
        self.is_host
    }
}

/// The opening position: two-tile ships on each board, the host to fire first.
pub open spec fn battle_initial(s: BattleState) -> bool {
    &&& forall|i: int, j: int|
        0 <= i < 8 && 0 <= j < 8 ==> #[trigger] tile_at(s.p1_board, i, j) == if j == 1 && (i == 1
            || i == 2) {
            Tile::Ship
        } else {
            Tile::Empty
        }
    &&& forall|i: int, j: int|
        0 <= i < 8 && 0 <= j < 8 ==> #[trigger] tile_at(s.p2_board, i, j) == if j == 5 && (i == 5
            || i == 6) {
            Tile::Ship
        } else {
            Tile::Empty
        }
    &&& s.p1_cursor == (0usize, 0usize)
    &&& s.p2_cursor == (0usize, 0usize)
    &&& s.host_turn
    &&& s.winner is None
    &&& s.last_message@ == "Game Start! Host (P1) moves first."@
}

impl BattleState {
    pub fn new() -> (r: BattleState)
        ensures
            battle_initial(r),
    {
        let mut p1: Board = [[Tile::Empty; 8]; 8];
        let mut p2: Board = [[Tile::Empty; 8]; 8];
        set_tile(&mut p1, 1, 1, Tile::Ship);
        set_tile(&mut p1, 2, 1, Tile::Ship);
        set_tile(&mut p2, 5, 5, Tile::Ship);
        set_tile(&mut p2, 6, 5, Tile::Ship);
        BattleState {
            p1_board: p1,
            p2_board: p2,
            p1_cursor: (0, 0),
            p2_cursor: (0, 0),
            host_turn: true,
            winner: None,
            last_message: "Game Start! Host (P1) moves first.".to_owned(),
        }
    }
}

impl Game for BattleshipGame {
    type Action = BattleAction;
    type State = BattleState;

    open spec fn initial(&self, state: BattleState) -> bool {
        battle_initial(state)
    }

    open spec fn applied(&self, before: BattleState, action: BattleAction, player: Seq<char>, after: BattleState) -> bool {
        battle_applied(before, action, player, after)
    }

    open spec fn ticked(&self, before: BattleState, after: BattleState) -> bool {
        same_except(before, after, false, false, false, false, false)
    }

    open spec fn tick_ms(&self) -> u64 {
        0
    }

    open spec fn ticks(&self) -> bool {
        false
    }

    /// Arrows move this side's cursor, Enter or space fires.
    open spec fn key_action(&self, key: Key) -> Option<BattleAction> {
        let h = self.spec_is_host();
        match key {
            Key::Up => Some(BattleAction::MoveCursor { dx: 0, dy: -1i8, is_host: h }),
            Key::Down => Some(BattleAction::MoveCursor { dx: 0, dy: 1, is_host: h }),
            Key::Left => Some(BattleAction::MoveCursor { dx: -1i8, dy: 0, is_host: h }),
            Key::Right => Some(BattleAction::MoveCursor { dx: 1, dy: 0, is_host: h }),
            Key::Enter => Some(BattleAction::Fire { is_host: h }),
            Key::Char(c) => if c == ' ' { Some(BattleAction::Fire { is_host: h }) } else { None },
            _ => None,
        }
    }

    fn new_game(&self) -> (r: BattleState) {
        BattleState::new()
    }

    fn action_for_key(&self, key: Key) -> (r: Option<BattleAction>) {
        let h = self.is_host;
        match key {
            Key::Up => Some(BattleAction::MoveCursor { dx: 0, dy: -1, is_host: h }),
            Key::Down => Some(BattleAction::MoveCursor { dx: 0, dy: 1, is_host: h }),
            Key::Left => Some(BattleAction::MoveCursor { dx: -1, dy: 0, is_host: h }),
            Key::Right => Some(BattleAction::MoveCursor { dx: 1, dy: 0, is_host: h }),
            Key::Enter => Some(BattleAction::Fire { is_host: h }),
            Key::Char(c) => if c == ' ' { Some(BattleAction::Fire { is_host: h }) } else { None },
            _ => None,
        }
    }

    fn handle_action(&self, action: BattleAction, state: &mut BattleState, player: &PeerId) {
        if state.winner.is_some() {
            return;
        }
        match action {
            BattleAction::MoveCursor { dx, dy, is_host } => {
                if is_host {
                    state.p1_cursor = (move_cursor_coord(state.p1_cursor.0, dx), move_cursor_coord(state.p1_cursor.1, dy));
                } else {
                    state.p2_cursor = (move_cursor_coord(state.p2_cursor.0, dx), move_cursor_coord(state.p2_cursor.1, dy));
                }
            },
            BattleAction::Fire { is_host } => {
                if is_host != state.host_turn {
                    state.last_message = "Wait for your turn!".to_owned();
                    return;
                }
                let (cx, cy) = if is_host { state.p1_cursor } else { state.p2_cursor };
                if cx >= GRID_SIZE || cy >= GRID_SIZE {
                    return;
                }
                let mut target: Board = if is_host { state.p2_board } else { state.p1_board };
                match target[cy][cx] {
                    Tile::Ship => {
                        set_tile(&mut target, cx, cy, Tile::Hit);
                        let mut msg = player_label(player);
                        msg.append(" HIT a ship!");
                        state.last_message = msg;
                        if !any_ship(&target) {
                            state.winner = Some(player_label(player));
                        }
                    },
                    Tile::Empty => {
                        set_tile(&mut target, cx, cy, Tile::Miss);
                        let mut msg = player_label(player);
                        msg.append(" MISSED!");
                        state.last_message = msg;
                        state.host_turn = !state.host_turn;
                    },
                    _ => {
                        state.last_message = "Already fired there!".to_owned();
                    },
                }
                if is_host {
                    state.p2_board = target;
                } else {
                    state.p1_board = target;
                }
            },
        }
    }

    fn on_tick(&self, state: &mut BattleState) {
    }

    fn tick_rate(&self) -> (r: Option<u64>) {
        None
    }
}

} // verus!
