//! Battleship with a setup phase: each side places its own ships on a
//! 10 by 10 board, declares itself ready, then the two fire in turn and
//! report hits back.

pub mod game;

use vstd::prelude::*;
use crate::engine::Key;
use crate::runner::{joined_count, joined_mode, left_count, line_after, EngineEvent, InputLine, Lobby};
use crate::session::PeerId;
use crate::text::{decimal, decimal_string, lower_of, numeral, parse_usize, split_words, string_of, to_lower, words};

verus! {

/// Side length of a board.
pub const BOARD_SIZE: usize = 10;

/// Ships each side starts with.
pub const FLEET_SIZE: usize = 5;

#[derive(Debug, Clone, Copy, PartialEq, Eq, Structural)]
pub enum Cell {
    Empty,
    Ship,
    Hit,
    Miss,
}

#[derive(Debug, Clone, Copy, PartialEq, Eq, Structural)]
pub enum GamePhase {
    /// Waiting for the opponent to join.
    Lobby,
    /// Placing ships.
    Setup,
    /// Ready, waiting for the opponent to be ready.
    Waiting,
    Playing,
    Ended,
}

/// A board, indexed by row and then by column.
pub type Grid = [[Cell; 10]; 10];

pub struct BattleshipState {
    pub my_board: Grid,
    pub opponent_view: Grid,
    pub is_my_turn: bool,
    pub status_message: String,
    pub phase: GamePhase,
    pub opponent_id: Option<PeerId>,
    pub my_ships_remaining: usize,
    pub opponent_ships_remaining: usize,
}

#[derive(Debug, Clone, Copy, PartialEq, Eq)]
pub enum BattleshipInput {
    Fire { x: usize, y: usize },
    Report { x: usize, y: usize, hit: bool },
    PlaceShip { x: usize, y: usize, horizontal: bool, length: usize },
    ReadyForGame,
}

pub open spec fn cell(g: Grid, x: int, y: int) -> Cell {
    g@[y]@[x]
}

/// `after` is `before` with the cell at column `x`, row `y` set to `c`.
pub open spec fn grid_set(before: Grid, after: Grid, x: int, y: int, c: Cell) -> bool {
    forall|i: int, j: int|
        0 <= i < 10 && 0 <= j < 10 ==> #[trigger] cell(after, i, j) == if i == x && j == y {
            c
        } else {
            cell(before, i, j)
        }
}

/// Whether column `i`, row `j` lies on the ship of `len` cells from (`x`, `y`).
pub open spec fn on_ship(x: int, y: int, horizontal: bool, len: int, i: int, j: int) -> bool {
    if horizontal {
        j == y && x <= i < x + len
    } else {
        i == x && y <= j < y + len
    }
}

pub open spec fn overlaps(g: Grid, x: int, y: int, horizontal: bool, len: int) -> bool {
    exists|i: int, j: int|
        0 <= i < 10 && 0 <= j < 10 && on_ship(x, y, horizontal, len, i, j) && #[trigger] cell(g, i, j)
            == Cell::Ship
}

/// `after` is `before` with the ship of `len` cells from (`x`, `y`) placed.
pub open spec fn placed(before: Grid, after: Grid, x: int, y: int, horizontal: bool, len: int) -> bool {
    forall|i: int, j: int|
        0 <= i < 10 && 0 <= j < 10 ==> #[trigger] cell(after, i, j) == if on_ship(x, y, horizontal, len, i, j) {
            Cell::Ship
        } else {
            cell(before, i, j)
        }
}

/// Ship cells among the first `n` cells of a row.
pub open spec fn row_ships(r: [Cell; 10], n: int) -> nat
    decreases n,
{
    if n <= 0 {
        0
    } else {
        row_ships(r, n - 1) + if r@[n - 1] == Cell::Ship { 1nat } else { 0nat }
    }
}

/// Ship cells among the first `m` rows.
pub open spec fn grid_ships(g: Grid, m: int) -> nat
    decreases m,
{
    if m <= 0 {
        0
    } else {
        grid_ships(g, m - 1) + row_ships(g@[m - 1], 10)
    }
}

pub open spec fn opp_view(s: BattleshipState) -> Option<Seq<char>> {
    match s.opponent_id {
        Some(p) => Some(p.text@),
        None => None,
    }
}

pub open spec fn sat_dec(n: usize) -> usize {
    if n > 0 { (n - 1) as usize } else { 0 }
}

/// The two states agree on every field whose flag is false (the opponent
/// aside, which every input treats alike).
pub open spec fn keeps(
    o: BattleshipState,
    f: BattleshipState,
    board: bool,
    view: bool,
    turn: bool,
    status: bool,
    phase: bool,
    ships: bool,
) -> bool {
    &&& (board || f.my_board == o.my_board)
    &&& (view || f.opponent_view == o.opponent_view)
    &&& (turn || f.is_my_turn == o.is_my_turn)
    &&& (status || f.status_message@ == o.status_message@)
    &&& (phase || f.phase == o.phase)
    &&& (ships || (f.my_ships_remaining == o.my_ships_remaining && f.opponent_ships_remaining
        == o.opponent_ships_remaining))
}

pub open spec fn unchanged(o: BattleshipState, f: BattleshipState) -> bool {
    keeps(o, f, false, false, false, false, false, false)
}

/// Nothing at all changes, the opponent included.
pub open spec fn still(o: BattleshipState, f: BattleshipState) -> bool {
    unchanged(o, f) && opp_view(f) == opp_view(o)
}

/// What the opponent joining does; see [`Battleship::handle_player_joined`].
pub open spec fn joined_post(o: BattleshipState, player: Seq<char>, f: BattleshipState) -> bool {
    &&& opp_view(f) == Some(player)
    &&& o.phase == GamePhase::Lobby ==> f.phase == GamePhase::Setup && f.status_message@
        == "Opponent connected! Place ships: type 'p 0 0 h 5' (X Y horizontal/vertical length). Then 'ready'."@
    &&& o.phase != GamePhase::Lobby ==> f.phase == o.phase && f.status_message@ == "Player "@ + player
        + " joined!"@
    &&& keeps(o, f, false, false, false, true, true, false)
}

pub open spec fn placed_message(x: usize, y: usize, ships: nat) -> Seq<char> {
    "\u{2713} Ship placed at ("@ + decimal(x as nat) + ","@ + decimal(y as nat) + ")! "@ + decimal(
        ships,
    ) + " ships placed. Place more (e.g. 'p 2 3 v 4') or type 'ready'"@
}

/// Ship placement during setup.
pub open spec fn place_post(o: BattleshipState, x: usize, y: usize, h: bool, len: usize, f: BattleshipState) -> bool {
    if len < 2 || len > 5 {
        keeps(o, f, false, false, false, true, false, false) && f.status_message@
            == "Invalid ship length! Use 2-5."@
    } else if x >= 10 || y >= 10 {
        keeps(o, f, false, false, false, true, false, false) && f.status_message@
            == "Coordinates out of bounds! Use 0-9."@
    } else if (h && x + len > 10) || (!h && y + len > 10) {
        keeps(o, f, false, false, false, true, false, false) && f.status_message@
            == "Ship doesn't fit on board!"@
    } else if overlaps(o.my_board, x as int, y as int, h, len as int) {
        keeps(o, f, false, false, false, true, false, false) && f.status_message@
            == "Ships overlap! Try different position."@
    } else {
        &&& keeps(o, f, true, false, false, true, false, false)
        &&& placed(o.my_board, f.my_board, x as int, y as int, h, len as int)
        &&& f.status_message@ == placed_message(x, y, grid_ships(f.my_board, 10) / 5)
    }
}

/// What an input from `player` does, `local` being this side's identity;
/// `r` is the message to send back to the opponent, if any.
pub open spec fn input_post(
    o: BattleshipState,
    input: BattleshipInput,
    player: Seq<char>,
    local: Seq<char>,
    f: BattleshipState,
    r: Option<BattleshipInput>,
) -> bool {
    &&& opp_view(f) == if opp_view(o) is None && player != local {
        Some(player)
    } else {
        opp_view(o)
    }
    &&& match o.phase {
        GamePhase::Setup => if player != local {
            unchanged(o, f) && r is None
        } else {
            match input {
                BattleshipInput::PlaceShip { x, y, horizontal, length } => r is None && place_post(
                    o,
                    x,
                    y,
                    horizontal,
                    length,
                    f,
                ),
                BattleshipInput::ReadyForGame => {
                    &&& r == Some(BattleshipInput::ReadyForGame)
                    &&& keeps(o, f, false, false, false, true, true, false)
                    &&& f.phase == GamePhase::Waiting
                    &&& f.status_message@
                        == "You are ready! Waiting for opponent to place their ships and type 'ready'..."@
                },
                _ => unchanged(o, f) && r is None,
            }
        },
        GamePhase::Waiting => r is None && match input {
            BattleshipInput::ReadyForGame => {
                &&& keeps(o, f, false, false, true, true, true, false)
                &&& f.phase == GamePhase::Playing
                &&& f.is_my_turn
                &&& f.status_message@ == "Both players ready! Game started! Your turn to fire. Type 'fire X Y'."@
            },
            _ => unchanged(o, f),
        },
        GamePhase::Playing => match input {
            BattleshipInput::Fire { x, y } => if x < 10 && y < 10 {
                let hit = cell(o.my_board, x as int, y as int) == Cell::Ship;
                &&& keeps(o, f, true, false, true, true, false, true)
                &&& f.my_ships_remaining == o.my_ships_remaining
                &&& f.is_my_turn
                &&& r == Some(BattleshipInput::Report { x, y, hit })
                &&& if hit {
                    &&& grid_set(o.my_board, f.my_board, x as int, y as int, Cell::Hit)
                    &&& f.opponent_ships_remaining == sat_dec(o.opponent_ships_remaining)
                    &&& f.status_message@ == "Opponent hit your ship at ("@ + decimal(x as nat) + ", "@
                        + decimal(y as nat) + ")!"@
                } else {
                    &&& grid_set(o.my_board, f.my_board, x as int, y as int, Cell::Miss)
                    &&& f.opponent_ships_remaining == o.opponent_ships_remaining
                    &&& f.status_message@ == "Opponent missed at ("@ + decimal(x as nat) + ", "@
                        + decimal(y as nat) + ")"@
                }
            } else {
                unchanged(o, f) && r is None
            },
            BattleshipInput::Report { x, y, hit } => r is None && if x < 10 && y < 10 {
                let mine = if hit { sat_dec(o.my_ships_remaining) } else { o.my_ships_remaining };
                &&& keeps(o, f, false, true, true, true, true, true)
                &&& grid_set(
                    o.opponent_view,
                    f.opponent_view,
                    x as int,
                    y as int,
                    if hit { Cell::Hit } else { Cell::Miss },
                )
                &&& !f.is_my_turn
                &&& f.my_ships_remaining == mine
                &&& f.opponent_ships_remaining == o.opponent_ships_remaining
                &&& if o.opponent_ships_remaining == 0 {
                    f.phase == GamePhase::Ended && f.status_message@ == "You WON!"@
                } else if mine == 0 {
                    f.phase == GamePhase::Ended && f.status_message@ == "You LOST!"@
                } else {
                    f.phase == o.phase && f.status_message@ == if hit {
                        "You HIT their ship!"@
                    } else {
                        "You missed."@
                    }
                }
            } else {
                unchanged(o, f)
            },
            _ => unchanged(o, f) && r is None,
        },
        _ => unchanged(o, f) && r is None,
    }
}

/// The command a typed line stands for: `place X Y h|v [LEN]` (or `p`,
/// the length 5 when left out), `fire X Y` (or `f`), `ready` (or `r`).
pub open spec fn command_of(cmd: Seq<char>) -> Option<BattleshipInput> {
    let p = words(cmd);
    if p.len() == 0 {
        None
    } else {
        let head = lower_of(p[0]);
        if head == "place"@ || head == "p"@ {
            if p.len() >= 4 {
                let h = lower_of(p[3]);
                let len = if p.len() >= 5 { numeral(p[4]) } else { Some(FLEET_SIZE) };
                match (numeral(p[1]), numeral(p[2]), len) {
                    (Some(x), Some(y), Some(length)) => Some(
                        BattleshipInput::PlaceShip {
                            x,
                            y,
                            horizontal: h.len() > 0 && h[0] == 'h',
                            length,
                        },
                    ),
                    _ => None,
                }
            } else {
                None
            }
        } else if head == "fire"@ || head == "f"@ {
            if p.len() >= 3 {
                match (numeral(p[1]), numeral(p[2])) {
                    (Some(x), Some(y)) => Some(BattleshipInput::Fire { x, y }),
                    _ => None,
                }
            } else {
                None
            }
        } else if head == "ready"@ || head == "r"@ {
            Some(BattleshipInput::ReadyForGame)
        } else {
            None
        }
    }
}

fn set_cell(g: &mut Grid, x: usize, y: usize, c: Cell)
    requires
        x < 10,
        y < 10,
    ensures
        grid_set(*old(g), *final(g), x as int, y as int, c),
{
    let mut row = g[y];
    row[x] = c;
    g[y] = row;
}

fn count_ships(g: &Grid) -> (r: usize)
    ensures
        r == grid_ships(*g, 10),
{
    let mut total: usize = 0;
    let mut y: usize = 0;
    while y < BOARD_SIZE
        invariant
            y <= 10,
            total == grid_ships(*g, y as int),
            total <= 10 * y,
        decreases 10 - y,
    {
        let row = g[y];
        let mut n: usize = 0;
        let mut x: usize = 0;
        while x < BOARD_SIZE
            invariant
                x <= 10,
                y < 10,
                row == g@[y as int],
                n == row_ships(row, x as int),
                n <= x,
                total == grid_ships(*g, y as int),
                total <= 10 * y,
            decreases 10 - x,
        {
            if row[x] == Cell::Ship {
                n = n + 1;
            }
            x = x + 1;
        }
        total = total + n;
        y = y + 1;
    }
    total
}

fn ship_overlaps(g: &Grid, x: usize, y: usize, horizontal: bool, length: usize) -> (r: bool)
    requires
        x < 10,
        y < 10,
        horizontal ==> x + length <= 10,
        !horizontal ==> y + length <= 10,
    ensures
        r == overlaps(*g, x as int, y as int, horizontal, length as int),
{
    let mut i: usize = 0;
    while i < length
        invariant
            i <= length,
            x < 10,
            y < 10,
            horizontal ==> x + length <= 10,
            !horizontal ==> y + length <= 10,
            forall|a: int, b: int|
                0 <= a < 10 && 0 <= b < 10 && on_ship(x as int, y as int, horizontal, i as int, a, b)
                    ==> #[trigger] cell(*g, a, b) != Cell::Ship,
        decreases length - i,
    {
        let (px, py) = if horizontal { (x + i, y) } else { (x, y + i) };
        if g[py][px] == Cell::Ship {
            assert(cell(*g, px as int, py as int) == Cell::Ship);
            assert(on_ship(x as int, y as int, horizontal, length as int, px as int, py as int));
            return true;
        }
        i = i + 1;
    }
    false
}

fn place_ship(g: &mut Grid, x: usize, y: usize, horizontal: bool, length: usize)
    requires
        x < 10,
        y < 10,
        horizontal ==> x + length <= 10,
        !horizontal ==> y + length <= 10,
    ensures
        placed(*old(g), *final(g), x as int, y as int, horizontal, length as int),
{
    let mut i: usize = 0;
    while i < length
        invariant
            i <= length,
            x < 10,
            y < 10,
            horizontal ==> x + length <= 10,
            !horizontal ==> y + length <= 10,
            placed(*old(g), *g, x as int, y as int, horizontal, i as int),
        decreases length - i,
    {
        let (px, py) = if horizontal { (x + i, y) } else { (x, y + i) };
        set_cell(g, px, py, Cell::Ship);
        i = i + 1;
    }
}

fn coords_message(prefix: &str, x: usize, y: usize, suffix: &str) -> (r: String)
    ensures
        r@ == prefix@ + decimal(x as nat) + ", "@ + decimal(y as nat) + suffix@,
{
    let mut m = prefix.to_owned();
    m.append(decimal_string(x as u64).as_str());
    m.append(", ");
    m.append(decimal_string(y as u64).as_str());
    m.append(suffix);
    m
}

/// Battleship with ship placement, as one side sees it.
pub struct Battleship;

impl Battleship {
    /// A new game in the lobby, with empty boards and a full fleet each.
    pub fn new_game() -> (r: BattleshipState)
        ensures
            forall|i: int, j: int| 0 <= i < 10 && 0 <= j < 10 ==> #[trigger] cell(r.my_board, i, j) == Cell::Empty,
            forall|i: int, j: int| 0 <= i < 10 && 0 <= j < 10 ==> #[trigger] cell(r.opponent_view, i, j) == Cell::Empty,
            !r.is_my_turn,
            r.status_message@ == "Lobby: Waiting for opponent to join..."@,
            r.phase == GamePhase::Lobby,
            r.opponent_id is None,
            r.my_ships_remaining == FLEET_SIZE,
            r.opponent_ships_remaining == FLEET_SIZE,
    {
        BattleshipState {
            my_board: [[Cell::Empty; 10]; 10],
            opponent_view: [[Cell::Empty; 10]; 10],
            is_my_turn: false,
            status_message: "Lobby: Waiting for opponent to join...".to_owned(),
            phase: GamePhase::Lobby,
            opponent_id: None,
            my_ships_remaining: FLEET_SIZE,
            opponent_ships_remaining: FLEET_SIZE,
        }
    }

    /// Reads a typed command; see [`command_of`].
    pub fn parse_command(cmd: &str) -> (r: Option<BattleshipInput>)
        ensures
            r == command_of(cmd@),
    {
        let parts = split_words(cmd);
        proof {
            assert(parts@.len() == words(cmd@).len());
            assert forall|k: int| 0 <= k < parts@.len() implies #[trigger] parts@[k]@ == words(cmd@)[k] by {
                assert(crate::text::views(parts@)[k] == parts@[k]@);
            }
        }
        if parts.len() == 0 {
            return None;
        }
        let head = to_lower(string_of(&parts[0]).as_str());
        let is_place = head == "place".to_owned() || head == "p".to_owned();
        let is_fire = head == "fire".to_owned() || head == "f".to_owned();
        let is_ready = head == "ready".to_owned() || head == "r".to_owned();
        if is_place {
            if parts.len() >= 4 {
                let x = match parse_usize(&parts[1]) {
                    Some(v) => v,
                    None => return None,
                };
                let y = match parse_usize(&parts[2]) {
                    Some(v) => v,
                    None => return None,
                };
                let h = to_lower(string_of(&parts[3]).as_str());
                let hc = crate::text::chars_of(h.as_str());
                let horizontal = hc.len() > 0 && hc[0] == 'h';
                let length = if parts.len() >= 5 {
                    match parse_usize(&parts[4]) {
                        Some(v) => v,
                        None => return None,
                    }
                } else {
                    FLEET_SIZE
                };
                Some(BattleshipInput::PlaceShip { x, y, horizontal, length })
            } else {
                None
            }
        } else if is_fire {
            if parts.len() >= 3 {
                let x = match parse_usize(&parts[1]) {
                    Some(v) => v,
                    None => return None,
                };
                let y = match parse_usize(&parts[2]) {
                    Some(v) => v,
                    None => return None,
                };
                Some(BattleshipInput::Fire { x, y })
            } else {
                None
            }
        } else if is_ready {
            Some(BattleshipInput::ReadyForGame)
        } else {
            None
        }
    }
    /// Applies an input from `player`; `local` is this side's identity.
    /// Returns the message to send to the opponent, if any.
    pub fn handle_input(
        state: &mut BattleshipState,
        input: BattleshipInput,
        player: &PeerId,
        local: &PeerId,
    ) -> (r: Option<BattleshipInput>)
        ensures
            input_post(*old(state), input, player.text@, local.text@, *final(state), r),
    {
        let from_local = player.text == local.text;
        if state.opponent_id.is_none() && !from_local {
            state.opponent_id = Some(PeerId { text: player.text.clone() });
        }
        match state.phase {
            GamePhase::Setup => {
                if !from_local {
                    return None;
                }
                match input {
                    BattleshipInput::PlaceShip { x, y, horizontal, length } => {
                        if length < 2 || length > 5 {
                            state.status_message = "Invalid ship length! Use 2-5.".to_owned();
                            return None;
                        }
                        if x >= BOARD_SIZE || y >= BOARD_SIZE {
                            state.status_message = "Coordinates out of bounds! Use 0-9.".to_owned();
                            return None;
                        }
                        let end_x = x + if horizontal { length } else { 0 };
                        let end_y = y + if !horizontal { length } else { 0 };
                        if end_x > BOARD_SIZE || end_y > BOARD_SIZE {
                            state.status_message = "Ship doesn't fit on board!".to_owned();
                            return None;
                        }
                        if ship_overlaps(&state.my_board, x, y, horizontal, length) {
                            state.status_message = "Ships overlap! Try different position.".to_owned();
                            return None;
                        }
                        place_ship(&mut state.my_board, x, y, horizontal, length);
                        let ships_placed = count_ships(&state.my_board) / 5;
                        let mut m = "\u{2713} Ship placed at (".to_owned();
                        m.append(decimal_string(x as u64).as_str());
                        m.append(",");
                        m.append(decimal_string(y as u64).as_str());
                        m.append(")! ");
                        m.append(decimal_string(ships_placed as u64).as_str());
                        m.append(" ships placed. Place more (e.g. 'p 2 3 v 4') or type 'ready'");
                        state.status_message = m;
                        None
                    },
                    BattleshipInput::ReadyForGame => {
                        state.phase = GamePhase::Waiting;
                        state.status_message =
                            "You are ready! Waiting for opponent to place their ships and type 'ready'...".to_owned();
                        Some(BattleshipInput::ReadyForGame)
                    },
                    _ => None,
                }
            },
            GamePhase::Waiting => {
                match input {
                    BattleshipInput::ReadyForGame => {
                        state.phase = GamePhase::Playing;
                        state.is_my_turn = true;
                        state.status_message =
                            "Both players ready! Game started! Your turn to fire. Type 'fire X Y'.".to_owned();
                    },
                    _ => {},
                }
                None
            },
            GamePhase::Playing => {
                match input {
                    BattleshipInput::Fire { x, y } => {
                        if x >= BOARD_SIZE || y >= BOARD_SIZE {
                            return None;
                        }
                        let hit = state.my_board[y][x] == Cell::Ship;
                        if hit {
                            set_cell(&mut state.my_board, x, y, Cell::Hit);
                            if state.opponent_ships_remaining > 0 {
                                state.opponent_ships_remaining = state.opponent_ships_remaining - 1;
                            }
                            state.status_message = coords_message("Opponent hit your ship at (", x, y, ")!");
                        } else {
                            set_cell(&mut state.my_board, x, y, Cell::Miss);
                            state.status_message = coords_message("Opponent missed at (", x, y, ")");
                        }
                        state.is_my_turn = true;
                        Some(BattleshipInput::Report { x, y, hit })
                    },
                    BattleshipInput::Report { x, y, hit } => {
                        if x >= BOARD_SIZE || y >= BOARD_SIZE {
                            return None;
                        }
                        set_cell(&mut state.opponent_view, x, y, if hit { Cell::Hit } else { Cell::Miss });
                        if hit {
                            state.status_message = "You HIT their ship!".to_owned();
                            if state.my_ships_remaining > 0 {
                                state.my_ships_remaining = state.my_ships_remaining - 1;
                            }
                        } else {
                            state.status_message = "You missed.".to_owned();
                        }
                        state.is_my_turn = false;
                        if state.opponent_ships_remaining == 0 {
                            state.phase = GamePhase::Ended;
                            state.status_message = "You WON!".to_owned();
                        } else if state.my_ships_remaining == 0 {
                            state.phase = GamePhase::Ended;
                            state.status_message = "You LOST!".to_owned();
                        }
                        None
                    },
                    _ => None,
                }
            },
            _ => None,
        }
    }

    /// The opponent connected: it is remembered, and a game in the lobby
    /// moves on to ship placement.
    pub fn handle_player_joined(state: &mut BattleshipState, player: &PeerId)
        ensures
            joined_post(*old(state), player.text@, *final(state)),
    {
        state.opponent_id = Some(PeerId { text: player.text.clone() });
        if state.phase == GamePhase::Lobby {
            state.phase = GamePhase::Setup;
            state.status_message =
                "Opponent connected! Place ships: type 'p 0 0 h 5' (X Y horizontal/vertical length). Then 'ready'.".to_owned();
        } else {
            let mut m = "Player ".to_owned();
            m.append(player.text.as_str());
            m.append(" joined!");
            state.status_message = m;
        }
    }
    /// One key press on the command line under the game. Enter hands over
    /// the typed line; when it reads as a command, that command is applied
    /// once, as the local player's input. Returns the message to send to
    /// the opponent, if any.
    pub fn handle_key(
        state: &mut BattleshipState,
        line: &mut InputLine,
        key: Key,
        local: &PeerId,
    ) -> (r: Option<BattleshipInput>)
        ensures
            final(line).spec_text() == line_after(old(line).spec_text(), key).0,
            match line_after(old(line).spec_text(), key).1 {
                Some(cmd) => match command_of(cmd) {
                    Some(input) => input_post(*old(state), input, local.text@, local.text@, *final(state), r),
                    None => still(*old(state), *final(state)) && r is None,
                },
                None => still(*old(state), *final(state)) && r is None,
            },
    {
        match line.handle_key(key) {
            Some(cmd) => match Self::parse_command(cmd.as_str()) {
                Some(input) => Self::handle_input(state, input, local, local),
                None => None,
            },
            None => None,
        }
    }

    /// One report of the transport: a peer's input is applied as that
    /// peer's; a join is counted and remembered; a leave is counted.
    /// Returns the message to send to the opponent, if any.
    pub fn handle_event(
        state: &mut BattleshipState,
        lobby: &mut Lobby,
        event: EngineEvent<BattleshipInput>,
        local: &PeerId,
    ) -> (r: Option<BattleshipInput>)
        ensures
            match event {
                EngineEvent::InputReceived(p, input) => input_post(*old(state), input, p.text@, local.text@, *final(state), r)
                    && final(lobby).spec_players() == old(lobby).spec_players()
                    && final(lobby).spec_mode() == old(lobby).spec_mode(),
                EngineEvent::PlayerJoined(p) => r is None && joined_post(*old(state), p.text@, *final(state))
                    && final(lobby).spec_players() == joined_count(old(lobby).spec_players())
                    && final(lobby).spec_mode() == joined_mode(old(lobby).spec_mode(), old(lobby).spec_players()),
                EngineEvent::PlayerLeft(_) => r is None && still(*old(state), *final(state))
                    && final(lobby).spec_players() == left_count(old(lobby).spec_players())
                    && final(lobby).spec_mode() == old(lobby).spec_mode(),
            },
    {
        match event {
            EngineEvent::InputReceived(p, input) => Self::handle_input(state, input, &p, local),
            EngineEvent::PlayerJoined(p) => {
                lobby.player_joined();
                Self::handle_player_joined(state, &p);
                None
            },
            EngineEvent::PlayerLeft(_) => {
                lobby.player_left();
                None
            },
        }
    }
}

} // verus!
