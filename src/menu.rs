//! The game catalog and the start menu: host a game from the catalog, or
//! join a host by its identity.

use vstd::prelude::*;
use vstd::utf8::encode_utf8;
use crate::engine::Key;
use crate::text::pop_char;

verus! {

/// Longest host identity, in bytes, that the join screen accepts.
pub const MAX_NODE_ID_LEN: usize = 64;

/// What the catalog says of a game.
#[derive(Debug)]
pub struct GameInfo {
    pub id: String,
    pub name: String,
    pub description: String,
    pub author: String,
}

/// The catalog: id, name, description and author of each game, in menu order.
pub open spec fn catalog() -> Seq<(Seq<char>, Seq<char>, Seq<char>, Seq<char>)> {
    seq![
        ("pong"@, "Pong"@, "Classic Pong game - competitive local multiplayer"@, "LanTerm Team"@),
        ("rand_num"@, "Number Guessing"@, "Guess the random number - turn-based strategy game"@, "LanTerm Team"@),
        ("battleship"@, "Battleship"@, "Strategy naval combat - turn-based P2P"@, "LanTerm Team"@),
        ("poker"@, "Texas Hold'em"@, "N-player P2P Poker. Bluffs, bets, and cards."@, "LanTerm Team"@),
    ]
}

pub open spec fn info_matches(g: GameInfo, e: (Seq<char>, Seq<char>, Seq<char>, Seq<char>)) -> bool {
    g.id@ == e.0 && g.name@ == e.1 && g.description@ == e.2 && g.author@ == e.3
}

fn info(id: &str, name: &str, description: &str, author: &str) -> (r: GameInfo)
    ensures
        r.id@ == id@,
        r.name@ == name@,
        r.description@ == description@,
        r.author@ == author@,
{
    GameInfo {
        id: id.to_owned(),
        name: name.to_owned(),
        description: description.to_owned(),
        author: author.to_owned(),
    }
}

/// Every game of the catalog, in menu order.
pub fn get_all_games() -> (r: Vec<GameInfo>)
    ensures
        r@.len() == catalog().len(),
        forall|i: int| 0 <= i < r@.len() ==> info_matches(#[trigger] r@[i], catalog()[i]),
{
    let mut v: Vec<GameInfo> = Vec::new();
    v.push(info("pong", "Pong", "Classic Pong game - competitive local multiplayer", "LanTerm Team"));
    v.push(info("rand_num", "Number Guessing", "Guess the random number - turn-based strategy game", "LanTerm Team"));
    v.push(info("battleship", "Battleship", "Strategy naval combat - turn-based P2P", "LanTerm Team"));
    v.push(info("poker", "Texas Hold'em", "N-player P2P Poker. Bluffs, bets, and cards.", "LanTerm Team"));
    v
}

/// The catalog entry whose id is `id`, if there is one.
pub fn get_game(id: &str) -> (r: Option<GameInfo>)
    ensures
        r is Some <==> exists|i: int| 0 <= i < catalog().len() && (#[trigger] catalog()[i]).0 == id@,
        r matches Some(g) ==> exists|i: int|
            0 <= i < catalog().len() && catalog()[i].0 == id@ && info_matches(g, #[trigger] catalog()[i]),
{
    let all = get_all_games();
    let wanted = id.to_owned();
    let mut i: usize = 0;
    while i < all.len()
        invariant
            i <= all@.len(),
            all@.len() == catalog().len(),
            wanted@ == id@,
            forall|k: int| 0 <= k < all@.len() ==> info_matches(#[trigger] all@[k], catalog()[k]),
            forall|k: int| 0 <= k < i ==> (#[trigger] catalog()[k]).0 != id@,
        decreases all@.len() - i,
    {
        if all[i].id == wanted {
            let g = info(all[i].id.as_str(), all[i].name.as_str(), all[i].description.as_str(), all[i].author.as_str());
            assert(info_matches(g, catalog()[i as int]));
            return Some(g);
        }
        i = i + 1;
    }
    None
}

#[derive(Debug, Clone, Copy, PartialEq, Eq)]
pub enum MenuChoice {
    Host,
    Join,
}

#[derive(Debug)]
pub struct JoinConfig {
    pub node_id: String,
}

/// The screen the menu shows.
#[derive(Debug, Clone, Copy, PartialEq, Eq)]
pub enum MenuMode {
    HostOrJoin,
    SelectGame,
    JoinNodeId,
}

/// What the menu hands back once the user has decided.
pub type MenuOutcome = (MenuChoice, String, Option<JoinConfig>);

pub struct Menu {
    selected_game_index: usize,
    input_buffer: String,
    mode: MenuMode,
}

impl Menu {
    pub closed spec fn spec_index(&self) -> usize {
        self.selected_game_index
    }

    pub closed spec fn spec_buffer(&self) -> Seq<char> {
        self.input_buffer@
    }

    pub closed spec fn spec_mode(&self) -> MenuMode {
        self.mode
    }

    /// The highlighted game is one of the catalog.
    pub open spec fn wf(&self) -> bool {
        self.spec_index() < catalog().len()
    }

    pub fn new() -> (r: Self)
        ensures
            r.wf(),
            r.spec_index() == 0,
            r.spec_buffer().len() == 0,
            r.spec_mode() == MenuMode::HostOrJoin,
    {
        Menu { selected_game_index: 0, input_buffer: String::new(), mode: MenuMode::HostOrJoin }
    }

    pub fn mode(&self) -> (r: MenuMode)
        ensures
            r == self.spec_mode(),
    {
        self.mode
    }

    pub fn selected_game_index(&self) -> (r: usize)
        ensures
            r == self.spec_index(),
    {
        self.selected_game_index
    }

    pub fn input_buffer(&self) -> (r: &str)
        ensures
            r@ == self.spec_buffer(),
    {
        self.input_buffer.as_str()
    }

    /// One key press. On the first screen `1` goes to the game list and `2`
    /// to the join screen. On the game list the arrows move the highlight
    /// within the catalog, Enter hosts the highlighted game and Esc goes
    /// back. On the join screen characters are typed (up to 64 bytes),
    /// Backspace erases, Enter joins with what was typed if anything, and
    /// Esc goes back, clearing it.
    pub fn handle_input(&mut self, code: Key) -> (r: Option<MenuOutcome>)
        requires
            old(self).wf(),
        ensures
            final(self).wf(),
            ({
                let o = *old(self);
                let f = *final(self);
                let same = f.spec_index() == o.spec_index() && f.spec_buffer() == o.spec_buffer();
                match o.spec_mode() {
                    MenuMode::HostOrJoin => r is None && same && f.spec_mode() == match code {
                        Key::Char(c) => if c == '1' {
                            MenuMode::SelectGame
                        } else if c == '2' {
                            MenuMode::JoinNodeId
                        } else {
                            MenuMode::HostOrJoin
                        },
                        _ => MenuMode::HostOrJoin,
                    },
                    MenuMode::SelectGame => f.spec_buffer() == o.spec_buffer() && match code {
                        Key::Up => r is None && f.spec_mode() == o.spec_mode() && f.spec_index() == if o.spec_index() > 0 {
                            (o.spec_index() - 1) as usize
                        } else {
                            o.spec_index()
                        },
                        Key::Down => r is None && f.spec_mode() == o.spec_mode() && f.spec_index() == if o.spec_index() + 1 < catalog().len() {
                            (o.spec_index() + 1) as usize
                        } else {
                            o.spec_index()
                        },
                        Key::Enter => f.spec_mode() == o.spec_mode() && f.spec_index() == o.spec_index() && (r matches Some(
                            out,
                        ) && out.0 == MenuChoice::Host && out.1@ == catalog()[o.spec_index() as int].0 && out.2 is None),
                        Key::Esc => r is None && f.spec_index() == o.spec_index() && f.spec_mode() == MenuMode::HostOrJoin,
                        _ => r is None && same && f.spec_mode() == o.spec_mode(),
                    },
                    MenuMode::JoinNodeId => f.spec_index() == o.spec_index() && match code {
                        Key::Enter => f.spec_mode() == o.spec_mode() && f.spec_buffer() == o.spec_buffer() && if o.spec_buffer().len() > 0 {
                            r matches Some(out) && out.0 == MenuChoice::Join && out.1@ == "pong"@ && (out.2 matches Some(j) && j.node_id@ == o.spec_buffer())
                        } else {
                            r is None
                        },
                        Key::Backspace => r is None && f.spec_mode() == o.spec_mode() && f.spec_buffer() == if o.spec_buffer().len() > 0 {
                            o.spec_buffer().drop_last()
                        } else {
                            o.spec_buffer()
                        },
                        Key::Char(c) => r is None && f.spec_mode() == o.spec_mode() && f.spec_buffer() == if (encode_utf8(o.spec_buffer()).len() as usize) < MAX_NODE_ID_LEN {
                            o.spec_buffer().push(c)
                        } else {
                            o.spec_buffer()
                        },
                        Key::Esc => r is None && f.spec_mode() == MenuMode::HostOrJoin && f.spec_buffer().len() == 0,
                        _ => r is None && f.spec_mode() == o.spec_mode() && f.spec_buffer() == o.spec_buffer(),
                    },
                }
            }),
    {
        match self.mode {
            MenuMode::HostOrJoin => {
                match code {
                    Key::Char(c) => {
                        if c == '1' {
                            self.mode = MenuMode::SelectGame;
                        } else if c == '2' {
                            self.mode = MenuMode::JoinNodeId;
                        }
                    },
                    _ => {},
                }
                None
            },
            MenuMode::SelectGame => match code {
                Key::Up => {
                    if self.selected_game_index > 0 {
                        self.selected_game_index = self.selected_game_index - 1;
                    }
                    None
                },
                Key::Down => {
                    let games = get_all_games();
                    if self.selected_game_index + 1 < games.len() {
                        self.selected_game_index = self.selected_game_index + 1;
                    }
                    None
                },
                Key::Enter => {
                    let games = get_all_games();
                    let game_id = games[self.selected_game_index].id.clone();
                    Some((MenuChoice::Host, game_id, None))
                },
                Key::Esc => {
                    self.mode = MenuMode::HostOrJoin;
                    None
                },
                _ => None,
            },
            MenuMode::JoinNodeId => match code {
                Key::Enter => {
                    if !self.input_buffer.as_str().is_empty() {
                        let node_id = self.input_buffer.clone();
                        Some((MenuChoice::Join, "pong".to_owned(), Some(JoinConfig { node_id })))
                    } else {
                        None
                    }
                },
                Key::Backspace => {
                    pop_char(&mut self.input_buffer);
                    None
                },
                Key::Char(c) => {
                    if self.input_buffer.as_str().len() < MAX_NODE_ID_LEN {
                        crate::text::push_char(&mut self.input_buffer, c);
                    }
                    None
                },
                Key::Esc => {
                    self.mode = MenuMode::HostOrJoin;
                    self.input_buffer = String::new();
                    None
                },
                _ => None,
            },
        }
    }
}

} // verus!
