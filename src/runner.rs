//! Decisions of the lobby-style run loop: the role menu, the count of
//! connected players, and the command line typed under the game.

use vstd::prelude::*;
use crate::engine::Key;
use crate::session::PeerId;
use crate::text::{pop_char, push_char};

verus! {

#[derive(Debug, Clone, Copy, PartialEq, Eq, Structural)]
pub enum EngineMode {
    Menu,
    HostingWaitingForPlayers,
    JoiningWaitingForAccept,
    GameRunning,
}

/// The role menu: two entries, host (0) and join (1). Up toggles the
/// highlight and Down keeps it (it steps by two); Enter picks the
/// highlighted role and Esc leaves (`Menu`).
/// Returns the new highlight and the decision, if one was made.
pub fn menu_key(selected: usize, key: Key) -> (r: (usize, Option<EngineMode>))
    requires
        selected < 2,
    ensures
        r.0 < 2,
        match key {
            Key::Up => r == ((1 - selected) as usize, None::<EngineMode>),
            Key::Enter => r == (selected, Some(if selected == 0 {
                EngineMode::HostingWaitingForPlayers
            } else {
                EngineMode::JoiningWaitingForAccept
            })),
            Key::Esc => r == (selected, Some(EngineMode::Menu)),
            _ => r == (selected, None::<EngineMode>),
        },
{
    match key {
        Key::Up => ((selected + 1) % 2, None),
        Key::Down => ((selected + 2) % 2, None),
        Key::Enter => {
            if selected == 0 {
                (selected, Some(EngineMode::HostingWaitingForPlayers))
            } else {
                (selected, Some(EngineMode::JoiningWaitingForAccept))
            }
        },
        Key::Esc => (selected, Some(EngineMode::Menu)),
        _ => (selected, None),
    }
}

/// What the transport reports to the lobby loop.
pub enum EngineEvent<I> {
    /// A peer sent an input.
    InputReceived(PeerId, I),
    PlayerJoined(PeerId),
    PlayerLeft(PeerId),
}

/// The player count after a join (it stops at the largest `i32`).
pub open spec fn joined_count(n: i32) -> i32 {
    if n < i32::MAX { (n + 1) as i32 } else { n }
}

/// The mode after a join: a host waiting for players starts the game once
/// two are there.
pub open spec fn joined_mode(m: EngineMode, n: i32) -> EngineMode {
    if joined_count(n) >= 2 && m == EngineMode::HostingWaitingForPlayers {
        EngineMode::GameRunning
    } else {
        m
    }
}

/// The player count after a leave (it stops at the smallest `i32`).
pub open spec fn left_count(n: i32) -> i32 {
    if n > i32::MIN { (n - 1) as i32 } else { n }
}

/// The loop's mode and how many players it has seen connect.
pub struct Lobby {
    mode: EngineMode,
    players_connected: i32,
}

impl Lobby {
    pub closed spec fn spec_mode(&self) -> EngineMode {
        self.mode
    }

    pub closed spec fn spec_players(&self) -> i32 {
        self.players_connected
    }

    pub fn new(mode: EngineMode) -> (r: Self)
        ensures
            r.spec_mode() == mode,
            r.spec_players() == 0,
    {
        Lobby { mode, players_connected: 0 }
    }

    pub fn mode(&self) -> (r: EngineMode)
        ensures
            r == self.spec_mode(),
    {
        self.mode
    }

    pub fn players_connected(&self) -> (r: i32)
        ensures
            r == self.spec_players(),
    {
        self.players_connected
    }

    /// A player connected; a host waiting for players starts the game once
    /// two are there.
    pub fn player_joined(&mut self)
        ensures
            final(self).spec_players() == joined_count(old(self).spec_players()),
            final(self).spec_mode() == joined_mode(old(self).spec_mode(), old(self).spec_players()),
    {
        if self.players_connected < i32::MAX {
            self.players_connected = self.players_connected + 1;
        }
        if self.players_connected >= 2 && self.mode == EngineMode::HostingWaitingForPlayers {
            self.mode = EngineMode::GameRunning;
        }
    }

    /// A player left.
    pub fn player_left(&mut self)
        ensures
            final(self).spec_mode() == old(self).spec_mode(),
            final(self).spec_players() == left_count(old(self).spec_players()),
    {
        if self.players_connected > i32::MIN {
            self.players_connected = self.players_connected - 1;
        }
    }
}

/// The line after `key` is pressed on `text`, and the command it hands
/// over: Enter empties the line and hands over what was typed, if anything.
pub open spec fn line_after(text: Seq<char>, key: Key) -> (Seq<char>, Option<Seq<char>>) {
    match key {
        Key::Enter => (Seq::empty(), if text.len() > 0 { Some(text) } else { None }),
        Key::Backspace => (if text.len() > 0 { text.drop_last() } else { text }, None),
        Key::Char(c) => (text.push(c), None),
        _ => (text, None),
    }
}

/// The command line typed under the game.
pub struct InputLine {
    buffer: String,
}

impl InputLine {
    pub closed spec fn spec_text(&self) -> Seq<char> {
        self.buffer@
    }

    pub fn new() -> (r: Self)
        ensures
            r.spec_text().len() == 0,
    {
        InputLine { buffer: String::new() }
    }

    pub fn text(&self) -> (r: &str)
        ensures
            r@ == self.spec_text(),
    {
        self.buffer.as_str()
    }

    /// One key press; see [`line_after`].
    pub fn handle_key(&mut self, key: Key) -> (r: Option<String>)
        ensures
            final(self).spec_text() == line_after(old(self).spec_text(), key).0,
            r is None <==> line_after(old(self).spec_text(), key).1 is None,
            r matches Some(c) ==> line_after(old(self).spec_text(), key).1 == Some(c@),
    {
        match key {
            Key::Enter => {
                let cmd = self.buffer.clone();
                self.buffer = String::new();
                if cmd.as_str().is_empty() {
                    None
                } else {
                    Some(cmd)
                }
            },
            Key::Backspace => {
                pop_char(&mut self.buffer);
                None
            },
            Key::Char(c) => {
                push_char(&mut self.buffer, c);
                None
            },
            _ => None,
        }
    }
}

} // verus!
