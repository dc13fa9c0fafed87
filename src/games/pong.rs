//! Two-paddle pong, simulated by the host.

use vstd::prelude::*;
use crate::engine::{Game, Key};
use crate::session::PeerId;

verus! {

/// Width of the court: the ball is served again once it leaves `0..=60`.
pub const GAME_WIDTH: i16 = 60;

/// Lowest row a paddle's top may reach.
pub const PADDLE_MAX_Y: i16 = 16;

#[derive(Debug, Clone, Copy, PartialEq, Eq)]
pub enum PongAction {
    Player1MoveUp,
    Player1MoveDown,
    Player2MoveUp,
    Player2MoveDown,
}

#[derive(Debug, Clone, Copy, PartialEq, Eq)]
pub struct PongState {
    pub ball_x: i16,
    pub ball_y: i16,
    pub ball_dx: i16,
    pub ball_dy: i16,
    /// Top of the left paddle (the host's).
    pub paddle1_y: i16,
    /// Top of the right paddle (the client's).
    pub paddle2_y: i16,
    pub score: u32,
}

pub open spec fn initial_pong() -> PongState {
    PongState { ball_x: 30, ball_y: 10, ball_dx: 1, ball_dy: 1, paddle1_y: 8, paddle2_y: 8, score: 0 }
}

impl Default for PongState {
    fn default() -> (r: PongState)
        ensures
            r == initial_pong(),
    {
        PongState { ball_x: 30, ball_y: 10, ball_dx: 1, ball_dy: 1, paddle1_y: 8, paddle2_y: 8, score: 0 }
    }
}

/// A paddle one row up, stopping at the top.
pub open spec fn paddle_up(y: i16) -> i16 {
    if y - 1 < 0 { 0 } else { (y - 1) as i16 }
}

/// A paddle one row down, stopping at the lowest row.
pub open spec fn paddle_down(y: i16) -> i16 {
    if y + 1 > PADDLE_MAX_Y { PADDLE_MAX_Y } else { (y + 1) as i16 }
}

pub open spec fn pong_applied(s: PongState, a: PongAction) -> PongState {
    match a {
        PongAction::Player1MoveUp => PongState { paddle1_y: paddle_up(s.paddle1_y), ..s },
        PongAction::Player1MoveDown => PongState { paddle1_y: paddle_down(s.paddle1_y), ..s },
        PongAction::Player2MoveUp => PongState { paddle2_y: paddle_up(s.paddle2_y), ..s },
        PongAction::Player2MoveDown => PongState { paddle2_y: paddle_down(s.paddle2_y), ..s },
    }
}

/// `|v|`, wrapping as machine negation does.
pub open spec fn abs16(v: i16) -> i16 {
    if v < 0 { 0i16.wrapping_sub(v) } else { v }
}

/// Whether row `y` lies on a paddle whose top is `top` (paddles are 5 rows).
pub open spec fn on_paddle(y: i16, top: i16) -> bool {
    top <= y <= top + 4
}

/// One step of the ball: move, bounce off the walls, off the paddles (each
/// return scores a point), and serve again when it leaves the court.
pub open spec fn pong_ticked(s: PongState) -> PongState {
    let x = s.ball_x.wrapping_add(s.ball_dx);
    let y = s.ball_y.wrapping_add(s.ball_dy);
    let dy = if y <= 0 || y >= 20 { 0i16.wrapping_sub(s.ball_dy) } else { s.ball_dy };
    let left = x <= 2 && on_paddle(y, s.paddle1_y);
    let dx1 = if left { abs16(s.ball_dx) } else { s.ball_dx };
    let score1 = if left { s.score.wrapping_add(1) } else { s.score };
    let right = x >= GAME_WIDTH - 3 && on_paddle(y, s.paddle2_y);
    let dx2 = if right { 0i16.wrapping_sub(abs16(dx1)) } else { dx1 };
    let score2 = if right { score1.wrapping_add(1) } else { score1 };
    if x < 0 || x > GAME_WIDTH {
        PongState { ball_x: 30, ball_y: 10, ball_dx: -1i16, ball_dy: 1, score: score2, ..s }
    } else {
        PongState { ball_x: x, ball_y: y, ball_dx: dx2, ball_dy: dy, score: score2, ..s }
    }
}

fn up(y: i16) -> (r: i16)
    ensures
        r == paddle_up(y),
{
    if y <= 0 { 0 } else { y - 1 }
}

fn down(y: i16) -> (r: i16)
    ensures
        r == paddle_down(y),
{
    if y >= PADDLE_MAX_Y { PADDLE_MAX_Y } else { y + 1 }
}

fn abs_wrapping(v: i16) -> (r: i16)
    ensures
        r == abs16(v),
{
    if v < 0 { 0i16.wrapping_sub(v) } else { v }
}

fn hits_paddle(y: i16, top: i16) -> (r: bool)
    ensures
        r == on_paddle(y, top),
{
    top <= y && (y as i32) <= (top as i32) + 4
}

/// Pong for one side of a session.
pub struct PongGame {
    is_host: bool,
}

impl PongGame {
    pub fn new(is_host: bool) -> (r: Self)
        ensures
            r.spec_is_host() == is_host,
    {
        PongGame { is_host }
    }

    pub closed spec fn spec_is_host(&self) -> bool {
        self.is_host
    }
}

impl Game for PongGame {
    type Action = PongAction;
    type State = PongState;

    open spec fn initial(&self, state: PongState) -> bool {
        state == initial_pong()
    }

    open spec fn applied(&self, before: PongState, action: PongAction, player: Seq<char>, after: PongState) -> bool {
        after == pong_applied(before, action)
    }

    open spec fn ticked(&self, before: PongState, after: PongState) -> bool {
        after == pong_ticked(before)
    }

    open spec fn tick_ms(&self) -> u64 {
        crate::engine::DEFAULT_TICK_MS
    }

    open spec fn ticks(&self) -> bool {
        true
    }

    /// The host steers the left paddle, the client the right one.
    open spec fn key_action(&self, key: Key) -> Option<PongAction> {
        match key {
            Key::Up => Some(if self.spec_is_host() { PongAction::Player1MoveUp } else { PongAction::Player2MoveUp }),
            Key::Down => Some(if self.spec_is_host() { PongAction::Player1MoveDown } else { PongAction::Player2MoveDown }),
            _ => None,
        }
    }

    fn new_game(&self) -> (r: PongState) {
        PongState::default()
    }

    fn action_for_key(&self, key: Key) -> (r: Option<PongAction>) {
        match key {
            Key::Up => Some(if self.is_host { PongAction::Player1MoveUp } else { PongAction::Player2MoveUp }),
            Key::Down => Some(if self.is_host { PongAction::Player1MoveDown } else { PongAction::Player2MoveDown }),
            _ => None,
        }
    }

    fn handle_action(&self, action: PongAction, state: &mut PongState, player: &PeerId) {
        match action {
            PongAction::Player1MoveUp => state.paddle1_y = up(state.paddle1_y),
            PongAction::Player1MoveDown => state.paddle1_y = down(state.paddle1_y),
            PongAction::Player2MoveUp => state.paddle2_y = up(state.paddle2_y),
            PongAction::Player2MoveDown => state.paddle2_y = down(state.paddle2_y),
        }
    }

    fn on_tick(&self, state: &mut PongState) {
        state.ball_x = state.ball_x.wrapping_add(state.ball_dx);
        state.ball_y = state.ball_y.wrapping_add(state.ball_dy);
        if state.ball_y <= 0 || state.ball_y >= 20 {
            state.ball_dy = 0i16.wrapping_sub(state.ball_dy);
        }
        if state.ball_x <= 2 && hits_paddle(state.ball_y, state.paddle1_y) {
            state.ball_dx = abs_wrapping(state.ball_dx);
            state.score = state.score.wrapping_add(1);
        }
        if state.ball_x >= GAME_WIDTH - 3 && hits_paddle(state.ball_y, state.paddle2_y) {
            state.ball_dx = 0i16.wrapping_sub(abs_wrapping(state.ball_dx));
            state.score = state.score.wrapping_add(1);
        }
        if state.ball_x < 0 || state.ball_x > GAME_WIDTH {
            state.ball_x = 30;
            state.ball_y = 10;
            state.ball_dx = -1;
            state.ball_dy = 1;
        }
    }

    /// The ball moves on every pass of the loop's default cadence.
    fn tick_rate(&self) -> (r: Option<u64>) {
        Some(crate::engine::DEFAULT_TICK_MS)
    }
}

} // verus!
