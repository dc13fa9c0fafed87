//! The run loop's decisions. The loop itself (waiting on input, the two
//! channels and the tick timer) lives with the transport; each event it
//! observes is handed to [`Engine::step`], which updates the authoritative
//! or replicated state and says what the loop must do next.

use vstd::prelude::*;
use crate::session::{PeerId, Role};
use crate::sync::{deliver, InternalMsg, Replica, SequenceCounter, SyncPacket};

verus! {

/// Tick period, in milliseconds, of a game that declares none: the loop
/// still wakes this often to stay responsive.
pub const DEFAULT_TICK_MS: u64 = 16;

/// A key of the local keyboard, as far as games read it.
#[derive(Debug, Clone, Copy, PartialEq, Eq)]
pub enum Key {
    Up,
    Down,
    Left,
    Right,
    Enter,
    Backspace,
    Esc,
    Char(char),
    Other,
}

/// The contract that a hosted game fulfils. The core never looks inside its
/// states or actions; it only calls these transitions.
pub trait Game {
    type Action;
    type State;

    /// Whether `state` is one a new game may start from.
    spec fn initial(&self, state: Self::State) -> bool;

    /// Whether `after` is the state once `player` performs `action` on `before`.
    spec fn applied(&self, before: Self::State, action: Self::Action, player: Seq<char>, after: Self::State) -> bool;

    /// Whether `after` is the state one simulation tick after `before`.
    spec fn ticked(&self, before: Self::State, after: Self::State) -> bool;

    /// Whether the game asks for simulation ticks.
    spec fn ticks(&self) -> bool;

    /// The tick period it asks for, in milliseconds.
    spec fn tick_ms(&self) -> u64;

    /// The action, if any, that a key press stands for.
    spec fn key_action(&self, key: Key) -> Option<Self::Action>;

    fn action_for_key(&self, key: Key) -> (r: Option<Self::Action>)
        ensures
            r == self.key_action(key),
    ;

    fn new_game(&self) -> (r: Self::State)
        ensures
            self.initial(r),
    ;

    fn handle_action(&self, action: Self::Action, state: &mut Self::State, player: &PeerId)
        ensures
            self.applied(*old(state), action, player.text@, *final(state)),
    ;

    fn on_tick(&self, state: &mut Self::State)
        ensures
            self.ticked(*old(state), *final(state)),
    ;

    /// Tick period in milliseconds, when the game asks for ticks.
    fn tick_rate(&self) -> (r: Option<u64>)
        ensures
            r == if self.ticks() { Some(self.tick_ms()) } else { None },
    ;
}

/// One thing the run loop observed.
pub enum Event<A, S> {
    /// The user asked to leave.
    Quit,
    /// Local input produced an action.
    LocalAction(A),
    /// A reliable frame arrived; `None` when its payload did not decode.
    Reliable(Option<InternalMsg<A, S>>),
    /// A datagram arrived; `None` when it did not decode.
    Unreliable(Option<InternalMsg<A, S>>),
    /// The tick timer fired.
    Tick,
}

/// What the run loop must do after an event.
pub enum Effect<A> {
    /// Nothing; go on waiting.
    Continue,
    /// Leave the loop and hand the session back.
    Quit,
    /// Leave the loop: the reliable stream carried a frame that does not
    /// decode, which breaks the framing and ends the connection.
    ProtocolError,
    /// Send this action to the host over the reliable channel.
    SendAction(A),
    /// Broadcast the current state, numbered so, over the unreliable channel.
    Broadcast(u64),
}

/// The single owner of a session's game state.
pub struct Engine<G: Game> {
    game: G,
    role: Role,
    local: PeerId,
    remote: PeerId,
    counter: SequenceCounter,
    replica: Replica<G::State>,
}

impl<G: Game> Engine<G> {
    pub closed spec fn spec_game(&self) -> G {
        self.game
    }

    pub closed spec fn spec_role(&self) -> Role {
        self.role
    }

    pub closed spec fn spec_local(&self) -> Seq<char> {
        self.local.text@
    }

    pub closed spec fn spec_remote(&self) -> Seq<char> {
        self.remote.text@
    }

    /// Number of the last broadcast (host); 0 before the first.
    pub closed spec fn spec_seq(&self) -> u64 {
        self.counter.last
    }

    /// Number of the last snapshot taken (client); 0 before the first.
    pub closed spec fn spec_last_seen(&self) -> u64 {
        self.replica.last_seen
    }

    pub closed spec fn spec_state(&self) -> G::State {
        self.replica.state
    }

    /// A session's engine, starting from the game's initial state with no
    /// broadcast sent and no snapshot taken.
    pub fn new(game: G, role: Role, local: PeerId, remote: PeerId) -> (r: Self)
        ensures
            r.spec_game() == game,
            r.spec_role() == role,
            r.spec_local() == local.text@,
            r.spec_remote() == remote.text@,
            game.initial(r.spec_state()),
            r.spec_seq() == 0,
            r.spec_last_seen() == 0,
    {
        let state = game.new_game();
        Engine { game, role, local, remote, counter: SequenceCounter::new(), replica: Replica::new(state) }
    }

    pub fn game(&self) -> (r: &G)
        ensures
            *r == self.spec_game(),
    {
        &self.game
    }

    pub fn role(&self) -> (r: Role)
        ensures
            r == self.spec_role(),
    {
        self.role
    }

    /// The current state, for rendering and for the host's broadcast.
    pub fn state(&self) -> (r: &G::State)
        ensures
            *r == self.spec_state(),
    {
        &self.replica.state
    }

    pub fn last_seen(&self) -> (r: u64)
        ensures
            r == self.spec_last_seen(),
    {
        self.replica.last_seen
    }

    pub fn sequence(&self) -> (r: u64)
        ensures
            r == self.spec_seq(),
    {
        self.counter.last
    }

    /// How long the loop waits for the tick timer, in milliseconds.
    pub fn tick_interval_ms(&self) -> (r: u64)
        ensures
            r == if self.spec_game().ticks() { self.spec_game().tick_ms() } else { DEFAULT_TICK_MS },
    {
        match self.game.tick_rate() {
            Some(ms) => ms,
            None => DEFAULT_TICK_MS,
        }
    }

    /// Handles one event. The host applies every action it is given, local
    /// or received, and on each tick advances the game and broadcasts; a
    /// client forwards its actions to the host, never applies one, never
    /// broadcasts, and takes a snapshot only when it is newer than the last.
    pub fn step(&mut self, event: Event<G::Action, G::State>) -> (r: Effect<G::Action>)
        ensures
            final(self).spec_game() == old(self).spec_game(),
            final(self).spec_role() == old(self).spec_role(),
            final(self).spec_local() == old(self).spec_local(),
            final(self).spec_remote() == old(self).spec_remote(),
            old(self).spec_role() == Role::Client ==> !(r is Broadcast) && final(self).spec_seq()
                == old(self).spec_seq(),
            !(event is Tick) ==> final(self).spec_seq() == old(self).spec_seq(),
            old(self).spec_role() == Role::Host ==> final(self).spec_last_seen() == old(
                self,
            ).spec_last_seen(),
            ({
                let g = old(self).spec_game();
                let s = old(self).spec_state();
                let host = old(self).spec_role() == Role::Host;
                match event {
                    Event::Quit => r is Quit && final(self).spec_state() == s,
                    Event::LocalAction(a) => if host {
                        r is Continue && g.applied(s, a, old(self).spec_local(), final(self).spec_state())
                    } else {
                        r == Effect::SendAction(a) && final(self).spec_state() == s
                    },
                    Event::Reliable(None) => r is ProtocolError && final(self).spec_state() == s,
                    Event::Reliable(Some(InternalMsg::Action(a))) => r is Continue && if host {
                        g.applied(s, a, old(self).spec_remote(), final(self).spec_state())
                    } else {
                        final(self).spec_state() == s
                    },
                    Event::Reliable(Some(InternalMsg::Sync(_))) => r is Continue
                        && final(self).spec_state() == s,
                    Event::Unreliable(Some(InternalMsg::Sync(p))) => r is Continue && if host {
                        final(self).spec_state() == s
                    } else {
                        (final(self).spec_last_seen(), final(self).spec_state()) == deliver(
                            (old(self).spec_last_seen(), s),
                            p,
                        )
                    },
                    Event::Unreliable(_) => r is Continue && final(self).spec_state() == s
                        && final(self).spec_last_seen() == old(self).spec_last_seen(),
                    Event::Tick => if host {
                        (if g.ticks() {
                            g.ticked(s, final(self).spec_state())
                        } else {
                            final(self).spec_state() == s
                        }) && if old(self).spec_seq() < u64::MAX {
                            r == Effect::<G::Action>::Broadcast((old(self).spec_seq() + 1) as u64)
                                && final(self).spec_seq() == old(self).spec_seq() + 1
                        } else {
                            r is Continue && final(self).spec_seq() == old(self).spec_seq()
                        }
                    } else {
                        r is Continue && final(self).spec_state() == s
                            && final(self).spec_last_seen() == old(self).spec_last_seen()
                    },
                }
            }),
    {
        let is_host = match self.role {
            Role::Host => true,
            Role::Client => false,
        };
        match event {
            Event::Quit => Effect::Quit,
            Event::LocalAction(a) => {
                if is_host {
                    self.game.handle_action(a, &mut self.replica.state, &self.local);
                    Effect::Continue
                } else {
                    Effect::SendAction(a)
                }
            },
            Event::Reliable(None) => Effect::ProtocolError,
            Event::Reliable(Some(InternalMsg::Action(a))) => {
                if is_host {
                    self.game.handle_action(a, &mut self.replica.state, &self.remote);
                }
                Effect::Continue
            },
            Event::Reliable(Some(InternalMsg::Sync(_))) => Effect::Continue,
            Event::Unreliable(Some(InternalMsg::Sync(p))) => {
                if !is_host {
                    self.replica.apply(p);
                }
                Effect::Continue
            },
            Event::Unreliable(_) => Effect::Continue,
            Event::Tick => {
                if is_host {
                    if self.game.tick_rate().is_some() {
                        self.game.on_tick(&mut self.replica.state);
                    }
                    match self.counter.next_seq() {
                        Some(n) => Effect::Broadcast(n),
                        None => Effect::Continue,
                    }
                } else {
                    Effect::Continue
                }
            },
        }
    }
}

} // verus!
