//! Number guessing: the host keeps a secret number, the client guesses and
//! is told "too low", "too high" or that it found it.

use vstd::prelude::*;
use crate::engine::Key;
use crate::text::{decimal, decimal_string, digits_value, is_digit, parse_digits, pop_char, push_char, chars_of};

verus! {

#[derive(Debug)]
pub enum GuessMsg {
    PlayerGuessed(u32),
    Feedback(String),
    GameOver(u32),
}

pub struct NumberGame {
    is_host: bool,
    secret_number: u32,
    last_feedback: String,
    current_input: String,
    game_over: bool,
}

impl NumberGame {
    pub closed spec fn spec_is_host(&self) -> bool {
        self.is_host
    }

    pub closed spec fn spec_secret(&self) -> u32 {
        self.secret_number
    }

    pub closed spec fn spec_feedback(&self) -> Seq<char> {
        self.last_feedback@
    }

    pub closed spec fn spec_input(&self) -> Seq<char> {
        self.current_input@
    }

    pub closed spec fn spec_over(&self) -> bool {
        self.game_over
    }

    /// The typed input is all decimal digits.
    pub open spec fn wf(&self) -> bool {
        forall|i: int| 0 <= i < self.spec_input().len() ==> is_digit(#[trigger] self.spec_input()[i])
    }

    /// One side's game; the host draws a secret in `1..100`.
    pub fn new(is_host: bool) -> (r: Self)
        ensures
            r.wf(),
            r.spec_is_host() == is_host,
            is_host ==> 1 <= r.spec_secret() < 100,
            !is_host ==> r.spec_secret() == 0,
            r.spec_feedback() == if is_host { "Waiting for guess..."@ } else { "Enter a guess!"@ },
            r.spec_input().len() == 0,
            !r.spec_over(),
    {
        let secret = if is_host { crate::games::random_in(1, 100) } else { 0 };
        Self::with_secret(is_host, secret)
    }

    /// One side's game with a given secret (the client's is never read).
    pub fn with_secret(is_host: bool, secret: u32) -> (r: Self)
        ensures
            r.wf(),
            r.spec_is_host() == is_host,
            r.spec_secret() == secret,
            r.spec_feedback() == if is_host { "Waiting for guess..."@ } else { "Enter a guess!"@ },
            r.spec_input().len() == 0,
            !r.spec_over(),
    {
        NumberGame {
            is_host,
            secret_number: secret,
            last_feedback: if is_host { "Waiting for guess...".to_owned() } else { "Enter a guess!".to_owned() },
            current_input: String::new(),
            game_over: false,
        }
    }

    pub fn last_feedback(&self) -> (r: &str)
        ensures
            r@ == self.spec_feedback(),
    {
        self.last_feedback.as_str()
    }

    pub fn current_input(&self) -> (r: &str)
        ensures
            r@ == self.spec_input(),
    {
        self.current_input.as_str()
    }

    pub fn is_over(&self) -> (r: bool)
        ensures
            r == self.spec_over(),
    {
        self.game_over
    }

    /// The game needs no simulation ticks.
    pub fn tick_rate(&self) -> (r: Option<u64>)
        ensures
            r is None,
    {
        None
    }

    /// One key press: digits are typed, Backspace erases, Enter sends the
    /// typed number (a client only) and clears the input. Returns the
    /// message to send to the peer, if any. Nothing happens once the game is over.
    pub fn handle_input(&mut self, key: Key) -> (r: Option<GuessMsg>)
        requires
            old(self).wf(),
        ensures
            final(self).wf(),
            final(self).spec_is_host() == old(self).spec_is_host(),
            final(self).spec_secret() == old(self).spec_secret(),
            final(self).spec_over() == old(self).spec_over(),
            ({
                let o = *old(self);
                let f = *final(self);
                if o.spec_over() {
                    r is None && f.spec_input() == o.spec_input() && f.spec_feedback() == o.spec_feedback()
                } else {
                    match key {
                        Key::Char(c) => r is None && f.spec_feedback() == o.spec_feedback()
                            && f.spec_input() == if is_digit(c) { o.spec_input().push(c) } else { o.spec_input() },
                        Key::Backspace => r is None && f.spec_feedback() == o.spec_feedback()
                            && f.spec_input() == if o.spec_input().len() > 0 { o.spec_input().drop_last() } else { o.spec_input() },
                        Key::Enter => if o.spec_input().len() == 0 {
                            r is None && f.spec_input() == o.spec_input() && f.spec_feedback() == o.spec_feedback()
                        } else {
                            let v = digits_value(o.spec_input());
                            &&& f.spec_input().len() == 0
                            &&& if v > u32::MAX {
                                r is None && f.spec_feedback() == "Invalid number!"@
                            } else if o.spec_is_host() {
                                r is None && f.spec_feedback() == o.spec_feedback()
                            } else {
                                &&& (r matches Some(GuessMsg::PlayerGuessed(g)) && g == v)
                                &&& f.spec_feedback() == "[SENT] You guessed "@ + decimal(v) + ". Waiting for feedback..."@
                            }
                        },
                        _ => r is None && f.spec_input() == o.spec_input() && f.spec_feedback() == o.spec_feedback(),
                    }
                }
            }),
    {
        if self.game_over {
            return None;
        }
        match key {
            Key::Char(c) => {
                if '0' <= c && c <= '9' {
                    push_char(&mut self.current_input, c);
                    assert forall|i: int| 0 <= i < self.current_input@.len() implies is_digit(
                        #[trigger] self.current_input@[i],
                    ) by {
                        if i < old(self).current_input@.len() {
                            assert(self.current_input@[i] == old(self).spec_input()[i]);
                        }
                    }
                }
                None
            },
            Key::Backspace => {
                pop_char(&mut self.current_input);
                assert forall|i: int| 0 <= i < self.current_input@.len() implies is_digit(
                    #[trigger] self.current_input@[i],
                ) by {
                    assert(self.current_input@[i] == old(self).spec_input()[i]);
                }
                None
            },
            Key::Enter => {
                if self.current_input.as_str().is_empty() {
                    return None;
                }
                let digits = chars_of(self.current_input.as_str());
                assert forall|i: int| 0 <= i < digits@.len() implies is_digit(#[trigger] digits@[i]) by {
                    assert(digits@[i] == self.spec_input()[i]);
                }
                let mut out: Option<GuessMsg> = None;
                match parse_digits(&digits) {
                    Some(guess) => {
                        if !self.is_host {
                            let mut m = "[SENT] You guessed ".to_owned();
                            m.append(decimal_string(guess as u64).as_str());
                            m.append(". Waiting for feedback...");
                            self.last_feedback = m;
                            out = Some(GuessMsg::PlayerGuessed(guess));
                        }
                    },
                    None => {
                        self.last_feedback = "Invalid number!".to_owned();
                    },
                }
                self.current_input = String::new();
                out
            },
            _ => None,
        }
    }

    /// A message from the peer. The host answers a guess: too low, too high,
    /// or found, which ends its game. A client shows feedback, and a found
    /// number ends its game. Returns the answer to send, if any.
    pub fn handle_network(&mut self, msg: GuessMsg) -> (r: Option<GuessMsg>)
        ensures
            final(self).spec_is_host() == old(self).spec_is_host(),
            final(self).spec_secret() == old(self).spec_secret(),
            final(self).spec_input() == old(self).spec_input(),
            ({
                let o = *old(self);
                let f = *final(self);
                match msg {
                    GuessMsg::PlayerGuessed(g) => if !o.spec_is_host() {
                        r is None && f.spec_feedback() == o.spec_feedback() && f.spec_over() == o.spec_over()
                    } else if g < o.spec_secret() {
                        (r matches Some(GuessMsg::Feedback(t)) && t@ == "Too low!"@)
                            && f.spec_feedback() == o.spec_feedback() && f.spec_over() == o.spec_over()
                    } else if g > o.spec_secret() {
                        (r matches Some(GuessMsg::Feedback(t)) && t@ == "Too high!"@)
                            && f.spec_feedback() == o.spec_feedback() && f.spec_over() == o.spec_over()
                    } else {
                        (r matches Some(GuessMsg::GameOver(n)) && n == g) && f.spec_over()
                            && f.spec_feedback() == "Player won! Number was "@ + decimal(g as nat)
                    },
                    GuessMsg::Feedback(t) => r is None && f.spec_feedback() == t@ && f.spec_over() == o.spec_over(),
                    GuessMsg::GameOver(n) => r is None && f.spec_over()
                        && f.spec_feedback() == "Correct! The number was "@ + decimal(n as nat),
                }
            }),
    {
        match msg {
            GuessMsg::PlayerGuessed(guess) => {
                if self.is_host {
                    if guess < self.secret_number {
                        Some(GuessMsg::Feedback("Too low!".to_owned()))
                    } else if guess > self.secret_number {
                        Some(GuessMsg::Feedback("Too high!".to_owned()))
                    } else {
                        self.game_over = true;
                        let mut m = "Player won! Number was ".to_owned();
                        m.append(decimal_string(guess as u64).as_str());
                        self.last_feedback = m;
                        Some(GuessMsg::GameOver(guess))
                    }
                } else {
                    None
                }
            },
            GuessMsg::Feedback(text) => {
                self.last_feedback = text;
                None
            },
            GuessMsg::GameOver(num) => {
                self.game_over = true;
                let mut m = "Correct! The number was ".to_owned();
                m.append(decimal_string(num as u64).as_str());
                self.last_feedback = m;
                None
            },
        }
    }
}

} // verus!
