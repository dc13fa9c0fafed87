//! Hangman for two players taking turns, with six wrong guesses allowed.

use vstd::prelude::*;
use crate::text::{chars_of, push_char};

verus! {

/// Wrong guesses a game allows.
pub const MAX_TRIES: u8 = 6;

/// The words a new game draws from.
pub open spec fn word_list() -> Seq<Seq<char>> {
    seq![
        "EXAMPLE"@,
        "WEBSOCKET"@,
        "RUST"@,
        "ASYNC"@,
        "TOKIO"@,
        "HANGMAN"@,
        "TERMINAL"@,
        "NETWORK"@,
        "SOCKET"@,
    ]
}

/// What `str::to_uppercase` makes of a text.
pub uninterp spec fn upper_of(s: Seq<char>) -> Seq<char>;

/// Relies on str::to_uppercase, whose result depends on the characters alone.
#[verifier::external_body]
fn to_upper(s: &str) -> (r: String)
    ensures
        r@ == upper_of(s@),
{
    s.to_uppercase()
}

pub open spec fn is_letter(c: char) -> bool {
    ('A' <= c && c <= 'Z') || ('a' <= c && c <= 'z')
}

pub open spec fn upper_ascii(c: char) -> char {
    if 'a' <= c && c <= 'z' {
        ((c as u32) - 32) as char
    } else {
        c
    }
}

/// `word` with every letter not yet in `guessed` shown as `_`.
pub open spec fn mask_of(word: Seq<char>, guessed: Seq<char>) -> Seq<char> {
    Seq::new(
        word.len(),
        |i: int|
            if is_letter(word[i]) && !guessed.contains(word[i]) {
                '_'
            } else {
                word[i]
            },
    )
}

/// Every letter of `word` is among `guessed`.
pub open spec fn complete(word: Seq<char>, guessed: Seq<char>) -> bool {
    forall|i: int| 0 <= i < word.len() && is_letter(word[i]) ==> guessed.contains(#[trigger] word[i])
}

pub open spec fn names(v: Seq<String>) -> Seq<Seq<char>> {
    v.map_values(|s: String| s@)
}

/// Whether ASCII letter test.
pub fn is_ascii_letter(c: char) -> (r: bool)
    ensures
        r == is_letter(c),
{
    ('A' <= c && c <= 'Z') || ('a' <= c && c <= 'z')
}

pub fn to_ascii_upper(c: char) -> (r: char)
    ensures
        r == upper_ascii(c),
{
    if 'a' <= c && c <= 'z' {
        let b: u8 = (c as u8) - 32;
        b as char
    } else {
        c
    }
}

fn contains_char(v: &Vec<char>, c: char) -> (r: bool)
    ensures
        r == v@.contains(c),
{
    let mut i: usize = 0;
    while i < v.len()
        invariant
            i <= v@.len(),
            forall|k: int| 0 <= k < i ==> v@[k] != c,
        decreases v@.len() - i,
    {
        if v[i] == c {
            assert(v@[i as int] == c);
            return true;
        }
        i = i + 1;
    }
    false
}

fn contains_name(v: &Vec<String>, name: &str) -> (r: bool)
    ensures
        r == names(v@).contains(name@),
{
    let n = name.to_owned();
    let mut i: usize = 0;
    while i < v.len()
        invariant
            i <= v@.len(),
            n@ == name@,
            forall|k: int| 0 <= k < i ==> v@[k]@ != name@,
        decreases v@.len() - i,
    {
        if v[i] == n {
            assert(names(v@)[i as int] == name@);
            return true;
        }
        i = i + 1;
    }
    assert forall|k: int| 0 <= k < names(v@).len() implies names(v@)[k] != name@ by {
        assert(names(v@)[k] == v@[k]@);
    }
    false
}

#[derive(Debug)]
pub struct HangmanState {
    pub word: String,
    pub masked_word: String,
    pub guessed: Vec<char>,
    pub wrong: Vec<char>,
    pub remaining_tries: u8,
    pub players: Vec<String>,
    pub current_turn: usize,
    pub message: String,
    pub finished: bool,
}

#[derive(Debug, Clone, Copy, PartialEq, Eq)]
pub enum HangmanInput {
    Guess(char),
}

/// The message after a guess: the verdict, then whose turn is next.
pub open spec fn with_next(verdict: Seq<char>, next: Seq<char>) -> Seq<char> {
    verdict + "  Next: "@ + next
}

/// The outcome of `player` guessing `letter`: the state goes from `o` to
/// `f` and the guess answers `r`.
pub open spec fn guess_post(
    o: HangmanState,
    letter: char,
    player: Seq<char>,
    f: HangmanState,
    r: Result<bool, String>,
) -> bool {
    let l = upper_ascii(letter);
    if o.players@.len() < 2 {
        f == o && (r matches Err(e) && e@ == "Need at least 2 players to start"@)
    } else if o.finished {
        f == o && (r matches Err(e) && e@ == "Game is finished"@)
    } else if o.players@[o.current_turn as int]@ != player {
        f == o && (r matches Err(e) && e@ == "Not your turn! It's "@
            + o.players@[o.current_turn as int]@ + "'s turn."@)
    } else if !is_letter(l) {
        f == o && (r matches Err(e) && e@ == "Please guess a letter A-Z"@)
    } else if o.guessed@.contains(l) || o.wrong@.contains(l) {
        f == o && (r matches Err(e) && e@ == "Letter '"@ + seq![l] + "' already guessed"@)
    } else {
        &&& f.word == o.word
        &&& f.players == o.players
        &&& if o.word@.contains(l) {
            &&& r == Ok::<bool, String>(true)
            &&& f.guessed@ == o.guessed@.push(l)
            &&& f.wrong == o.wrong
            &&& f.remaining_tries == o.remaining_tries
            &&& f.masked_word@ == mask_of(o.word@, f.guessed@)
            &&& if complete(o.word@, f.guessed@) {
                &&& f.finished
                &&& f.current_turn == o.current_turn
                &&& f.message@ == "\u{1F389} "@ + player + " won! The word was '"@
                    + o.word@ + "'."@
            } else {
                &&& !f.finished
                &&& f.current_turn == (o.current_turn + 1) % 2
                &&& f.message@ == with_next(
                    "Good guess! '"@ + seq![l] + "' is in the word."@,
                    o.players@[f.current_turn as int]@,
                )
            }
        } else {
            &&& r == Ok::<bool, String>(false)
            &&& f.wrong@ == o.wrong@.push(l)
            &&& f.guessed == o.guessed
            &&& f.masked_word == o.masked_word
            &&& f.remaining_tries == o.remaining_tries - 1
            &&& if o.remaining_tries == 1 {
                &&& f.finished
                &&& f.current_turn == o.current_turn
                &&& f.message@ == "\u{1F480} Game over! The word was '"@
                    + o.word@ + "'."@
            } else {
                &&& !f.finished
                &&& f.current_turn == (o.current_turn + 1) % 2
                &&& f.message@ == with_next(
                    "Sorry, '"@ + seq![l] + "' is not in the word."@,
                    o.players@[f.current_turn as int]@,
                )
            }
        }
    }
}

impl HangmanState {
    /// A game in progress has a wrong guess left, and once two players are
    /// seated its turn names one of them.
    pub open spec fn wf(&self) -> bool {
        &&& (self.finished || self.remaining_tries > 0)
        &&& (self.players@.len() >= 2 && !self.finished ==> self.current_turn < self.players@.len())
    }

    /// A game on `word`, upper-cased, with every letter hidden.
    pub fn new(word: String) -> (r: Self)
        ensures
            r.wf(),
            r.word@ == upper_of(word@),
            r.masked_word@ == mask_of(r.word@, Seq::empty()),
            r.guessed@.len() == 0,
            r.wrong@.len() == 0,
            r.remaining_tries == MAX_TRIES,
            r.players@.len() == 0,
            r.current_turn == 0,
            r.message@ == "Welcome to Hangman!"@,
            !r.finished,
    {
        let word = to_upper(word.as_str());
        let mut r = HangmanState {
            word,
            masked_word: String::new(),
            guessed: Vec::new(),
            wrong: Vec::new(),
            remaining_tries: MAX_TRIES,
            players: Vec::new(),
            current_turn: 0,
            message: "Welcome to Hangman!".to_owned(),
            finished: false,
        };
        r.update_masked_word();
        r
    }

    /// Seats `name` unless already seated; seating the second player starts
    /// the game, the first seated going first.
    pub fn add_player(&mut self, name: String)
        ensures
            names(old(self).players@).contains(name@) ==> *final(self) == *old(self),
            !names(old(self).players@).contains(name@) ==> {
                &&& final(self).players@ == old(self).players@.push(name)
                &&& final(self).message@ == if final(self).players@.len() == 2 {
                    "Game started! "@ + final(self).players@[0]@ + " goes first."@
                } else {
                    old(self).message@
                }
                &&& final(self).word == old(self).word
                &&& final(self).masked_word == old(self).masked_word
                &&& final(self).guessed == old(self).guessed
                &&& final(self).wrong == old(self).wrong
                &&& final(self).remaining_tries == old(self).remaining_tries
                &&& final(self).current_turn == old(self).current_turn
                &&& final(self).finished == old(self).finished
            },
    {
        if !contains_name(&self.players, name.as_str()) {
            self.players.push(name);
            if self.players.len() == 2 {
                let mut m = "Game started! ".to_owned();
                m.append(self.players[0].as_str());
                m.append(" goes first.");
                self.message = m;
            }
        }
    }

    /// Shows every guessed letter of the word and hides the others.
    pub fn update_masked_word(&mut self)
        ensures
            final(self).masked_word@ == mask_of(old(self).word@, old(self).guessed@),
            final(self).word == old(self).word,
            final(self).guessed == old(self).guessed,
            final(self).wrong == old(self).wrong,
            final(self).remaining_tries == old(self).remaining_tries,
            final(self).players == old(self).players,
            final(self).current_turn == old(self).current_turn,
            final(self).message == old(self).message,
            final(self).finished == old(self).finished,
    {
        let w = chars_of(self.word.as_str());
        let mut m = String::new();
        let mut i: usize = 0;
        while i < w.len()
            invariant
                i <= w@.len(),
                w@ == self.word@,
                m@ == mask_of(w@, self.guessed@).subrange(0, i as int),
            decreases w@.len() - i,
        {
            let c = w[i];
            if is_ascii_letter(c) && !contains_char(&self.guessed, c) {
                push_char(&mut m, '_');
            } else {
                push_char(&mut m, c);
            }
            i = i + 1;
            assert(m@ =~= mask_of(w@, self.guessed@).subrange(0, i as int));
        }
        assert(m@ =~= mask_of(w@, self.guessed@));
        self.masked_word = m;
    }

    /// Whether every letter of the word has been guessed.
    pub fn is_word_complete(&self) -> (r: bool)
        ensures
            r == complete(self.word@, self.guessed@),
    {
        let w = chars_of(self.word.as_str());
        let mut i: usize = 0;
        while i < w.len()
            invariant
                i <= w@.len(),
                w@ == self.word@,
                forall|k: int| 0 <= k < i && is_letter(w@[k]) ==> self.guessed@.contains(#[trigger] w@[k]),
            decreases w@.len() - i,
        {
            let c = w[i];
            if is_ascii_letter(c) && !contains_char(&self.guessed, c) {
                return false;
            }
            i = i + 1;
        }
        true
    }
    /// `player_name` guesses `letter` (case does not matter). Refused, with
    /// the state untouched, before two players are seated, once the game is
    /// over, out of turn, for a non-letter and for a letter already tried.
    /// Otherwise the letter is recorded as right or wrong; the game ends when
    /// the word is complete or the last wrong guess is spent, and else the
    /// turn passes. Returns whether the letter is in the word.
    pub fn guess(&mut self, letter: char, player_name: &str) -> (r: Result<bool, String>)
        requires
            old(self).wf(),
        ensures
            final(self).wf(),
            guess_post(*old(self), letter, player_name@, *final(self), r),
    {
        if self.players.len() < 2 {
            return Err("Need at least 2 players to start".to_owned());
        }
        if self.finished {
            return Err("Game is finished".to_owned());
        }
        let current = self.players[self.current_turn].clone();
        let me = player_name.to_owned();
        if current != me {
            let mut e = "Not your turn! It's ".to_owned();
            e.append(current.as_str());
            e.append("'s turn.");
            return Err(e);
        }
        let letter = to_ascii_upper(letter);
        if !is_ascii_letter(letter) {
            return Err("Please guess a letter A-Z".to_owned());
        }
        if contains_char(&self.guessed, letter) || contains_char(&self.wrong, letter) {
            let mut e = "Letter '".to_owned();
            push_char(&mut e, letter);
            e.append("' already guessed");
            assert(e@ == "Letter '"@ + seq![letter] + "' already guessed"@);
            return Err(e);
        }
        let is_correct = contains_char(&chars_of(self.word.as_str()), letter);
        if is_correct {
            self.guessed.push(letter);
            self.update_masked_word();
            if self.is_word_complete() {
                self.finished = true;
                let mut m = "\u{1F389} ".to_owned();
                m.append(player_name);
                m.append(" won! The word was '");
                m.append(self.word.as_str());
                m.append("'.");
                self.message = m;
                return Ok(true);
            }
            let mut m = "Good guess! '".to_owned();
            push_char(&mut m, letter);
            m.append("' is in the word.");
            assert(m@ == "Good guess! '"@ + seq![letter] + "' is in the word."@);
            self.message = m;
        } else {
            self.wrong.push(letter);
            self.remaining_tries = self.remaining_tries - 1;
            if self.remaining_tries == 0 {
                self.finished = true;
                let mut m = "\u{1F480} Game over! The word was '".to_owned();
                m.append(self.word.as_str());
                m.append("'.");
                self.message = m;
                return Ok(false);
            }
            let mut m = "Sorry, '".to_owned();
            push_char(&mut m, letter);
            m.append("' is not in the word.");
            assert(m@ == "Sorry, '"@ + seq![letter] + "' is not in the word."@);
            self.message = m;
        }
        self.current_turn = (self.current_turn + 1) % 2;
        let mut m = self.message.clone();
        m.append("  Next: ");
        m.append(self.players[self.current_turn].as_str());
        assert(m@ == with_next(self.message@, self.players@[self.current_turn as int]@));
        self.message = m;
        assert(self.players == old(self).players);
        assert(is_correct == old(self).word@.contains(letter));
        Ok(is_correct)
    }
}

/// The state `f` after seating `name` in `o`, when not seated already.
pub open spec fn seated(o: HangmanState, name: Seq<char>, f: HangmanState) -> bool {
    &&& f.players@.len() == o.players@.len() + 1
    &&& f.players@.drop_last() == o.players@
    &&& f.players@.last()@ == name
    &&& f.message@ == if f.players@.len() == 2 {
        "Game started! "@ + f.players@[0]@ + " goes first."@
    } else {
        o.message@
    }
    &&& f.word == o.word
    &&& f.masked_word == o.masked_word
    &&& f.guessed == o.guessed
    &&& f.wrong == o.wrong
    &&& f.remaining_tries == o.remaining_tries
    &&& f.current_turn == o.current_turn
    &&& f.finished == o.finished
}

/// What a player is told after guessing `letter`.
pub open spec fn reply(letter: char, r: Result<bool, String>) -> Seq<char> {
    match r {
        Ok(true) => "\u{2705} Good guess! '"@ + seq![letter] + "' is in the word."@,
        Ok(false) => "\u{274C} Sorry, '"@ + seq![letter] + "' is not in the word."@,
        Err(e) => e@,
    }
}

/// The first ASCII letter of `s`, if any.
pub open spec fn first_letter(s: Seq<char>) -> Option<char>
    decreases s.len(),
{
    if s.len() == 0 {
        None
    } else if is_letter(s[0]) {
        Some(s[0])
    } else {
        first_letter(s.drop_first())
    }
}

/// Hangman as a hosted game: the host draws the word, every player guesses.
pub struct HangmanGame;

impl HangmanGame {
    /// The word of the list at `i`.
    pub fn word_at(i: usize) -> (r: String)
        requires
            i < 9,
        ensures
            r@ == word_list()[i as int],
    {
        match i {
            0 => "EXAMPLE".to_owned(),
            1 => "WEBSOCKET".to_owned(),
            2 => "RUST".to_owned(),
            3 => "ASYNC".to_owned(),
            4 => "TOKIO".to_owned(),
            5 => "HANGMAN".to_owned(),
            6 => "TERMINAL".to_owned(),
            7 => "NETWORK".to_owned(),
            _ => "SOCKET".to_owned(),
        }
    }

    /// A game on a word drawn at random from the list.
    pub fn new_game() -> (r: HangmanState)
        ensures
            r.wf(),
            exists|i: int| 0 <= i < 9 && r.word@ == upper_of(#[trigger] word_list()[i]),
            r.masked_word@ == mask_of(r.word@, Seq::empty()),
            r.guessed@.len() == 0,
            r.wrong@.len() == 0,
            r.remaining_tries == MAX_TRIES,
            r.players@.len() == 0,
            r.current_turn == 0,
            !r.finished,
    {
        let i = crate::games::random_in(0, 9) as usize;
        let w = Self::word_at(i);
        HangmanState::new(w)
    }

    /// `player_name` guesses: a newcomer is seated first, then the guess is
    /// made; the answer is what the player is told.
    pub fn handle_input(input: &HangmanInput, state: &mut HangmanState, player_name: &str) -> (r: String)
        requires
            old(state).finished || old(state).remaining_tries > 0,
            ({
                let n = if names(old(state).players@).contains(player_name@) {
                    old(state).players@.len()
                } else {
                    old(state).players@.len() + 1
                };
                n >= 2 && !old(state).finished ==> old(state).current_turn < n
            }),
        ensures
            final(state).wf(),
            ({
                let HangmanInput::Guess(letter) = *input;
                exists|mid: HangmanState, g: Result<bool, String>|
                    (if names(old(state).players@).contains(player_name@) {
                        mid == *old(state)
                    } else {
                        seated(*old(state), player_name@, mid)
                    }) && #[trigger] guess_post(mid, letter, player_name@, *final(state), g) && r@
                        == reply(letter, g)
            }),
    {
        let HangmanInput::Guess(letter) = *input;
        let ghost o = *state;
        let seated_already = contains_name(&state.players, player_name);
        if !seated_already {
            state.add_player(player_name.to_owned());
            assert(state.players@.drop_last() =~= o.players@);
            assert(seated(o, player_name@, *state));
        }
        let ghost mid = *state;
        let g = state.guess(letter, player_name);
        let r = match &g {
            Ok(true) => {
                let mut m = "\u{2705} Good guess! '".to_owned();
                push_char(&mut m, letter);
                m.append("' is in the word.");
                m
            },
            Ok(false) => {
                let mut m = "\u{274C} Sorry, '".to_owned();
                push_char(&mut m, letter);
                m.append("' is not in the word.");
                m
            },
            Err(e) => e.clone(),
        };
        assert(guess_post(mid, letter, player_name@, *state, g) && r@ == reply(letter, g));
        assert(if names(o.players@).contains(player_name@) {
            mid == o
        } else {
            seated(o, player_name@, mid)
        });
        r
    }

    /// The guess a typed line stands for: its first ASCII letter.
    pub fn parse_line(line: &str) -> (r: Option<HangmanInput>)
        ensures
            r == match first_letter(line@) {
                Some(c) => Some(HangmanInput::Guess(c)),
                None => None::<HangmanInput>,
            },
    {
        let cs = chars_of(line);
        assert(cs@.subrange(0, cs@.len() as int) =~= cs@);
        let mut i: usize = 0;
        while i < cs.len()
            invariant
                i <= cs@.len(),
                cs@ == line@,
                first_letter(line@) == first_letter(cs@.subrange(i as int, cs@.len() as int)),
            decreases cs@.len() - i,
        {
            assert(cs@.subrange(i as int, cs@.len() as int).drop_first() =~= cs@.subrange(
                i + 1,
                cs@.len() as int,
            ));
            if is_ascii_letter(cs[i]) {
                return Some(HangmanInput::Guess(cs[i]));
            }
            i = i + 1;
        }
        None
    }
}

} // verus!
