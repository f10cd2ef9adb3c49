//! The game state machine: a session owns the answer, the submitted guesses,
//! the input buffer and the letter knowledge, and moves from `InProgress` to
//! `Won` or `Lost`.

use vstd::prelude::*;
use crate::hint::{evaluate, hint_class, hints_of, is_letter, is_word, LetterHint, WORD_LEN};
use crate::knowledge::{knowledge_of, merge_into, merge_row, new_knowledge, opt_rank, ALPHABET_LEN};
use crate::date::{day_number_of, CalendarDate};
use crate::keyboard::Key;
use crate::words::{copy_word, WordSource};

verus! {

/// Number of guesses a session allows.
pub const MAX_GUESSES: usize = 6;

/// Where a session stands.
#[derive(Clone, Copy, Debug, PartialEq, Eq, Structural)]
pub enum GameStatus {
    InProgress,
    Won,
    Lost,
}

/// Why a submitted guess was not accepted.
#[derive(Clone, Copy, Debug, PartialEq, Eq, Structural)]
pub enum GuessError {
    /// The buffer holds fewer than five letters.
    IncompleteGuess,
    /// The five letters are not a valid guess.
    UnknownWord,
    /// The session no longer accepts guesses.
    GameOver,
}

impl GuessError {
    /// The text shown to the player for the refusal.
    pub fn message(&self) -> (r: &'static str)
        ensures
            r@ == match *self {
                GuessError::IncompleteGuess => "Not enough letters"@,
                GuessError::UnknownWord => "Not in word list"@,
                GuessError::GameOver => "Game over"@,
            },
    {
        match self {
            GuessError::IncompleteGuess => "Not enough letters",
            GuessError::UnknownWord => "Not in word list",
            GuessError::GameOver => "Game over",
        }
    }
}

/// A submitted guess with its hint at each position.
#[derive(Debug)]
pub struct EvaluatedGuess {
    pub word: Vec<char>,
    pub hints: Vec<LetterHint>,
}

impl View for EvaluatedGuess {
    type V = (Seq<char>, Seq<LetterHint>);

    open spec fn view(&self) -> (Seq<char>, Seq<LetterHint>) {
        (self.word@, self.hints@)
    }
}

/// Every hint of the row is `Correct`.
pub open spec fn all_correct(hs: Seq<LetterHint>) -> bool {
    forall|i: int| 0 <= i < hs.len() ==> hs[i] == LetterHint::Correct
}

/// The status that a history of evaluated guesses leads to: `Won` once a row
/// is all `Correct`, `Lost` after the last allowed guess without one.
pub open spec fn status_of(h: Seq<(Seq<char>, Seq<LetterHint>)>) -> GameStatus {
    if h.len() > 0 && all_correct(h.last().1) {
        GameStatus::Won
    } else if h.len() >= MAX_GUESSES {
        GameStatus::Lost
    } else {
        GameStatus::InProgress
    }
}

/// Why submitting the buffer of `g` fails, checked in order: the session is
/// over; fewer than five letters; not a valid guess. `None` when it succeeds.
pub open spec fn submit_error(g: Game) -> Option<GuessError> {
    if g.status_spec() != GameStatus::InProgress {
        Some(GuessError::GameOver)
    } else if g.buffer().len() < WORD_LEN {
        Some(GuessError::IncompleteGuess)
    } else if !g.words_spec().valid_words().contains(g.buffer()) {
        Some(GuessError::UnknownWord)
    } else {
        None
    }
}

/// The row that submitting the buffer of `g` produces: the buffer with its hints.
pub open spec fn next_row(g: Game) -> (Seq<char>, Seq<LetterHint>) {
    (g.buffer(), hints_of(g.answer_spec(), g.buffer()))
}

/// The effect of an accepted guess: the row joins the history, the buffer
/// empties, the hints merge into the knowledge, and the status becomes `Won`
/// when every hint is `Correct`, else `Lost` on the sixth guess, else stays.
pub open spec fn accepted_step(g0: Game, g1: Game) -> bool {
    let row = next_row(g0);
    &&& g1.history() == g0.history().push(row)
    &&& g1.buffer().len() == 0
    &&& g1.knowledge() == merge_row(g0.knowledge(), row.0, row.1, WORD_LEN as int)
    &&& g1.status_spec() == (if all_correct(row.1) {
        GameStatus::Won
    } else if g1.history().len() == MAX_GUESSES {
        GameStatus::Lost
    } else {
        GameStatus::InProgress
    })
    &&& g1.answer_spec() == g0.answer_spec()
    &&& g1.words_spec() == g0.words_spec()
}

/// What pressing a key did.
#[derive(Debug)]
pub enum PressOutcome {
    /// Nothing changed.
    Ignored,
    /// The buffer changed.
    Edited,
    /// A submitted guess was refused; nothing changed.
    Rejected(GuessError),
    /// A submitted guess was accepted, with this evaluation.
    Accepted(EvaluatedGuess),
}

/// How a tile of the board shows: not yet revealed, or with its hint.
#[derive(Clone, Copy, Debug, PartialEq, Eq, Structural)]
pub enum TileState {
    Initial,
    Hint(LetterHint),
}

impl TileState {
    /// The style class of the tile: `Initial` before it is revealed, else its
    /// hint's class.
    pub fn class_name(&self) -> (r: &'static str)
        ensures
            r@ == match *self {
                TileState::Initial => "Initial"@,
                TileState::Hint(h) => hint_class(h),
            },
    {
        match self {
            TileState::Initial => "Initial",
            TileState::Hint(h) => h.class_name(),
        }
    }
}

/// One tile of the board: a letter (a space when blank) and its state.
#[derive(Clone, Copy, Debug, PartialEq, Eq, Structural)]
pub struct Tile {
    pub letter: char,
    pub state: TileState,
}

/// The tile at row `i`, column `j` of the board of `g`: submitted rows show
/// their letters and hints, the next row shows the buffer, the rest are blank.
pub open spec fn tile_at(g: Game, i: int, j: int) -> Tile {
    let h = g.history();
    if i < h.len() {
        Tile { letter: h[i].0[j], state: TileState::Hint(h[i].1[j]) }
    } else if i == h.len() && j < g.buffer().len() {
        Tile { letter: g.buffer()[j], state: TileState::Initial }
    } else {
        Tile { letter: ' ', state: TileState::Initial }
    }
}

/// One game session.
pub struct Game {
    state: GameStatus,
    answer: Vec<char>,
    words: WordSource,
    guesses: Vec<EvaluatedGuess>,
    current_guess: Vec<char>,
    letter_states: Vec<Option<LetterHint>>,
}

/// Whether every hint of the row is `Correct`.
fn every_correct(hs: &Vec<LetterHint>) -> (r: bool)
    ensures
        r == all_correct(hs@),
{
    let mut i: usize = 0;
    while i < hs.len()
        invariant
            i <= hs@.len(),
            forall|k: int| 0 <= k < i ==> hs@[k] == LetterHint::Correct,
        decreases hs@.len() - i,
    {
        match hs[i] {
            LetterHint::Correct => {},
            _ => return false,
        }
        i = i + 1;
    }
    true
}

/// A copy of a row of hints.
fn copy_hints(hs: &Vec<LetterHint>) -> (r: Vec<LetterHint>)
    ensures
        r@ == hs@,
{
    let mut r: Vec<LetterHint> = Vec::new();
    let mut i: usize = 0;
    while i < hs.len()
        invariant
            i <= hs@.len(),
            r@ == hs@.subrange(0, i as int),
        decreases hs@.len() - i,
    {
        r.push(hs[i]);
        i = i + 1;
    }
    assert(r@ =~= hs@);
    r
}

proof fn lemma_wf_history_words(g: Game)
    requires
        g.wf(),
    ensures
        crate::knowledge::history_words(g.history()),
{
    let h = g.history();
    assert forall|i: int| 0 <= i < h.len() implies is_word(#[trigger] h[i].0) && h[i].1.len() == WORD_LEN by {
        assert(is_word(h[i].0));
    }
}

proof fn lemma_wf_knowledge_len(g: &Game)
    requires
        g.wf(),
    ensures
        g.knowledge().len() == ALPHABET_LEN,
{
    let h = g.history();
    lemma_wf_history_words(*g);
    crate::knowledge::lemma_knowledge_monotonic(h, 0, 0);
}

impl Game {
    /// The secret answer.
    pub closed spec fn answer_spec(&self) -> Seq<char> {
        self.answer@
    }

    /// The dictionaries in use.
    pub closed spec fn words_spec(&self) -> WordSource {
        self.words
    }

    /// The submitted guesses with their hints, in order.
    pub closed spec fn history(&self) -> Seq<(Seq<char>, Seq<LetterHint>)> {
        self.guesses@.map_values(|e: EvaluatedGuess| e@)
    }

    /// The letters typed for the next guess.
    pub closed spec fn buffer(&self) -> Seq<char> {
        self.current_guess@
    }

    /// The best hint known of each letter, indexed by its place in the alphabet.
    pub closed spec fn knowledge(&self) -> Seq<Option<LetterHint>> {
        self.letter_states@
    }

    /// The current status.
    pub closed spec fn status_spec(&self) -> GameStatus {
        self.state
    }

    /// The session's invariant: the answer is a word and a valid guess; each submitted guess is
    /// a word with the hints that evaluation gives it; no row but the last is
    /// all `Correct`; at most six guesses; the buffer holds at most five
    /// letters; the knowledge and the status are those the history gives.
    pub open spec fn wf(&self) -> bool {
        let h = self.history();
        &&& is_word(self.answer_spec())
        &&& self.words_spec().wf()
        &&& self.words_spec().valid_words().contains(self.answer_spec())
        &&& h.len() <= MAX_GUESSES
        &&& forall|i: int|
            0 <= i < h.len() ==> is_word(#[trigger] h[i].0) && h[i].1 == hints_of(
                self.answer_spec(),
                h[i].0,
            )
        &&& forall|i: int| 0 <= i < h.len() - 1 ==> !all_correct(#[trigger] h[i].1)
        &&& self.buffer().len() <= WORD_LEN
        &&& forall|i: int| 0 <= i < self.buffer().len() ==> is_letter(#[trigger] self.buffer()[i])
        &&& self.knowledge() == knowledge_of(h)
        &&& self.status_spec() == status_of(h)
    }

    /// Starts a session on day number `day`: the answer is the word source's
    /// answer of that day; no guess, an empty buffer, no knowledge.
    pub fn new(words: WordSource, day: u64) -> (r: Game)
        requires
            words.wf(),
        ensures
            r.wf(),
            r.words_spec() == words,
            r.answer_spec() == words.answer_of(day as int),
            r.history().len() == 0,
            r.buffer().len() == 0,
            r.status_spec() == GameStatus::InProgress,
    {
        let answer = words.answer_for(day);
        let g = Game {
            state: GameStatus::InProgress,
            answer,
            words,
            guesses: Vec::new(),
            current_guess: Vec::new(),
            letter_states: new_knowledge(),
        };
        assert(g.history() =~= Seq::empty());
        g
    }

    /// Starts the session of a calendar date: the answer is the word
    /// source's answer of the date's day number.
    pub fn new_session(words: WordSource, today: CalendarDate) -> (r: Game)
        requires
            words.wf(),
            today.wf(),
        ensures
            r.wf(),
            r.words_spec() == words,
            r.answer_spec() == words.answer_of(day_number_of(today)),
            r.history().len() == 0,
            r.buffer().len() == 0,
            r.status_spec() == GameStatus::InProgress,
    {
        let day = today.day_number();
        Game::new(words, day)
    }

    /// Whether the session accepts input: it is in progress.
    pub fn accepts_input(&self) -> (r: bool)
        requires
            self.wf(),
        ensures
            r == (self.status_spec() == GameStatus::InProgress),
            r ==> self.history().len() < MAX_GUESSES,
    {
        match self.state {
            GameStatus::InProgress => true,
            _ => false,
        }
    }

    /// Appends a letter to the buffer. Does nothing, and returns `false`, when
    /// the session is over or the buffer already holds five letters.
    pub fn append(&mut self, c: char) -> (r: bool)
        requires
            old(self).wf(),
            is_letter(c),
        ensures
            final(self).wf(),
            r == (old(self).status_spec() == GameStatus::InProgress && old(self).buffer().len()
                < WORD_LEN),
            r ==> final(self).buffer() == old(self).buffer().push(c),
            r ==> final(self).history() == old(self).history(),
            r ==> final(self).status_spec() == old(self).status_spec(),
            r ==> final(self).knowledge() == old(self).knowledge(),
            r ==> final(self).answer_spec() == old(self).answer_spec(),
            r ==> final(self).words_spec() == old(self).words_spec(),
            !r ==> *final(self) == *old(self),
    {
        if !self.accepts_input() || self.current_guess.len() >= WORD_LEN {
            return false;
        }
        self.current_guess.push(c);
        true
    }

    /// Removes the last letter of the buffer. Does nothing, and returns
    /// `false`, when the session is over or the buffer is empty.
    pub fn remove_last(&mut self) -> (r: bool)
        requires
            old(self).wf(),
        ensures
            final(self).wf(),
            r == (old(self).status_spec() == GameStatus::InProgress && old(self).buffer().len() > 0),
            r ==> final(self).buffer() == old(self).buffer().drop_last(),
            r ==> final(self).history() == old(self).history(),
            r ==> final(self).status_spec() == old(self).status_spec(),
            r ==> final(self).knowledge() == old(self).knowledge(),
            r ==> final(self).answer_spec() == old(self).answer_spec(),
            r ==> final(self).words_spec() == old(self).words_spec(),
            !r ==> *final(self) == *old(self),
    {
        if !self.accepts_input() || self.current_guess.len() == 0 {
            return false;
        }
        self.current_guess.pop();
        true
    }

    /// Handles a key press. A letter key appends to the buffer, backspace
    /// removes its last letter, enter submits it; a key that cannot act, or
    /// any key once the session is over, is ignored and changes nothing.
    pub fn press(&mut self, key: Key) -> (r: PressOutcome)
        requires
            old(self).wf(),
        ensures
            final(self).wf(),
            r is Ignored ==> *final(self) == *old(self),
            old(self).status_spec() != GameStatus::InProgress ==> r is Ignored,
            match key {
                Key::Letter(c) => (r is Edited <==> (is_letter(c) && old(self).status_spec()
                    == GameStatus::InProgress && old(self).buffer().len() < WORD_LEN)) && (r is Edited
                    || r is Ignored) && (r is Edited ==> final(self).buffer() == old(self).buffer().push(c)
                    && final(self).history() == old(self).history() && final(self).status_spec()
                    == old(self).status_spec()
                    && final(self).knowledge() == old(self).knowledge()
                    && final(self).answer_spec() == old(self).answer_spec()
                    && final(self).words_spec() == old(self).words_spec()),
                Key::Backspace => (r is Edited <==> (old(self).status_spec() == GameStatus::InProgress
                    && old(self).buffer().len() > 0)) && (r is Edited || r is Ignored) && (r is Edited
                    ==> final(self).buffer() == old(self).buffer().drop_last() && final(self).history()
                    == old(self).history() && final(self).status_spec() == old(self).status_spec()
                    && final(self).knowledge() == old(self).knowledge()
                    && final(self).answer_spec() == old(self).answer_spec()
                    && final(self).words_spec() == old(self).words_spec()),
                Key::Enter => old(self).status_spec() == GameStatus::InProgress ==> match submit_error(
                    *old(self),
                ) {
                    Some(e) => r == PressOutcome::Rejected(e) && *final(self) == *old(self),
                    None => r matches PressOutcome::Accepted(ev) && ev@ == next_row(*old(self))
                        && accepted_step(*old(self), *final(self)),
                },
            },
    {
        if !self.accepts_input() {
            return PressOutcome::Ignored;
        }
        match key {
            Key::Letter(c) => {
                if 'a' <= c && c <= 'z' && self.append(c) {
                    PressOutcome::Edited
                } else {
                    PressOutcome::Ignored
                }
            },
            Key::Backspace => {
                if self.remove_last() {
                    PressOutcome::Edited
                } else {
                    PressOutcome::Ignored
                }
            },
            Key::Enter => match self.submit() {
                Ok(ev) => PressOutcome::Accepted(ev),
                Err(e) => PressOutcome::Rejected(e),
            },
        }
    }

    /// The current status.
    pub fn status(&self) -> (r: GameStatus)
        ensures
            r == self.status_spec(),
    {
        self.state
    }

    /// The answer, revealed once the session is lost; `None` before that or
    /// after a win.
    pub fn revealed_answer(&self) -> (r: Option<Vec<char>>)
        ensures
            r is Some <==> self.status_spec() == GameStatus::Lost,
            r matches Some(w) ==> w@ == self.answer_spec(),
    {
        match self.state {
            GameStatus::Lost => Some(copy_word(&self.answer)),
            _ => None,
        }
    }

    /// A snapshot of the letter knowledge, indexed by place in the alphabet.
    pub fn letter_knowledge(&self) -> (r: Vec<Option<LetterHint>>)
        ensures
            r@ == self.knowledge(),
    {
        let mut r: Vec<Option<LetterHint>> = Vec::new();
        let mut t: usize = 0;
        while t < self.letter_states.len()
            invariant
                t <= self.knowledge().len(),
                r@ == self.knowledge().subrange(0, t as int),
            decreases self.knowledge().len() - t,
        {
            r.push(self.letter_states[t]);
            t = t + 1;
        }
        assert(r@ =~= self.knowledge());
        r
    }

    /// The best hint known of a letter; `None` for a letter not yet guessed
    /// and for a character that is no letter.
    pub fn hint_for(&self, c: char) -> (r: Option<LetterHint>)
        requires
            self.wf(),
        ensures
            is_letter(c) ==> r == self.knowledge()[c as int - 'a' as int],
            !is_letter(c) ==> r is None,
    {
        proof {
            lemma_wf_knowledge_len(self);
        }
        if 'a' <= c && c <= 'z' {
            self.letter_states[(c as u32 - 'a' as u32) as usize]
        } else {
            None
        }
    }

    /// The letters typed for the next guess.
    pub fn current_guess(&self) -> (r: Vec<char>)
        ensures
            r@ == self.buffer(),
    {
        copy_word(&self.current_guess)
    }

    /// Number of guesses submitted so far.
    pub fn guess_count(&self) -> (r: usize)
        ensures
            r == self.history().len(),
    {
        self.guesses.len()
    }

    /// The six rows of five tiles that the board shows.
    pub fn current_rows(&self) -> (r: Vec<Vec<Tile>>)
        requires
            self.wf(),
        ensures
            r@.len() == MAX_GUESSES,
            forall|i: int| 0 <= i < MAX_GUESSES ==> (#[trigger] r@[i])@.len() == WORD_LEN,
            forall|i: int, j: int|
                0 <= i < MAX_GUESSES && 0 <= j < WORD_LEN ==> (#[trigger] r@[i]@[j]) == tile_at(
                    *self,
                    i,
                    j,
                ),
    {
        let mut rows: Vec<Vec<Tile>> = Vec::new();
        let mut i: usize = 0;
        while i < MAX_GUESSES
            invariant
                self.wf(),
                i <= MAX_GUESSES,
                rows@.len() == i,
                forall|k: int| 0 <= k < i ==> (#[trigger] rows@[k])@.len() == WORD_LEN,
                forall|k: int, j: int|
                    0 <= k < i && 0 <= j < WORD_LEN ==> (#[trigger] rows@[k]@[j]) == tile_at(*self, k, j),
            decreases MAX_GUESSES - i,
        {
            let mut row: Vec<Tile> = Vec::new();
            let mut j: usize = 0;
            while j < WORD_LEN
                invariant
                    self.wf(),
                    i < MAX_GUESSES,
                    j <= WORD_LEN,
                    row@.len() == j,
                    forall|m: int| 0 <= m < j ==> #[trigger] row@[m] == tile_at(*self, i as int, m),
                decreases WORD_LEN - j,
            {
                let tile = if i < self.guesses.len() {
                    proof {
                        assert(self.history()[i as int] == self.guesses@[i as int]@);
                        assert(is_word(self.history()[i as int].0));
                    }
                    Tile {
                        letter: self.guesses[i].word[j],
                        state: TileState::Hint(self.guesses[i].hints[j]),
                    }
                } else if i == self.guesses.len() && j < self.current_guess.len() {
                    Tile { letter: self.current_guess[j], state: TileState::Initial }
                } else {
                    Tile { letter: ' ', state: TileState::Initial }
                };
                row.push(tile);
                j = j + 1;
            }
            rows.push(row);
            i = i + 1;
        }
        rows
    }

    /// Submits the buffer as a guess. Rejects it, leaving the session as it
    /// was, with `GameOver` when the session is over, with `IncompleteGuess`
    /// when the buffer holds fewer than five letters, and with `UnknownWord`
    /// when it is no valid guess. Otherwise evaluates it against the answer,
    /// appends the result to the history, clears the buffer, merges the hints
    /// into the letter knowledge, and moves to `Won` when every hint is
    /// `Correct`, else to `Lost` when this was the sixth guess.
    pub fn submit(&mut self) -> (r: Result<EvaluatedGuess, GuessError>)
        requires
            old(self).wf(),
        ensures
            final(self).wf(),
            match submit_error(*old(self)) {
                Some(e) => r == Err::<EvaluatedGuess, GuessError>(e) && *final(self) == *old(self),
                None => r matches Ok(ev) && ev@ == next_row(*old(self)) && accepted_step(
                    *old(self),
                    *final(self),
                ),
            },
            forall|t: int|
                0 <= t < ALPHABET_LEN ==> opt_rank(old(self).knowledge()[t]) <= opt_rank(
                    #[trigger] final(self).knowledge()[t],
                ),
    {
        proof {
            lemma_wf_knowledge_len(self);
        }
        if !self.accepts_input() {
            return Err(GuessError::GameOver);
        }
        if self.current_guess.len() < WORD_LEN {
            return Err(GuessError::IncompleteGuess);
        }
        if !self.words.is_valid_guess(&self.current_guess) {
            return Err(GuessError::UnknownWord);
        }
        let ghost h0 = self.history();
        let ghost k0 = self.knowledge();
        assert(is_word(self.buffer()));
        let hints = evaluate(&self.answer, &self.current_guess);
        let word = copy_word(&self.current_guess);
        proof {
            crate::knowledge::lemma_merge_row_monotonic(k0, word@, hints@, WORD_LEN as int);
        }
        merge_into(&mut self.letter_states, &word, &hints);
        let all = every_correct(&hints);
        let out = EvaluatedGuess { word: copy_word(&word), hints: copy_hints(&hints) };
        let ghost row = (word@, hints@);
        self.guesses.push(EvaluatedGuess { word, hints });
        self.current_guess = Vec::new();
        proof {
            assert(self.history() =~= h0.push(row));
            assert(self.history().drop_last() =~= h0);
        }
        if all {
            self.state = GameStatus::Won;
        } else if self.guesses.len() == MAX_GUESSES {
            self.state = GameStatus::Lost;
        }
        Ok(out)
    }
}

/// A guess equal to the answer is accepted while the session is in
/// progress, is all `Correct`, and wins at once, whichever attempt it is.
pub proof fn lemma_exact_guess_wins(g0: Game, g1: Game)
    requires
        g0.wf(),
        g0.status_spec() == GameStatus::InProgress,
        g0.buffer() == g0.answer_spec(),
        accepted_step(g0, g1),
    ensures
        submit_error(g0) is None,
        all_correct(next_row(g0).1),
        g1.status_spec() == GameStatus::Won,
{
    crate::hint::lemma_exact_guess_all_correct(g0.answer_spec());
}

/// A sixth accepted guess that is not all `Correct` loses the session, and
/// the answer is then the one revealed.
pub proof fn lemma_sixth_miss_loses(g0: Game, g1: Game)
    requires
        g0.wf(),
        submit_error(g0) is None,
        g0.history().len() == MAX_GUESSES - 1,
        !all_correct(next_row(g0).1),
        accepted_step(g0, g1),
    ensures
        g1.status_spec() == GameStatus::Lost,
        g1.answer_spec() == g0.answer_spec(),
{
}

/// The letter knowledge of a session never regresses: the entry of each letter
/// after the first `m` of its guesses ranks no higher than its entry now.
pub proof fn lemma_session_knowledge_monotonic(g: Game, m: int, t: int)
    requires
        g.wf(),
        0 <= m <= g.history().len(),
        0 <= t < ALPHABET_LEN,
    ensures
        opt_rank(knowledge_of(g.history().subrange(0, m))[t]) <= opt_rank(g.knowledge()[t]),
{
    let h = g.history();
    lemma_wf_history_words(g);
    crate::knowledge::lemma_knowledge_monotonic(h, m, t);
}

/// A session that is over refuses every submission.
pub proof fn lemma_finished_refuses(g: Game)
    requires
        g.wf(),
        g.status_spec() != GameStatus::InProgress,
    ensures
        submit_error(g) == Some(GuessError::GameOver),
{
}

} // verus!
