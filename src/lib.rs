//! A daily five-letter word-guessing game: guess evaluation, the word source
//! and the game state machine, with their contracts proved by Verus.

pub mod date;
pub mod feedback;
pub mod game;
pub mod hint;
pub mod keyboard;
pub mod knowledge;
pub mod words;

pub use date::CalendarDate;
pub use feedback::TransientFlag;
pub use game::{EvaluatedGuess, Game, GameStatus, GuessError, PressOutcome, Tile, TileState};
pub use hint::{evaluate, LetterHint};
pub use keyboard::Key;
pub use knowledge::hint_in;
pub use words::{answer_list, guess_list, parse_word, WordSource};
