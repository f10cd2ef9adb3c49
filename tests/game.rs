use wordle::{CalendarDate, Game, GameStatus, GuessError, Key, LetterHint, PressOutcome, TileState, WordSource};

fn source() -> WordSource {
    WordSource::new(&vec!["speed"], &vec!["erase", "crane", "plumb", "eerie", "level", "tight"]).unwrap()
}

fn type_word(g: &mut Game, w: &str) {
    for c in w.chars() {
        assert!(g.append(c));
    }
}

fn rank(h: Option<LetterHint>) -> u8 {
    match h {
        None => 0,
        Some(LetterHint::Absent) => 1,
        Some(LetterHint::Present) => 2,
        Some(LetterHint::Correct) => 3,
    }
}

#[test]
fn new_session_starts_in_progress() {
    let g = Game::new_session(source(), CalendarDate::new(2022, 1, 1).unwrap());
    assert_eq!(g.status(), GameStatus::InProgress);
    assert_eq!(g.guess_count(), 0);
    assert!(g.current_guess().is_empty());
    assert!(g.letter_knowledge().iter().all(|k| k.is_none()));
    assert_eq!(g.letter_knowledge().len(), 26);
    assert_eq!(g.revealed_answer(), None);
}

#[test]
fn incomplete_guess_is_refused() {
    let mut g = Game::new(source(), 0);
    type_word(&mut g, "spe");
    assert_eq!(g.submit().unwrap_err(), GuessError::IncompleteGuess);
    assert_eq!(g.guess_count(), 0);
    assert_eq!(g.status(), GameStatus::InProgress);
    assert_eq!(g.current_guess(), vec!['s', 'p', 'e']);
    assert_eq!(GuessError::IncompleteGuess.message(), "Not enough letters");
}

#[test]
fn unknown_word_is_refused() {
    let mut g = Game::new(source(), 0);
    type_word(&mut g, "zzzzz");
    assert_eq!(g.submit().unwrap_err(), GuessError::UnknownWord);
    assert_eq!(g.guess_count(), 0);
    assert_eq!(g.status(), GameStatus::InProgress);
    assert_eq!(g.current_guess().len(), 5);
    assert!(g.letter_knowledge().iter().all(|k| k.is_none()));
    assert_eq!(GuessError::UnknownWord.message(), "Not in word list");
}

#[test]
fn buffer_edits_respect_bounds() {
    let mut g = Game::new(source(), 0);
    assert!(!g.remove_last());
    type_word(&mut g, "crane");
    assert!(!g.append('x'));
    assert_eq!(g.current_guess(), vec!['c', 'r', 'a', 'n', 'e']);
    assert!(g.remove_last());
    assert_eq!(g.current_guess(), vec!['c', 'r', 'a', 'n']);
}

#[test]
fn accepted_guess_is_recorded() {
    let mut g = Game::new(source(), 0);
    type_word(&mut g, "erase");
    let e = g.submit().unwrap();
    assert_eq!(e.word, vec!['e', 'r', 'a', 's', 'e']);
    assert_eq!(
        e.hints,
        vec![LetterHint::Present, LetterHint::Absent, LetterHint::Absent, LetterHint::Present, LetterHint::Present]
    );
    assert_eq!(g.guess_count(), 1);
    assert!(g.current_guess().is_empty());
    assert_eq!(g.hint_for('e'), Some(LetterHint::Present));
    assert_eq!(g.hint_for('r'), Some(LetterHint::Absent));
    assert_eq!(g.hint_for('p'), None);
    assert_eq!(g.hint_for('#'), None);
    let snapshot = g.letter_knowledge();
    assert_eq!(wordle::hint_in(&snapshot, 's'), Some(LetterHint::Present));
    assert_eq!(wordle::hint_in(&snapshot, 'z'), None);
    assert_eq!(wordle::hint_in(&snapshot, 'E'), None);
    assert_eq!(wordle::hint_in(&vec![], 'a'), None);
    assert_eq!(g.status(), GameStatus::InProgress);
}

#[test]
fn exact_guess_wins() {
    let mut g = Game::new(source(), 0);
    type_word(&mut g, "speed");
    let e = g.submit().unwrap();
    assert_eq!(e.hints, vec![LetterHint::Correct; 5]);
    assert_eq!(g.status(), GameStatus::Won);
    assert_eq!(g.revealed_answer(), None);
}

#[test]
fn win_on_sixth_guess_preempts_loss() {
    let mut g = Game::new(source(), 0);
    for _ in 0..5 {
        type_word(&mut g, "crane");
        g.submit().unwrap();
    }
    type_word(&mut g, "speed");
    g.submit().unwrap();
    assert_eq!(g.status(), GameStatus::Won);
}

#[test]
fn six_misses_lose_and_reveal_answer() {
    let mut g = Game::new(source(), 0);
    for i in 0..6 {
        assert_eq!(g.status(), GameStatus::InProgress);
        type_word(&mut g, if i % 2 == 0 { "crane" } else { "plumb" });
        g.submit().unwrap();
    }
    assert_eq!(g.guess_count(), 6);
    assert_eq!(g.status(), GameStatus::Lost);
    assert_eq!(g.revealed_answer(), Some(vec!['s', 'p', 'e', 'e', 'd']));
}

#[test]
fn finished_game_ignores_everything() {
    let mut g = Game::new(source(), 0);
    type_word(&mut g, "speed");
    g.submit().unwrap();
    assert!(!g.append('a'));
    assert!(!g.remove_last());
    assert_eq!(g.submit().unwrap_err(), GuessError::GameOver);
    assert!(matches!(g.press(Key::Letter('a')), PressOutcome::Ignored));
    assert!(matches!(g.press(Key::Enter), PressOutcome::Ignored));
    assert!(matches!(g.press(Key::Backspace), PressOutcome::Ignored));
    assert_eq!(g.guess_count(), 1);
    assert!(g.current_guess().is_empty());
    assert_eq!(g.status(), GameStatus::Won);
}

#[test]
fn knowledge_never_regresses() {
    let mut g = Game::new(source(), 0);
    let mut before = g.letter_knowledge();
    for w in ["eerie", "erase", "level", "speed"] {
        type_word(&mut g, w);
        g.submit().unwrap();
        let after = g.letter_knowledge();
        for t in 0..26 {
            assert!(rank(before[t]) <= rank(after[t]));
        }
        before = after;
    }
    assert_eq!(g.hint_for('e'), Some(LetterHint::Correct));
    assert_eq!(g.hint_for('s'), Some(LetterHint::Correct));
    assert_eq!(g.hint_for('l'), Some(LetterHint::Absent));
}

#[test]
fn knowledge_upgrades_step_by_step() {
    let mut g = Game::new(source(), 0);
    type_word(&mut g, "tight");
    g.submit().unwrap();
    assert_eq!(g.hint_for('t'), Some(LetterHint::Absent));
    type_word(&mut g, "plumb");
    g.submit().unwrap();
    assert_eq!(g.hint_for('p'), Some(LetterHint::Present));
    type_word(&mut g, "speed");
    g.submit().unwrap();
    assert_eq!(g.hint_for('p'), Some(LetterHint::Correct));
}

#[test]
fn press_dispatches_keys() {
    let mut g = Game::new(source(), 0);
    assert!(matches!(g.press(Key::Backspace), PressOutcome::Ignored));
    assert!(matches!(g.press(Key::Letter('s')), PressOutcome::Edited));
    assert!(matches!(g.press(Key::Letter('S')), PressOutcome::Ignored));
    assert!(matches!(g.press(Key::Enter), PressOutcome::Rejected(GuessError::IncompleteGuess)));
    for c in ['p', 'e', 'e', 'd'] {
        assert!(matches!(g.press(Key::Letter(c)), PressOutcome::Edited));
    }
    assert!(matches!(g.press(Key::Letter('x')), PressOutcome::Ignored));
    match g.press(Key::Enter) {
        PressOutcome::Accepted(e) => assert_eq!(e.hints, vec![LetterHint::Correct; 5]),
        other => panic!("unexpected {:?}", other),
    }
    assert_eq!(g.status(), GameStatus::Won);
}

#[test]
fn board_rows_show_history_and_buffer() {
    let mut g = Game::new(source(), 0);
    type_word(&mut g, "erase");
    g.submit().unwrap();
    type_word(&mut g, "sp");
    let rows = g.current_rows();
    assert_eq!(rows.len(), 6);
    assert!(rows.iter().all(|r| r.len() == 5));
    assert_eq!(rows[0][0].letter, 'e');
    assert_eq!(rows[0][0].state, TileState::Hint(LetterHint::Present));
    assert_eq!(rows[0][1].state, TileState::Hint(LetterHint::Absent));
    assert_eq!(rows[1][0].letter, 's');
    assert_eq!(rows[1][1].letter, 'p');
    assert_eq!(rows[1][2].letter, ' ');
    assert_eq!(rows[1][0].state, TileState::Initial);
    assert_eq!(rows[5][4].letter, ' ');
    assert_eq!(rows[0][0].state.class_name(), "Present");
    assert_eq!(rows[1][0].state.class_name(), "Initial");
}
