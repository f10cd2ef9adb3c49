use wordle::{answer_list, guess_list, CalendarDate, Key, TransientFlag, WordSource};

#[test]
fn word_source_rejects_bad_lists() {
    assert!(WordSource::new(&vec![], &vec!["erase"]).is_none());
    assert!(WordSource::new(&vec!["speed", "Speed"], &vec![]).is_none());
    assert!(WordSource::new(&vec!["speed"], &vec!["era"]).is_none());
    assert!(WordSource::new(&vec!["speed"], &vec![]).is_some());
}

#[test]
fn standard_lists_are_well_formed() {
    let ws = WordSource::new(&answer_list(), &guess_list()).expect("built-in lists");
    assert_eq!(WordSource::standard().answer_for(3), ws.answer_for(3));
    let a = ws.answer_for(0);
    assert!(ws.is_valid_guess(&a));
    assert!(ws.is_valid_guess(&vec!['e', 'r', 'a', 's', 'e']));
    assert!(!ws.is_valid_guess(&vec!['z', 'z', 'z', 'z', 'q']));
}

#[test]
fn answer_for_is_deterministic_and_cycles() {
    let ws = WordSource::new(&vec!["cigar", "rebut", "sissy"], &vec!["erase"]).unwrap();
    assert_eq!(ws.answer_for(7), ws.answer_for(7));
    assert_eq!(ws.answer_for(0), vec!['c', 'i', 'g', 'a', 'r']);
    assert_eq!(ws.answer_for(1), vec!['r', 'e', 'b', 'u', 't']);
    assert_eq!(ws.answer_for(5), vec!['s', 'i', 's', 's', 'y']);
    assert_eq!(ws.answer_for(4), ws.answer_for(1));
    assert_eq!(ws.answer_for(u64::MAX), ws.answer_for(u64::MAX % 3));
}

#[test]
fn valid_guesses_include_answers_and_extras() {
    let ws = WordSource::new(&vec!["speed"], &vec!["erase"]).unwrap();
    assert!(ws.is_valid_guess(&vec!['s', 'p', 'e', 'e', 'd']));
    assert!(ws.is_valid_guess(&vec!['e', 'r', 'a', 's', 'e']));
    assert!(!ws.is_valid_guess(&vec!['e', 'r', 'a', 's', 'r']));
    assert!(!ws.is_valid_guess(&vec!['e', 'r', 'a', 's']));
}

#[test]
fn day_numbers_count_from_year_one() {
    assert_eq!(CalendarDate::new(1, 1, 1).unwrap().day_number(), 0);
    assert_eq!(CalendarDate::new(1, 3, 1).unwrap().day_number(), 59);
    assert_eq!(CalendarDate::new(1970, 1, 1).unwrap().day_number(), 719162);
    assert_eq!(CalendarDate::new(1970, 3, 1).unwrap().day_number(), 719221);
    assert_eq!(CalendarDate::new(2000, 1, 1).unwrap().day_number(), 730119);
    assert_eq!(CalendarDate::new(2021, 6, 19).unwrap().day_number(), 737959);
    assert_eq!(CalendarDate::new(2024, 3, 1).unwrap().day_number(), 738945);
    assert_eq!(CalendarDate::new(9999, 12, 31).unwrap().day_number(), 3652058);
}

#[test]
fn invalid_dates_are_refused() {
    assert!(CalendarDate::new(2023, 2, 29).is_none());
    assert!(CalendarDate::new(2024, 2, 29).is_some());
    assert!(CalendarDate::new(1900, 2, 29).is_none());
    assert!(CalendarDate::new(0, 1, 1).is_none());
    assert!(CalendarDate::new(10000, 1, 1).is_none());
    assert!(CalendarDate::new(1900, 2, 28).is_some());
    assert!(CalendarDate::new(2000, 2, 29).is_some());
    assert!(CalendarDate::new(2021, 4, 31).is_none());
    assert!(CalendarDate::new(2021, 13, 1).is_none());
    assert!(CalendarDate::new(2021, 1, 0).is_none());
}

#[test]
fn key_names() {
    assert_eq!(Key::parse("a"), Ok(Key::Letter('a')));
    assert_eq!(Key::parse("z"), Ok(Key::Letter('z')));
    assert_eq!(Key::parse("Enter"), Ok(Key::Enter));
    assert_eq!(Key::parse("Backspace"), Ok(Key::Backspace));
    assert_eq!(Key::parse("A"), Err(()));
    assert_eq!(Key::parse("Shift"), Err(()));
    assert_eq!(Key::parse("ab"), Err(()));
    assert_eq!(Key::parse(""), Err(()));
    assert_eq!("q".parse::<Key>(), Ok(Key::Letter('q')));
    assert_eq!(Key::Letter('q').label(), "q");
    assert_eq!(Key::Enter.label(), "Enter");
    assert_eq!(Key::Backspace.label(), "Backspace");
    assert_eq!("A".parse::<Key>(), Err(()));
    assert_eq!("".parse::<Key>(), Err(()));
    assert_eq!("Shift".parse::<Key>(), Err(()));
    for k in [Key::Letter('a'), Key::Letter('z'), Key::Enter, Key::Backspace] {
        assert_eq!(k.label().parse::<Key>(), Ok(k));
    }
}

#[test]
fn stale_feedback_token_is_ignored() {
    let mut f = TransientFlag::new();
    assert!(!f.active);
    let first = f.raise();
    let second = f.raise();
    assert_ne!(first, second);
    assert!(!f.expire(first));
    assert!(f.active);
    assert!(f.expire(second));
    assert!(!f.active);
    assert!(!f.expire(second));
}
