use wordle::{evaluate, parse_word, LetterHint};
use wordle::LetterHint::{Absent, Correct, Present};

fn word(s: &str) -> Vec<char> {
    parse_word(s).expect("a five-letter lowercase word")
}

fn credits(answer: &str, guess: &str, c: char) -> usize {
    let g = word(guess);
    let hints = evaluate(&word(answer), &g);
    (0..5).filter(|&i| g[i] == c && hints[i] != Absent).count()
}

#[test]
fn repeated_letters_speed_erase() {
    assert_eq!(
        evaluate(&word("speed"), &word("erase")),
        vec![Present, Absent, Absent, Present, Present]
    );
}

#[test]
fn single_e_answer_against_all_e_guess() {
    assert_eq!(
        evaluate(&word("abcde"), &word("eeeee")),
        vec![Absent, Absent, Absent, Absent, Correct]
    );
    assert_eq!(credits("abcde", "eeeee", 'e'), 1);
}

#[test]
fn exact_guess_is_all_correct() {
    assert_eq!(evaluate(&word("crane"), &word("crane")), vec![Correct; 5]);
}

#[test]
fn present_prefers_earlier_positions() {
    // The answer's two 'e's go to the first two unmatched 'e's of the guess.
    assert_eq!(
        evaluate(&word("bleed"), &word("eerie")),
        vec![Present, Present, Absent, Absent, Absent]
    );
    assert_eq!(
        evaluate(&word("abbey"), &word("keeps")),
        vec![Absent, Present, Absent, Absent, Absent]
    );
}

#[test]
fn credits_never_exceed_answer_count() {
    let words = ["speed", "erase", "eerie", "geese", "abcde", "eeeee", "level", "sissy"];
    for a in words {
        for g in words {
            for c in 'a'..='z' {
                let in_answer = a.chars().filter(|&x| x == c).count();
                assert!(credits(a, g, c) <= in_answer, "{} {} {}", a, g, c);
            }
        }
    }
}

#[test]
fn parse_word_accepts_only_lowercase_five_letters() {
    assert_eq!(parse_word("cigar"), Some(vec!['c', 'i', 'g', 'a', 'r']));
    assert_eq!(parse_word("Cigar"), None);
    assert_eq!(parse_word("cig"), None);
    assert_eq!(parse_word("cigars"), None);
    assert_eq!(parse_word("ci9ar"), None);
    assert_eq!(parse_word(""), None);
}

#[test]
fn hint_class_names() {
    assert_eq!(LetterHint::Correct.class_name(), "Correct");
    assert_eq!(LetterHint::Present.class_name(), "Present");
    assert_eq!(LetterHint::Absent.class_name(), "Absent");
}
