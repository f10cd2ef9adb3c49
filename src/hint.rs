//! Letters, hints, and the two-pass evaluation of a guess against an answer.

use vstd::prelude::*;

verus! {

/// Number of letters in a word.
pub const WORD_LEN: usize = 5;

/// The classification of one letter position of a submitted guess.
#[derive(Clone, Copy, Debug, PartialEq, Eq, Structural)]
pub enum LetterHint {
    Correct,
    Present,
    Absent,
}

impl LetterHint {
    /// The style class of the hint: its name.
    pub fn class_name(&self) -> (r: &'static str)
        ensures
            r@ == hint_class(*self),
    {
        match self {
            LetterHint::Correct => "Correct",
            LetterHint::Present => "Present",
            LetterHint::Absent => "Absent",
        }
    }
}

/// The style class of a hint.
pub open spec fn hint_class(h: LetterHint) -> Seq<char> {
    match h {
        LetterHint::Correct => "Correct"@,
        LetterHint::Present => "Present"@,
        LetterHint::Absent => "Absent"@,
    }
}

/// A lowercase letter `a` to `z`.
pub open spec fn is_letter(c: char) -> bool {
    'a' <= c && c <= 'z'
}

/// A word: exactly five lowercase letters.
pub open spec fn is_word(w: Seq<char>) -> bool {
    w.len() == WORD_LEN && forall|i: int| 0 <= i < w.len() ==> is_letter(#[trigger] w[i])
}

/// Position of a letter in the alphabet.
pub open spec fn letter_index(c: char) -> int {
    c as int - 'a' as int
}

/// How good a hint is: `Absent` < `Present` < `Correct`.
pub open spec fn rank(h: LetterHint) -> int {
    match h {
        LetterHint::Absent => 1,
        LetterHint::Present => 2,
        LetterHint::Correct => 3,
    }
}

/// Number of positions `k < n` where `w` holds `c`.
pub open spec fn count_in(w: Seq<char>, c: char, n: int) -> nat
    decreases n,
{
    if n <= 0 {
        0
    } else {
        count_in(w, c, n - 1) + if w[n - 1] == c { 1nat } else { 0nat }
    }
}

/// Number of positions `k < n` where guess and answer both hold `c`.
pub open spec fn exact_in(a: Seq<char>, g: Seq<char>, c: char, n: int) -> nat
    decreases n,
{
    if n <= 0 {
        0
    } else {
        exact_in(a, g, c, n - 1) + if a[n - 1] == c && g[n - 1] == c { 1nat } else { 0nat }
    }
}

/// Number of positions `k < n` where the answer holds `c` and the guess does not
/// match it: the answer's copies of `c` left for `Present` hints.
pub open spec fn unmatched_in(a: Seq<char>, g: Seq<char>, c: char, n: int) -> nat
    decreases n,
{
    if n <= 0 {
        0
    } else {
        unmatched_in(a, g, c, n - 1) + if a[n - 1] == c && g[n - 1] != c { 1nat } else { 0nat }
    }
}

/// Number of positions `j < n` where the guess holds `c` and does not match
/// the answer: the guess's copies of `c` that compete for `Present` hints.
pub open spec fn pending_in(a: Seq<char>, g: Seq<char>, c: char, n: int) -> nat
    decreases n,
{
    if n <= 0 {
        0
    } else {
        pending_in(a, g, c, n - 1) + if g[n - 1] == c && a[n - 1] != c { 1nat } else { 0nat }
    }
}

/// The hint of position `i`: `Correct` on an exact match; otherwise `Present`
/// while unmatched copies of the letter remain in the answer after the
/// earlier unmatched positions of the guess took theirs; else `Absent`.
pub open spec fn hint_at(a: Seq<char>, g: Seq<char>, i: int) -> LetterHint {
    if g[i] == a[i] {
        LetterHint::Correct
    } else if pending_in(a, g, g[i], i) < unmatched_in(a, g, g[i], WORD_LEN as int) {
        LetterHint::Present
    } else {
        LetterHint::Absent
    }
}

/// The hints of a whole guess.
pub open spec fn hints_of(a: Seq<char>, g: Seq<char>) -> Seq<LetterHint> {
    Seq::new(WORD_LEN as nat, |i: int| hint_at(a, g, i))
}

proof fn lemma_count_split(a: Seq<char>, g: Seq<char>, c: char, n: int)
    requires
        0 <= n <= a.len(),
        n <= g.len(),
    ensures
        count_in(a, c, n) == exact_in(a, g, c, n) + unmatched_in(a, g, c, n),
    decreases n,
{
    if n > 0 {
        lemma_count_split(a, g, c, n - 1);
    }
}

fn letter_slot(c: char) -> (r: usize)
    requires
        is_letter(c),
    ensures
        r as int == letter_index(c),
        r < 26,
{
    (c as u32 - 'a' as u32) as usize
}

/// Evaluates `guess` against `answer` in two passes. The first marks exact
/// matches `Correct` and takes them out of a per-letter tally of the answer's
/// letters; the second marks each other position `Present` while the tally of
/// its letter is positive, taking one from it, and `Absent` otherwise.
pub fn evaluate(answer: &Vec<char>, guess: &Vec<char>) -> (r: Vec<LetterHint>)
    requires
        is_word(answer@),
        is_word(guess@),
    ensures
        r@ == hints_of(answer@, guess@),
{
    let ghost a = answer@;
    let ghost g = guess@;
    let mut tally: Vec<u8> = Vec::new();
    let mut t: usize = 0;
    while t < 26
        invariant
            t <= 26,
            tally@.len() == t,
            forall|k: int| 0 <= k < t ==> tally@[k] == 0,
        decreases 26 - t,
    {
        tally.push(0);
        t = t + 1;
    }
    let mut i: usize = 0;
    while i < WORD_LEN
        invariant
            i <= WORD_LEN,
            is_word(a),
            a == answer@,
            tally@.len() == 26,
            forall|c: char| is_letter(c) ==> #[trigger] tally@[letter_index(c)] == count_in(a, c, i as int),
        decreases WORD_LEN - i,
    {
        let s = letter_slot(answer[i]);
        proof {
            lemma_count_bound(a, answer[i as int], i as int);
            assert forall|c: char| is_letter(c) implies #[trigger] tally@[letter_index(c)] + (if a[i as int] == c { 1int } else { 0int }) == count_in(a, c, i + 1) by {}
        }
        tally.set(s, tally[s] + 1);
        i = i + 1;
    }
    let mut hints: Vec<LetterHint> = Vec::new();
    i = 0;
    while i < WORD_LEN
        invariant
            i <= WORD_LEN,
            is_word(a),
            is_word(g),
            a == answer@,
            g == guess@,
            tally@.len() == 26,
            hints@.len() == i,
            forall|k: int| 0 <= k < i ==> (#[trigger] hints@[k] == LetterHint::Correct) == (g[k] == a[k]),
            forall|c: char| is_letter(c) ==> #[trigger] tally@[letter_index(c)] + exact_in(a, g, c, i as int) == count_in(a, c, WORD_LEN as int),
        decreases WORD_LEN - i,
    {
        if guess[i] == answer[i] {
            let s = letter_slot(answer[i]);
            proof {
                assert(tally@[letter_index(a[i as int])] > 0) by {
                    lemma_count_split(a, g, a[i as int], WORD_LEN as int);
                    lemma_exact_grows(a, g, a[i as int], i as int);
                }
            }
            tally.set(s, tally[s] - 1);
            hints.push(LetterHint::Correct);
        } else {
            hints.push(LetterHint::Absent);
        }
        i = i + 1;
    }
    proof {
        assert forall|c: char| is_letter(c) implies #[trigger] tally@[letter_index(c)] == unmatched_in(a, g, c, WORD_LEN as int) by {
            lemma_count_split(a, g, c, WORD_LEN as int);
        }
    }
    i = 0;
    while i < WORD_LEN
        invariant
            i <= WORD_LEN,
            is_word(a),
            is_word(g),
            a == answer@,
            g == guess@,
            tally@.len() == 26,
            hints@.len() == WORD_LEN,
            forall|k: int| 0 <= k < i ==> #[trigger] hints@[k] == hint_at(a, g, k),
            forall|k: int| i <= k < WORD_LEN ==> (#[trigger] hints@[k] == LetterHint::Correct) == (g[k] == a[k]),
            forall|c: char| is_letter(c) ==> #[trigger] tally@[letter_index(c)] + min_nat(pending_in(a, g, c, i as int), unmatched_in(a, g, c, WORD_LEN as int)) == unmatched_in(a, g, c, WORD_LEN as int),
        decreases WORD_LEN - i,
    {
        if guess[i] != answer[i] {
            let s = letter_slot(guess[i]);
            if tally[s] > 0 {
                tally.set(s, tally[s] - 1);
                hints.set(i, LetterHint::Present);
            } else {
                hints.set(i, LetterHint::Absent);
            }
        }
        i = i + 1;
    }
    proof {
        assert(hints@ =~= hints_of(a, g));
    }
    hints
}

proof fn lemma_count_bound(w: Seq<char>, c: char, n: int)
    requires
        0 <= n <= w.len(),
    ensures
        count_in(w, c, n) <= n,
    decreases n,
{
    if n > 0 {
        lemma_count_bound(w, c, n - 1);
    }
}

/// Number of positions `i < n` where the guess holds `c` with a hint other
/// than `Absent`: the credit the guess's copies of `c` receive.
pub open spec fn credits_in(a: Seq<char>, g: Seq<char>, c: char, n: int) -> nat
    decreases n,
{
    if n <= 0 {
        0
    } else {
        credits_in(a, g, c, n - 1) + if g[n - 1] == c && hint_at(a, g, n - 1) != LetterHint::Absent {
            1nat
        } else {
            0nat
        }
    }
}

proof fn lemma_credits_closed_form(a: Seq<char>, g: Seq<char>, c: char, n: int)
    requires
        a.len() == WORD_LEN,
        g.len() == WORD_LEN,
        0 <= n <= WORD_LEN,
    ensures
        credits_in(a, g, c, n) == exact_in(a, g, c, n) + min_nat(
            pending_in(a, g, c, n),
            unmatched_in(a, g, c, WORD_LEN as int),
        ),
    decreases n,
{
    if n > 0 {
        lemma_credits_closed_form(a, g, c, n - 1);
    }
}

/// Over all positions, the letter `c` is credited `Correct` or `Present` no
/// more often than it occurs in the answer.
pub proof fn lemma_credits_bounded(a: Seq<char>, g: Seq<char>, c: char)
    requires
        is_word(a),
        is_word(g),
    ensures
        credits_in(a, g, c, WORD_LEN as int) <= count_in(a, c, WORD_LEN as int),
{
    lemma_credits_closed_form(a, g, c, WORD_LEN as int);
    lemma_count_split(a, g, c, WORD_LEN as int);
}

/// A guess equal to the answer is `Correct` at every position.
pub proof fn lemma_exact_guess_all_correct(a: Seq<char>)
    requires
        is_word(a),
    ensures
        hints_of(a, a) == Seq::new(WORD_LEN as nat, |i: int| LetterHint::Correct),
{
    assert(hints_of(a, a) =~= Seq::new(WORD_LEN as nat, |i: int| LetterHint::Correct));
}

spec fn min_nat(x: nat, y: nat) -> nat {
    if x < y { x } else { y }
}

proof fn lemma_exact_grows(a: Seq<char>, g: Seq<char>, c: char, i: int)
    requires
        0 <= i < a.len(),
        a.len() == g.len(),
        a[i] == c,
        g[i] == c,
    ensures
        exact_in(a, g, c, i) < exact_in(a, g, c, a.len() as int),
    decreases a.len() - i,
{
    lemma_exact_mono(a, g, c, i + 1, a.len() as int);
}

proof fn lemma_exact_mono(a: Seq<char>, g: Seq<char>, c: char, m: int, n: int)
    requires
        0 <= m <= n <= a.len(),
        n <= g.len(),
    ensures
        exact_in(a, g, c, m) <= exact_in(a, g, c, n),
    decreases n - m,
{
    if m < n {
        lemma_exact_mono(a, g, c, m, n - 1);
    }
}

} // verus!
