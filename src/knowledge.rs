//! Aggregate letter knowledge: for each letter, the best hint seen so far.

use vstd::prelude::*;
use crate::hint::{is_letter, is_word, letter_index, rank, LetterHint, WORD_LEN};

verus! {

/// Number of letters in the alphabet.
pub const ALPHABET_LEN: usize = 26;

/// Rank of a recorded hint; an unset entry ranks below every hint.
pub open spec fn opt_rank(o: Option<LetterHint>) -> int {
    match o {
        None => 0,
        Some(h) => rank(h),
    }
}

/// Merges one observed hint into a recorded entry: the entry only ever moves up.
pub open spec fn merge_hint(o: Option<LetterHint>, h: LetterHint) -> Option<LetterHint> {
    match o {
        None => Some(h),
        Some(p) => if rank(h) > rank(p) {
            Some(h)
        } else {
            Some(p)
        },
    }
}

/// Knowledge after merging the first `n` (letter, hint) pairs of a row.
pub open spec fn merge_row(
    k: Seq<Option<LetterHint>>,
    w: Seq<char>,
    hs: Seq<LetterHint>,
    n: int,
) -> Seq<Option<LetterHint>>
    decreases n,
{
    if n <= 0 {
        k
    } else {
        let prev = merge_row(k, w, hs, n - 1);
        let t = letter_index(w[n - 1]);
        prev.update(t, merge_hint(prev[t], hs[n - 1]))
    }
}

/// Knowledge before any guess: no letter has a hint.
pub open spec fn empty_knowledge() -> Seq<Option<LetterHint>> {
    Seq::new(ALPHABET_LEN as nat, |t: int| None)
}

/// Knowledge after a history of evaluated guesses, merged in order.
pub open spec fn knowledge_of(h: Seq<(Seq<char>, Seq<LetterHint>)>) -> Seq<Option<LetterHint>>
    decreases h.len(),
{
    if h.len() == 0 {
        empty_knowledge()
    } else {
        merge_row(knowledge_of(h.drop_last()), h.last().0, h.last().1, WORD_LEN as int)
    }
}

/// Every entry of a history is a word.
pub open spec fn history_words(h: Seq<(Seq<char>, Seq<LetterHint>)>) -> bool {
    forall|i: int| 0 <= i < h.len() ==> is_word(#[trigger] h[i].0) && h[i].1.len() == WORD_LEN
}

/// Merging a row keeps the length of the knowledge and never lowers an entry.
pub proof fn lemma_merge_row_monotonic(
    k: Seq<Option<LetterHint>>,
    w: Seq<char>,
    hs: Seq<LetterHint>,
    n: int,
)
    requires
        k.len() == ALPHABET_LEN,
        is_word(w),
        hs.len() == WORD_LEN,
        0 <= n <= WORD_LEN,
    ensures
        merge_row(k, w, hs, n).len() == ALPHABET_LEN,
        forall|t: int|
            0 <= t < ALPHABET_LEN ==> opt_rank(k[t]) <= opt_rank(#[trigger] merge_row(k, w, hs, n)[t]),
    decreases n,
{
    if n > 0 {
        lemma_merge_row_monotonic(k, w, hs, n - 1);
        assert(is_letter(w[n - 1]));
    }
}

proof fn lemma_knowledge_len(h: Seq<(Seq<char>, Seq<LetterHint>)>)
    requires
        history_words(h),
    ensures
        knowledge_of(h).len() == ALPHABET_LEN,
    decreases h.len(),
{
    if h.len() > 0 {
        assert(history_words(h.drop_last()));
        lemma_knowledge_len(h.drop_last());
        assert(is_word(h.last().0));
        lemma_merge_row_monotonic(knowledge_of(h.drop_last()), h.last().0, h.last().1, WORD_LEN as int);
    }
}

/// Letter knowledge never regresses: along any history of accepted guesses,
/// the entry of each letter after the first `m` guesses ranks no higher than
/// its entry after all of them.
pub proof fn lemma_knowledge_monotonic(h: Seq<(Seq<char>, Seq<LetterHint>)>, m: int, t: int)
    requires
        history_words(h),
        0 <= m <= h.len(),
        0 <= t < ALPHABET_LEN,
    ensures
        knowledge_of(h).len() == ALPHABET_LEN,
        opt_rank(knowledge_of(h.subrange(0, m))[t]) <= opt_rank(knowledge_of(h)[t]),
    decreases h.len() - m,
{
    lemma_knowledge_len(h);
    if m < h.len() {
        assert(h.drop_last().subrange(0, m) =~= h.subrange(0, m));
        assert(history_words(h.drop_last()));
        lemma_knowledge_monotonic(h.drop_last(), m, t);
        lemma_knowledge_len(h.drop_last());
        assert(is_word(h.last().0));
        lemma_merge_row_monotonic(knowledge_of(h.drop_last()), h.last().0, h.last().1, WORD_LEN as int);
    } else {
        assert(h.subrange(0, m) =~= h);
    }
}

/// Knowledge with no letter set.
pub fn new_knowledge() -> (r: Vec<Option<LetterHint>>)
    ensures
        r@ == empty_knowledge(),
{
    let mut r: Vec<Option<LetterHint>> = Vec::new();
    let mut t: usize = 0;
    while t < ALPHABET_LEN
        invariant
            t <= ALPHABET_LEN,
            r@ == Seq::new(t as nat, |u: int| None::<LetterHint>),
        decreases ALPHABET_LEN - t,
    {
        r.push(None);
        assert(r@ =~= Seq::new((t + 1) as nat, |u: int| None::<LetterHint>));
        t = t + 1;
    }
    assert(r@ =~= empty_knowledge());
    r
}

/// Merges a row of (letter, hint) pairs into the knowledge, upgrade only.
pub fn merge_into(k: &mut Vec<Option<LetterHint>>, w: &Vec<char>, hs: &Vec<LetterHint>)
    requires
        old(k)@.len() == ALPHABET_LEN,
        is_word(w@),
        hs@.len() == WORD_LEN,
    ensures
        final(k)@ == merge_row(old(k)@, w@, hs@, WORD_LEN as int),
{
    let mut i: usize = 0;
    while i < WORD_LEN
        invariant
            i <= WORD_LEN,
            is_word(w@),
            hs@.len() == WORD_LEN,
            old(k)@.len() == ALPHABET_LEN,
            k@ == merge_row(old(k)@, w@, hs@, i as int),
        decreases WORD_LEN - i,
    {
        proof {
            lemma_merge_row_monotonic(old(k)@, w@, hs@, i as int);
            assert(is_letter(w@[i as int]));
        }
        let t = (w[i] as u32 - 'a' as u32) as usize;
        let h = hs[i];
        let merged = match k[t] {
            None => Some(h),
            Some(p) => if hint_rank(h) > hint_rank(p) {
                Some(h)
            } else {
                Some(p)
            },
        };
        k.set(t, merged);
        i = i + 1;
    }
}

/// The entry of letter `c` in a knowledge snapshot; `None` for a character
/// that is no letter or has no entry.
pub fn hint_in(k: &Vec<Option<LetterHint>>, c: char) -> (r: Option<LetterHint>)
    ensures
        is_letter(c) && letter_index(c) < k@.len() ==> r == k@[letter_index(c)],
        !(is_letter(c) && letter_index(c) < k@.len()) ==> r is None,
{
    if 'a' <= c && c <= 'z' {
        let t = (c as u32 - 'a' as u32) as usize;
        if t < k.len() {
            return k[t];
        }
    }
    None
}

/// Rank of a hint, as a number.
pub fn hint_rank(h: LetterHint) -> (r: u8)
    ensures
        r as int == rank(h),
{
    match h {
        LetterHint::Absent => 1,
        LetterHint::Present => 2,
        LetterHint::Correct => 3,
    }
}

} // verus!
