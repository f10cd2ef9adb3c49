//! The word source: the answer list, the valid-guess list, and the choice of
//! the answer of a given day.

use vstd::prelude::*;
use vstd::string::StrSliceExecFns;
use crate::hint::{is_letter, is_word, WORD_LEN};

verus! {

/// The words of a list, as sequences of characters.
pub open spec fn words_of(l: Seq<&str>) -> Seq<Seq<char>> {
    l.map_values(|s: &str| s@)
}

/// The words of a list of character vectors.
pub open spec fn words_view(l: Seq<Vec<char>>) -> Seq<Seq<char>> {
    l.map_values(|w: Vec<char>| w@)
}

/// Every entry of the list is a word.
pub open spec fn all_words(l: Seq<Seq<char>>) -> bool {
    forall|i: int| 0 <= i < l.len() ==> is_word(#[trigger] l[i])
}

/// Reads a word from text: `Some` exactly when the text is five lowercase letters.
pub fn parse_word(s: &str) -> (r: Option<Vec<char>>)
    ensures
        r matches Some(w) ==> w@ == s@,
        r is Some <==> is_word(s@),
{
    let n = s.unicode_len();
    if n != WORD_LEN {
        return None;
    }
    let mut w: Vec<char> = Vec::new();
    let mut i: usize = 0;
    while i < n
        invariant
            n == s@.len(),
            i <= n,
            w@ == s@.subrange(0, i as int),
            forall|k: int| 0 <= k < i ==> is_letter(#[trigger] s@[k]),
        decreases n - i,
    {
        let c = s.get_char(i);
        if !('a' <= c && c <= 'z') {
            return None;
        }
        w.push(c);
        i = i + 1;
    }
    assert(w@ =~= s@);
    Some(w)
}

/// Reads every entry of a list; `None` when one is not a word.
fn parse_list(l: &Vec<&str>) -> (r: Option<Vec<Vec<char>>>)
    ensures
        r matches Some(v) ==> words_view(v@) == words_of(l@),
        r is Some <==> all_words(words_of(l@)),
{
    let mut v: Vec<Vec<char>> = Vec::new();
    let mut i: usize = 0;
    while i < l.len()
        invariant
            i <= l@.len(),
            words_view(v@) == words_of(l@).subrange(0, i as int),
            all_words(words_view(v@)),
        decreases l@.len() - i,
    {
        match parse_word(l[i]) {
            Some(w) => {
                let ghost old_v = v@;
                let ghost wv = w@;
                v.push(w);
                assert(v@ == old_v.push(w));
                assert(words_view(v@) =~= words_view(old_v).push(wv));
                assert(words_of(l@).subrange(0, i + 1) =~= words_of(l@).subrange(0, i as int).push(wv));
                assert(words_view(v@) =~= words_of(l@).subrange(0, i + 1));
            },
            None => {
                assert(!is_word(words_of(l@)[i as int]));
                return None;
            },
        }
        i = i + 1;
    }
    assert(words_view(v@) =~= words_of(l@));
    Some(v)
}

/// A copy of a word.
pub fn copy_word(w: &Vec<char>) -> (r: Vec<char>)
    ensures
        r@ == w@,
{
    let mut r: Vec<char> = Vec::new();
    let mut i: usize = 0;
    while i < w.len()
        invariant
            i <= w@.len(),
            r@ == w@.subrange(0, i as int),
        decreases w@.len() - i,
    {
        r.push(w[i]);
        i = i + 1;
    }
    assert(r@ =~= w@);
    r
}

/// Whether two words are equal, letter by letter.
fn same_word(x: &Vec<char>, y: &Vec<char>) -> (r: bool)
    ensures
        r == (x@ == y@),
{
    if x.len() != y.len() {
        return false;
    }
    let mut i: usize = 0;
    while i < x.len()
        invariant
            x@.len() == y@.len(),
            i <= x@.len(),
            x@.subrange(0, i as int) == y@.subrange(0, i as int),
        decreases x@.len() - i,
    {
        if x[i] != y[i] {
            assert(x@[i as int] != y@[i as int]);
            return false;
        }
        assert(x@.subrange(0, i + 1) =~= x@.subrange(0, i as int).push(x@[i as int]));
        assert(y@.subrange(0, i + 1) =~= y@.subrange(0, i as int).push(y@[i as int]));
        i = i + 1;
    }
    assert(x@ =~= x@.subrange(0, i as int));
    assert(y@ =~= y@.subrange(0, i as int));
    true
}

/// The dictionaries of the game: a non-empty list of answers and the list of
/// words accepted as guesses, which holds every answer.
pub struct WordSource {
    answers: Vec<Vec<char>>,
    valid: Vec<Vec<char>>,
}

impl WordSource {
    /// The words that may be the answer.
    pub closed spec fn answer_words(&self) -> Seq<Seq<char>> {
        words_view(self.answers@)
    }

    /// The words accepted as guesses.
    pub closed spec fn valid_words(&self) -> Seq<Seq<char>> {
        words_view(self.valid@)
    }

    /// The lists hold words only, there is an answer, and every answer is a
    /// valid guess.
    pub open spec fn wf(&self) -> bool {
        &&& self.answer_words().len() > 0
        &&& all_words(self.answer_words())
        &&& all_words(self.valid_words())
        &&& forall|i: int|
            0 <= i < self.answer_words().len() ==> self.valid_words().contains(
                #[trigger] self.answer_words()[i],
            )
    }

    /// Builds a word source from answer words and further guess words; the
    /// valid guesses are the further words followed by the answers. `None`
    /// when there is no answer or an entry is not a word.
    pub fn new(answers: &Vec<&str>, extra_guesses: &Vec<&str>) -> (r: Option<WordSource>)
        ensures
            r is Some <==> (answers@.len() > 0 && all_words(words_of(answers@)) && all_words(
                words_of(extra_guesses@),
            )),
            r matches Some(ws) ==> {
                &&& ws.wf()
                &&& ws.answer_words() == words_of(answers@)
                &&& ws.valid_words() == words_of(extra_guesses@) + words_of(answers@)
            },
    {
        if answers.len() == 0 {
            return None;
        }
        let a = match parse_list(answers) {
            Some(a) => a,
            None => return None,
        };
        let mut valid = match parse_list(extra_guesses) {
            Some(v) => v,
            None => return None,
        };
        let ghost extra = words_view(valid@);
        let mut i: usize = 0;
        while i < a.len()
            invariant
                i <= a@.len(),
                words_view(a@) == words_of(answers@),
                extra == words_of(extra_guesses@),
                words_view(valid@) == extra + words_view(a@).subrange(0, i as int),
            decreases a@.len() - i,
        {
            let w = copy_word(&a[i]);
            let ghost old_v = valid@;
            let ghost wv = w@;
            valid.push(w);
            assert(words_view(valid@) =~= words_view(old_v).push(wv));
            assert(words_view(a@).subrange(0, i + 1) =~= words_view(a@).subrange(0, i as int).push(wv));
            assert(words_view(valid@) =~= extra + words_view(a@).subrange(0, i + 1));
            i = i + 1;
        }
        assert(words_view(a@).subrange(0, i as int) =~= words_view(a@));
        let ws = WordSource { answers: a, valid };
        assert forall|k: int| 0 <= k < ws.answer_words().len() implies ws.valid_words().contains(
            #[trigger] ws.answer_words()[k],
        ) by {
            assert(ws.valid_words()[extra.len() + k] == ws.answer_words()[k]);
        }
        Some(ws)
    }

    /// The answer of day number `day`: the answer list indexed by the day
    /// number modulo its length.
    pub open spec fn answer_of(&self, day: int) -> Seq<char> {
        self.answer_words()[day % self.answer_words().len() as int]
    }

    /// The built-in dictionaries: `answer_list` as the answers and
    /// `guess_list` as the further guess words.
    pub fn standard() -> (r: WordSource)
        ensures
            r.wf(),
            r.answer_words() == words_of(answer_texts()),
            r.valid_words() == words_of(guess_texts()) + words_of(answer_texts()),
    {
        let answers = answer_list();
        let guesses = guess_list();
        match WordSource::new(&answers, &guesses) {
            Some(ws) => ws,
            None => vstd::pervasive::unreached(),
        }
    }

    /// The answer of day number `day`.
    pub fn answer_for(&self, day: u64) -> (r: Vec<char>)
        requires
            self.wf(),
        ensures
            r@ == self.answer_of(day as int),
            is_word(r@),
            self.valid_words().contains(r@),
    {
        let i = (day % self.answers.len() as u64) as usize;
        let r = copy_word(&self.answers[i]);
        assert(r@ == self.answer_words()[i as int]);
        assert(self.valid_words().contains(self.answer_words()[i as int]));
        r
    }

    /// Whether a word is accepted as a guess.
    pub fn is_valid_guess(&self, w: &Vec<char>) -> (r: bool)
        ensures
            r == self.valid_words().contains(w@),
    {
        let mut i: usize = 0;
        while i < self.valid.len()
            invariant
                i <= self.valid_words().len(),
                forall|k: int| 0 <= k < i ==> self.valid_words()[k] != w@,
            decreases self.valid_words().len() - i,
        {
            if same_word(&self.valid[i], w) {
                assert(self.valid_words()[i as int] == w@);
                return true;
            }
            assert(self.valid_words()[i as int] == self.valid@[i as int]@);
            i = i + 1;
        }
        false
    }
}

/// The daily answer is a function of the day number alone, and the answers
/// repeat with the length of the answer list as period.
pub proof fn lemma_answer_of_day(ws: WordSource, d1: int, d2: int)
    requires
        ws.wf(),
        d1 >= 0,
        d2 >= 0,
    ensures
        d1 == d2 ==> ws.answer_of(d1) == ws.answer_of(d2),
        d1 % (ws.answer_words().len() as int) == d2 % (ws.answer_words().len() as int) ==> ws.answer_of(d1)
            == ws.answer_of(d2),
        ws.answer_of(d1) == ws.answer_of(d1 + ws.answer_words().len()),
        ws.answer_words().contains(ws.answer_of(d1)),
        ws.valid_words().contains(ws.answer_of(d1)),
{
    let n = ws.answer_words().len() as int;
    assert((d1 + n) % n == d1 % n) by (nonlinear_arith)
        requires n > 0, d1 >= 0;
    let i = d1 % n;
    assert(ws.answer_words()[i] == ws.answer_of(d1));
}

/// The built-in answer words.
pub open spec fn answer_texts() -> Seq<&'static str> {
    seq![
        "cigar", "rebut", "sissy", "humph", "awake", "blush", "focal", "evade", "naval", "serve",
        "heath", "dwarf", "model", "karma", "stink", "grade", "quiet", "bench", "abate", "feign",
        "major", "death", "fresh", "crust", "stool", "colon", "abase", "marry", "react", "batty",
        "pride", "floss", "helix", "croak", "staff", "paper", "unfed", "whelp", "trawl", "outdo",
        "adobe", "crazy", "sower", "repay", "digit", "crate", "cluck", "spike", "mimic", "pound",
        "maxim", "linen", "unmet", "flesh", "booby", "forth", "first", "stand", "belly", "ivory",
        "seedy", "print", "yearn", "drink", "trade", "speed", "plant", "sweet", "light", "store",
    ]
}

/// The words that may be the daily answer.
pub fn answer_list() -> (r: Vec<&'static str>)
    ensures
        r@ == answer_texts(),
        r@.len() > 0,
        all_words(words_of(r@)),
{
    let r = vec![
        "cigar", "rebut", "sissy", "humph", "awake", "blush", "focal", "evade", "naval", "serve",
        "heath", "dwarf", "model", "karma", "stink", "grade", "quiet", "bench", "abate", "feign",
        "major", "death", "fresh", "crust", "stool", "colon", "abase", "marry", "react", "batty",
        "pride", "floss", "helix", "croak", "staff", "paper", "unfed", "whelp", "trawl", "outdo",
        "adobe", "crazy", "sower", "repay", "digit", "crate", "cluck", "spike", "mimic", "pound",
        "maxim", "linen", "unmet", "flesh", "booby", "forth", "first", "stand", "belly", "ivory",
        "seedy", "print", "yearn", "drink", "trade", "speed", "plant", "sweet", "light", "store",
    ];
    proof {
        reveal_strlit("cigar");
        reveal_strlit("rebut");
        reveal_strlit("sissy");
        reveal_strlit("humph");
        reveal_strlit("awake");
        reveal_strlit("blush");
        reveal_strlit("focal");
        reveal_strlit("evade");
        reveal_strlit("naval");
        reveal_strlit("serve");
        reveal_strlit("heath");
        reveal_strlit("dwarf");
        reveal_strlit("model");
        reveal_strlit("karma");
        reveal_strlit("stink");
        reveal_strlit("grade");
        reveal_strlit("quiet");
        reveal_strlit("bench");
        reveal_strlit("abate");
        reveal_strlit("feign");
        reveal_strlit("major");
        reveal_strlit("death");
        reveal_strlit("fresh");
        reveal_strlit("crust");
        reveal_strlit("stool");
        reveal_strlit("colon");
        reveal_strlit("abase");
        reveal_strlit("marry");
        reveal_strlit("react");
        reveal_strlit("batty");
        reveal_strlit("pride");
        reveal_strlit("floss");
        reveal_strlit("helix");
        reveal_strlit("croak");
        reveal_strlit("staff");
        reveal_strlit("paper");
        reveal_strlit("unfed");
        reveal_strlit("whelp");
        reveal_strlit("trawl");
        reveal_strlit("outdo");
        reveal_strlit("adobe");
        reveal_strlit("crazy");
        reveal_strlit("sower");
        reveal_strlit("repay");
        reveal_strlit("digit");
        reveal_strlit("crate");
        reveal_strlit("cluck");
        reveal_strlit("spike");
        reveal_strlit("mimic");
        reveal_strlit("pound");
        reveal_strlit("maxim");
        reveal_strlit("linen");
        reveal_strlit("unmet");
        reveal_strlit("flesh");
        reveal_strlit("booby");
        reveal_strlit("forth");
        reveal_strlit("first");
        reveal_strlit("stand");
        reveal_strlit("belly");
        reveal_strlit("ivory");
        reveal_strlit("seedy");
        reveal_strlit("print");
        reveal_strlit("yearn");
        reveal_strlit("drink");
        reveal_strlit("trade");
        reveal_strlit("speed");
        reveal_strlit("plant");
        reveal_strlit("sweet");
        reveal_strlit("light");
        reveal_strlit("store");
        assert(all_words(words_of(r@)));
    }
    r
}

/// The built-in further guess words.
pub open spec fn guess_texts() -> Seq<&'static str> {
    seq![
        "aahed", "aalii", "aargh", "abaca", "abaci", "aback", "abaft", "abamp", "abase", "abash",
        "abate", "abaya", "abbas", "abbes", "abbey", "abbot", "abeam", "abele", "abets", "abhor",
        "abide", "abled", "abler", "ables", "abmho", "abode", "abohm", "aboil", "aboma", "aboon",
        "erase", "arise", "raise", "adieu", "audio", "stare", "crane", "slate", "trace", "roate",
        "irate", "arose", "least", "alert", "alter", "later", "saner", "snare", "tears", "rates",
        "house", "mouse", "route", "tower", "power", "lower", "water", "train", "hello", "world",
        "apple", "bread", "chair", "dance", "eagle", "fairy", "ghost", "honey", "input", "joker",
        "knife", "lemon", "mango", "night", "ocean", "piano", "queen", "radio", "snake", "tiger",
        "uncle", "voice", "whale", "xenon", "yacht", "zebra", "eerie", "geese", "exams", "level",
    ]
}

/// Words accepted as guesses besides the answers.
pub fn guess_list() -> (r: Vec<&'static str>)
    ensures
        r@ == guess_texts(),
        all_words(words_of(r@)),
{
    let r = vec![
        "aahed", "aalii", "aargh", "abaca", "abaci", "aback", "abaft", "abamp", "abase", "abash",
        "abate", "abaya", "abbas", "abbes", "abbey", "abbot", "abeam", "abele", "abets", "abhor",
        "abide", "abled", "abler", "ables", "abmho", "abode", "abohm", "aboil", "aboma", "aboon",
        "erase", "arise", "raise", "adieu", "audio", "stare", "crane", "slate", "trace", "roate",
        "irate", "arose", "least", "alert", "alter", "later", "saner", "snare", "tears", "rates",
        "house", "mouse", "route", "tower", "power", "lower", "water", "train", "hello", "world",
        "apple", "bread", "chair", "dance", "eagle", "fairy", "ghost", "honey", "input", "joker",
        "knife", "lemon", "mango", "night", "ocean", "piano", "queen", "radio", "snake", "tiger",
        "uncle", "voice", "whale", "xenon", "yacht", "zebra", "eerie", "geese", "exams", "level",
    ];
    proof {
        reveal_strlit("aahed");
        reveal_strlit("aalii");
        reveal_strlit("aargh");
        reveal_strlit("abaca");
        reveal_strlit("abaci");
        reveal_strlit("aback");
        reveal_strlit("abaft");
        reveal_strlit("abamp");
        reveal_strlit("abase");
        reveal_strlit("abash");
        reveal_strlit("abate");
        reveal_strlit("abaya");
        reveal_strlit("abbas");
        reveal_strlit("abbes");
        reveal_strlit("abbey");
        reveal_strlit("abbot");
        reveal_strlit("abeam");
        reveal_strlit("abele");
        reveal_strlit("abets");
        reveal_strlit("abhor");
        reveal_strlit("abide");
        reveal_strlit("abled");
        reveal_strlit("abler");
        reveal_strlit("ables");
        reveal_strlit("abmho");
        reveal_strlit("abode");
        reveal_strlit("abohm");
        reveal_strlit("aboil");
        reveal_strlit("aboma");
        reveal_strlit("aboon");
        reveal_strlit("erase");
        reveal_strlit("arise");
        reveal_strlit("raise");
        reveal_strlit("adieu");
        reveal_strlit("audio");
        reveal_strlit("stare");
        reveal_strlit("crane");
        reveal_strlit("slate");
        reveal_strlit("trace");
        reveal_strlit("roate");
        reveal_strlit("irate");
        reveal_strlit("arose");
        reveal_strlit("least");
        reveal_strlit("alert");
        reveal_strlit("alter");
        reveal_strlit("later");
        reveal_strlit("saner");
        reveal_strlit("snare");
        reveal_strlit("tears");
        reveal_strlit("rates");
        reveal_strlit("house");
        reveal_strlit("mouse");
        reveal_strlit("route");
        reveal_strlit("tower");
        reveal_strlit("power");
        reveal_strlit("lower");
        reveal_strlit("water");
        reveal_strlit("train");
        reveal_strlit("hello");
        reveal_strlit("world");
        reveal_strlit("apple");
        reveal_strlit("bread");
        reveal_strlit("chair");
        reveal_strlit("dance");
        reveal_strlit("eagle");
        reveal_strlit("fairy");
        reveal_strlit("ghost");
        reveal_strlit("honey");
        reveal_strlit("input");
        reveal_strlit("joker");
        reveal_strlit("knife");
        reveal_strlit("lemon");
        reveal_strlit("mango");
        reveal_strlit("night");
        reveal_strlit("ocean");
        reveal_strlit("piano");
        reveal_strlit("queen");
        reveal_strlit("radio");
        reveal_strlit("snake");
        reveal_strlit("tiger");
        reveal_strlit("uncle");
        reveal_strlit("voice");
        reveal_strlit("whale");
        reveal_strlit("xenon");
        reveal_strlit("yacht");
        reveal_strlit("zebra");
        reveal_strlit("eerie");
        reveal_strlit("geese");
        reveal_strlit("exams");
        reveal_strlit("level");
        assert(all_words(words_of(r@)));
    }
    r
}

} // verus!
