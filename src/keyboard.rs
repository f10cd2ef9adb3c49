//! Keys of the on-screen and physical keyboard, and how key names read.

use vstd::prelude::*;
use vstd::string::StrSliceExecFns;
use crate::hint::is_letter;

verus! {

/// A key the player can press.
#[derive(Clone, Copy, Debug, PartialEq, Eq, Structural)]
pub enum Key {
    Letter(char),
    Enter,
    Backspace,
}

/// The name of the enter key.
pub open spec fn enter_name() -> Seq<char> {
    seq!['E', 'n', 't', 'e', 'r']
}

/// The name of the backspace key.
pub open spec fn backspace_name() -> Seq<char> {
    seq!['B', 'a', 'c', 'k', 's', 'p', 'a', 'c', 'e']
}

/// The key a name denotes: a single lowercase letter, `Enter` or `Backspace`.
pub open spec fn key_of(s: Seq<char>) -> Option<Key> {
    if s.len() == 1 && is_letter(s[0]) {
        Some(Key::Letter(s[0]))
    } else if s == enter_name() {
        Some(Key::Enter)
    } else if s == backspace_name() {
        Some(Key::Backspace)
    } else {
        None
    }
}

/// The label shown on a key: its letter, or its name.
pub open spec fn label_of(k: Key) -> Seq<char> {
    match k {
        Key::Letter(c) => seq![c],
        Key::Enter => enter_name(),
        Key::Backspace => backspace_name(),
    }
}

/// Reading a key's label gives the key back.
pub proof fn lemma_label_reads_back(k: Key)
    requires
        k matches Key::Letter(c) ==> is_letter(c),
    ensures
        key_of(label_of(k)) == Some(k),
{
    assert(enter_name().len() == 5);
    assert(backspace_name().len() == 9);
    if k is Backspace {
        assert(backspace_name() != enter_name()) by {
            assert(backspace_name()[0] != enter_name()[0]);
        }
    }
}

/// Relies on `String::push`: appends the character at the end of the string.
#[verifier::external_body]
fn push_char(s: &mut String, c: char)
    ensures
        final(s)@ == old(s)@.push(c),
{
    s.push(c);
}

/// Whether the text reads exactly as the given characters.
fn text_is(s: &str, w: &Vec<char>) -> (r: bool)
    ensures
        r == (s@ == w@),
{
    let n = s.unicode_len();
    if n != w.len() {
        return false;
    }
    let mut i: usize = 0;
    while i < n
        invariant
            n == s@.len(),
            n == w@.len(),
            i <= n,
            forall|k: int| 0 <= k < i ==> s@[k] == w@[k],
        decreases n - i,
    {
        if s.get_char(i) != w[i] {
            return false;
        }
        i = i + 1;
    }
    assert(s@ =~= w@);
    true
}

impl Key {
    /// The label shown on the key.
    pub fn label(&self) -> (r: String)
        ensures
            r@ == label_of(*self),
    {
        match self {
            Key::Letter(c) => {
                let mut r = String::new();
                push_char(&mut r, *c);
                assert(r@ =~= seq![*c]);
                r
            },
            Key::Enter => {
                let r = "Enter".to_owned();
                proof {
                    reveal_strlit("Enter");
                }
                assert(r@ =~= enter_name());
                r
            },
            Key::Backspace => {
                let r = "Backspace".to_owned();
                proof {
                    reveal_strlit("Backspace");
                }
                assert(r@ =~= backspace_name());
                r
            },
        }
    }

    /// Reads a key name, as a keyboard event reports it: a single lowercase
    /// letter, `Enter` or `Backspace`; any other name is refused.
    pub fn parse(s: &str) -> (r: Result<Key, ()>)
        ensures
            r matches Ok(k) ==> key_of(s@) == Some(k),
            r is Err <==> key_of(s@) is None,
    {
        if s.unicode_len() == 1 {
            let c = s.get_char(0);
            if 'a' <= c && c <= 'z' {
                return Ok(Key::Letter(c));
            }
        }
        let enter = vec!['E', 'n', 't', 'e', 'r'];
        assert(enter@ =~= enter_name());
        if text_is(s, &enter) {
            return Ok(Key::Enter);
        }
        let backspace = vec!['B', 'a', 'c', 'k', 's', 'p', 'a', 'c', 'e'];
        assert(backspace@ =~= backspace_name());
        if text_is(s, &backspace) {
            return Ok(Key::Backspace);
        }
        Err(())
    }
}

impl std::str::FromStr for Key {
    type Err = ();

    fn from_str(s: &str) -> (r: Result<Key, ()>)
        ensures
            r matches Ok(k) ==> key_of(s@) == Some(k),
            r is Err <==> key_of(s@) is None,
    {
        Key::parse(s)
    }
}

} // verus!
