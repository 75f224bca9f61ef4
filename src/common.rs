use vstd::prelude::*;

use crate::player::LoopMode;

verus! {

/// Settings read at startup.
pub struct Config {
    pub prefix: String,
    pub token: String,
    pub cache_dir: String,
    pub saved_queues_path: String,
}

/// Per-command shared data.
#[derive(Clone, Copy, Debug, PartialEq, Eq, Structural)]
pub struct Data {}

/// A shared service that was not registered at startup.
#[derive(Debug, Clone, Copy, PartialEq, Eq, Structural)]
pub enum DataRegistryError {
    QueueManagerNotRegistered,
    SongbirdNotRegistered,
    AudioManagerNotRegistered,
}

/// `c` is `w`, or `w` is a lower-case ASCII letter and `c` its upper-case form.
pub open spec fn same_letter(c: char, w: char) -> bool {
    c == w || ('a' <= w && w <= 'z' && (c as u32) + 32 == (w as u32))
}

/// `s` equals `word` (written in lower case) up to the case of ASCII letters.
pub open spec fn equals_ignoring_case(s: Seq<char>, word: Seq<char>) -> bool {
    s.len() == word.len() && forall|i: int| 0 <= i < s.len() ==> same_letter(#[trigger] s[i], word[i])
}

fn matches_word(s: &str, word: &str) -> (r: bool)
    ensures
        r == equals_ignoring_case(s@, word@),
{
    let n = s.unicode_len();
    if n != word.unicode_len() {
        return false;
    }
    let mut i: usize = 0;
    while i < n
        invariant
            n == s@.len() == word@.len(),
            i <= n,
            forall|j: int| 0 <= j < i ==> same_letter(#[trigger] s@[j], word@[j]),
        decreases n - i,
    {
        let c = s.get_char(i);
        let w = word.get_char(i);
        if !(c == w || ('a' <= w && w <= 'z' && (c as u32) + 32 == (w as u32))) {
            return false;
        }
        i += 1;
    }
    true
}

impl LoopMode {
    /// Reads a loop mode by name, ignoring case: "none", "song" or "queue".
    pub fn parse(s: &str) -> (r: Option<LoopMode>)
        ensures
            equals_ignoring_case(s@, seq!['n', 'o', 'n', 'e']) ==> r == Some(LoopMode::Off),
            equals_ignoring_case(s@, seq!['s', 'o', 'n', 'g']) ==> r == Some(LoopMode::Song),
            equals_ignoring_case(s@, seq!['q', 'u', 'e', 'u', 'e']) ==> r == Some(LoopMode::Queue),
            !equals_ignoring_case(s@, seq!['n', 'o', 'n', 'e']) && !equals_ignoring_case(s@, seq!['s', 'o', 'n', 'g'])
                && !equals_ignoring_case(s@, seq!['q', 'u', 'e', 'u', 'e']) ==> r is None,
    {
        proof {
            reveal_strlit("none");
            reveal_strlit("song");
            reveal_strlit("queue");
            let none = seq!['n', 'o', 'n', 'e'];
            let song = seq!['s', 'o', 'n', 'g'];
            if equals_ignoring_case(s@, song) {
                assert(same_letter(s@[0], song[0]));
                assert(!same_letter(s@[0], none[0]));
                assert(!equals_ignoring_case(s@, none));
            }
        }
        if matches_word(s, "none") {
            Some(LoopMode::Off)
        } else if matches_word(s, "song") {
            Some(LoopMode::Song)
        } else if matches_word(s, "queue") {
            Some(LoopMode::Queue)
        } else {
            None
        }
    }
}

} // verus!
