//! Comparison of keywords without regard to the case of ASCII letters.

use vstd::prelude::*;
use vstd::string::*;

verus! {

/// The lower-case form of an ASCII capital; any other character is left alone.
pub open spec fn lowered(c: char) -> char {
    if 'A' <= c <= 'Z' {
        ((c as u8) + 32) as char
    } else {
        c
    }
}

/// A text with each of its characters lowered.
pub open spec fn folded(s: Seq<char>) -> Seq<char> {
    Seq::new(s.len(), |i: int| lowered(s[i]))
}

/// Lowers one character.
pub fn lower(c: char) -> (r: char)
    ensures
        r == lowered(c),
{
    if 'A' <= c && c <= 'Z' {
        ((c as u8) + 32) as char
    } else {
        c
    }
}

/// Whether two texts are the same once the case of ASCII letters is ignored.
pub fn same_ignoring_case(text: &str, word: &str) -> (r: bool)
    ensures
        r == (folded(text@) == folded(word@)),
{
    let n: usize = text.unicode_len();
    if n != word.unicode_len() {
        assert(folded(text@).len() != folded(word@).len());
        return false;
    }
    let mut i: usize = 0;
    while i < n
        invariant
            n == text@.len(),
            n == word@.len(),
            i <= n,
            forall|j: int| 0 <= j < i ==> lowered(text@[j]) == lowered(word@[j]),
        decreases n - i,
    {
        if lower(text.get_char(i)) != lower(word.get_char(i)) {
            assert(folded(text@)[i as int] != folded(word@)[i as int]);
            return false;
        }
        i = i + 1;
    }
    assert(folded(text@) =~= folded(word@));
    true
}

} // verus!
