//! Building text one character at a time.

use vstd::prelude::*;

verus! {

/// Appends a character to a string. This is `String::push` of the standard
/// library, which is taken on trust to do what its documentation says: the
/// string afterwards is the string before with the character at its end.
#[verifier::external_body]
pub(crate) fn push_char(s: &mut String, c: char)
    ensures
        final(s)@ == old(s)@.push(c),
{
    s.push(c);
}

/// A character in lower case, if it is one of the letters `A` to `Z`;
/// every other character as it is.
pub open spec fn lower(c: char) -> char {
    if 'A' <= c <= 'Z' {
        ((c as u8 + 32) as u8) as char
    } else {
        c
    }
}

/// A word with its letters from `A` to `Z` in lower case.
pub open spec fn lowered(word: Seq<char>) -> Seq<char> {
    word.map_values(|c: char| lower(c))
}

/// The two words are the same but for the case of the letters `A` to `Z`.
pub open spec fn same_word(a: Seq<char>, b: Seq<char>) -> bool {
    lowered(a) == lowered(b)
}

/// Whether two words are the same but for the case of their letters. This
/// is `str::eq_ignore_ascii_case` of the standard library, which is taken on
/// trust to do what its documentation says: it compares the two strings as
/// if the letters `A` to `Z` of both were in lower case.
#[verifier::external_body]
pub(crate) fn same_word_as(a: &str, b: &str) -> (r: bool)
    ensures
        r == same_word(a@, b@),
{
    a.eq_ignore_ascii_case(b)
}

} // verus!
