//! Text as sequences of characters.
//!
//! Contracts in this crate speak of a string by its view, the sequence of
//! its `char`s. Offsets into a line are byte offsets of its UTF-8 encoding,
//! so the length in bytes of a piece of text is part of the model too.

use vstd::prelude::*;
use vstd::utf8::*;

verus! {

/// Whether `c` has the Unicode property `White_Space`, as `char::is_whitespace` decides it.
pub uninterp spec fn is_white_space(c: char) -> bool;

/// `char::is_whitespace` is a function of the character alone; its result is named
/// [`is_white_space`].
pub assume_specification[ char::is_whitespace ](c: char) -> (b: bool)
    ensures
        b == is_white_space(c),
;

/// `String::push` appends one character to the end of the string.
pub assume_specification[ String::push ](s: &mut String, c: char)
    ensures
        final(s)@ == old(s)@.push(c),
;

/// The views of a sequence of strings, one for one.
pub open spec fn views(strings: Seq<String>) -> Seq<Seq<char>> {
    strings.map_values(|s: String| s@)
}

/// The number of bytes that the UTF-8 encoding of `text` takes.
pub open spec fn byte_len(text: Seq<char>) -> nat {
    encode_utf8(text).len()
}

/// The encoding of a text is the encoding of its parts, one behind the other.
pub proof fn lemma_encode_concat(a: Seq<char>, b: Seq<char>)
    ensures
        encode_utf8(a + b) == encode_utf8(a) + encode_utf8(b),
        byte_len(a + b) == byte_len(a) + byte_len(b),
    decreases a.len(),
{
    if a.len() > 0 {
        assert((a + b).drop_first() =~= a.drop_first() + b);
        lemma_encode_concat(a.drop_first(), b);
    }
}

/// Where one text ends and the next begins, a character begins: the byte offset
/// between them is a character boundary of the encoding of both.
pub proof fn lemma_boundary_between(a: Seq<char>, b: Seq<char>)
    ensures
        is_char_boundary(encode_utf8(a + b), byte_len(a) as int),
    decreases a.len(),
{
    encode_utf8_valid_utf8(a + b);
    if a.len() > 0 {
        let rest = a.drop_first() + b;
        assert((a + b).drop_first() =~= rest);
        encode_utf8_first_scalar(a + b);
        encode_utf8_first_scalar(a);
        assert(pop_first_scalar(encode_utf8(a + b)) =~= encode_utf8(rest));
        lemma_boundary_between(a.drop_first(), b);
    }
}

/// Whether some character of `text` is white space.
pub open spec fn has_white_space(text: Seq<char>) -> bool {
    exists|i: int| 0 <= i < text.len() && is_white_space(#[trigger] text[i])
}

/// Whether `text` is not empty and its last character is white space.
pub open spec fn ends_in_white_space(text: Seq<char>) -> bool {
    text.len() > 0 && is_white_space(text.last())
}

/// The number of bytes that `s` takes.
pub fn bytes_in(s: &str) -> (n: usize)
    ensures
        n == byte_len(s@),
{
    s.as_bytes().len()
}

/// The characters of `s`, in order.
pub fn chars_of(s: &str) -> (chars: Vec<char>)
    ensures
        chars@ == s@,
{
    let mut chars: Vec<char> = Vec::new();
    let it = s.chars();
    for c in iter: it
        invariant
            iter.seq() == s@,
            chars@ == iter.seq().take(iter.index() as int),
    {
        chars.push(c);
    }
    chars
}

/// Tests whether `text` begins with `prefix`.
pub fn starts_with(text: &Vec<char>, prefix: &Vec<char>) -> (b: bool)
    ensures
        b == prefix@.is_prefix_of(text@),
{
    if prefix.len() > text.len() {
        return false;
    }
    let mut i: usize = 0;
    while i < prefix.len()
        invariant
            prefix.len() <= text.len(),
            i <= prefix.len(),
            forall|j: int| 0 <= j < i ==> prefix@[j] == text@[j],
        decreases prefix.len() - i,
    {
        if prefix[i] != text[i] {
            return false;
        }
        i += 1;
    }
    true
}

/// Tests whether some character of `text` is white space.
pub fn contains_white_space(text: &Vec<char>) -> (b: bool)
    ensures
        b == has_white_space(text@),
{
    let mut i: usize = 0;
    while i < text.len()
        invariant
            i <= text.len(),
            forall|j: int| 0 <= j < i ==> !is_white_space(#[trigger] text@[j]),
        decreases text.len() - i,
    {
        if text[i].is_whitespace() {
            return true;
        }
        i += 1;
    }
    false
}

/// Tests whether the last character of `text` is white space.
pub fn ends_with_white_space(text: &Vec<char>) -> (b: bool)
    ensures
        b == ends_in_white_space(text@),
{
    let n: usize = text.len();
    n > 0 && text[n - 1].is_whitespace()
}

} // verus!
