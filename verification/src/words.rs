//! Breaking the text of one stage into words.
//!
//! The rules are those of a POSIX shell: words are separated by blanks, quotes
//! group, a backslash escapes. They are the rules of the `shlex` crate, whose
//! `split` does the work.

use vstd::prelude::*;
use crate::text::views;

verus! {

/// The words of `text` as `shlex::split` finds them, or `None` where it rejects the
/// text: one that ends inside a quotation or right behind a backslash.
pub uninterp spec fn shell_words(text: Seq<char>) -> Option<Seq<Seq<char>>>;

/// Calls `shlex::split`. Its result depends on the text alone and is named
/// [`shell_words`]; nothing more is claimed of it.
#[verifier::external_body]
pub(crate) fn split_words(text: &str) -> (words: Option<Vec<String>>)
    ensures
        match words {
            Some(list) => shell_words(text@) == Some(views(list@)),
            None => shell_words(text@) is None,
        },
{
    shlex::split(text)
}

} // verus!
