//! Blank-text test for titles and descriptions.

use vstd::prelude::*;

verus! {

/// The text that `str::trim` leaves of `text`: `text` without its leading
/// and trailing white space.
pub uninterp spec fn trimmed(text: Seq<char>) -> Seq<char>;

/// `str::trim` returns `text` without its leading and trailing white space.
/// Taken on trust: the result depends on the text alone. Which characters
/// count as white space is the standard library's table and is not restated
/// here.
pub assume_specification[ str::trim ](text: &str) -> (inner: &str)
    ensures
        inner@ == trimmed(text@),
;

/// A text is blank when nothing but white space is in it.
pub open spec fn is_blank_text(text: Seq<char>) -> bool {
    trimmed(text).len() == 0
}

/// Whether `text` is blank.
pub fn is_blank(text: &str) -> (blank: bool)
    ensures
        blank == is_blank_text(text@),
{
    text.trim().is_empty()
}

} // verus!
