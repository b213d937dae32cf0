//! Small operations on text.

use vstd::prelude::*;
use vstd::string::*;

verus! {

/// `text` without the white space at its two ends, as `str::trim` returns it.
pub uninterp spec fn trimmed(text: Seq<char>) -> Seq<char>;

/// `str::trim`: the text between the leading and the trailing white space.
#[verifier::external_body]
pub(crate) fn trim<'a>(text: &'a str) -> (inner: &'a str)
    ensures
        inner@ == trimmed(text@),
{
    text.trim()
}

/// Whether two texts hold the same characters.
pub fn same_text(left: &str, right: &str) -> (same: bool)
    ensures
        same == (left@ == right@),
{
    let left = left.to_owned();
    let right = right.to_owned();
    left == right
}

/// `head` followed by `tail`.
pub fn joined(head: &str, tail: &str) -> (text: String)
    ensures
        text@ == head@ + tail@,
{
    let text = String::from_str(head);
    text.concat(tail)
}

/// `head`, `middle` and `tail` in a row.
pub fn joined3(head: &str, middle: &str, tail: &str) -> (text: String)
    ensures
        text@ == head@ + middle@ + tail@,
{
    let text = String::from_str(head);
    text.concat(middle).concat(tail)
}

} // verus!
