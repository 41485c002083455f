//! Small helpers for what a response says.

use vstd::prelude::*;

verus! {

/// The text that stands for `value` in an attribute: the word `empty` for the
/// empty text, and the text itself otherwise.
pub open spec fn value_or_empty_text(value: Seq<char>) -> Seq<char> {
    if value.len() == 0 {
        "empty"@
    } else {
        value
    }
}

/// Returns "empty" if the text is empty, otherwise the text itself.
pub fn value_or_empty(value: &str) -> (text: String)
    ensures
        text@ == value_or_empty_text(value@),
{
    if value.is_empty() {
        "empty".to_string()
    } else {
        value.to_string()
    }
}

} // verus!
