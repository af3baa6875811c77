//! Strings as sequences of characters.

use vstd::prelude::*;

verus! {

/// Mathematical value of an optional string.
pub open spec fn text_view(text: Option<String>) -> Option<Seq<char>> {
    match text {
        Some(s) => Some(s@),
        None => None,
    }
}

} // verus!
