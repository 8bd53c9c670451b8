//! Small helpers for bots.

use vstd::prelude::*;

verus! {

/// How a badge is shown behind a name: a space and the badge in square
/// brackets.
pub open spec fn badge_text(badge: Seq<char>) -> Seq<char> {
    " ["@ + badge + "]"@
}

/// Formats a user's badge for display. A user without a badge gets none.
pub fn badge_handler(badge: &str) -> (r: Option<String>)
    ensures
        badge@.len() == 0 ==> r is None,
        badge@.len() > 0 ==> (r matches Some(text) && text@ == badge_text(badge@)),
{
    if badge.is_empty() {
        None
    } else {
        let mut text = String::from_str(" [");
        text.append(badge);
        text.append("]");
        Some(text)
    }
}

} // verus!
