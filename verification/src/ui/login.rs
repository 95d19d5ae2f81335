//! The log-in dialogs: what they say and what they hand back.
use vstd::prelude::*;

use crate::text::{chars_of, push_str, string_of};

verus! {

/// What a log-in dialog hands back when its button is pressed: the text
/// entered, or nothing when the field is empty.
pub fn entered_text(text: String) -> (r: Option<String>)
    ensures
        text@.len() == 0 <==> r is None,
        r matches Some(t) ==> t == text,
{
    if text.as_str().is_empty() {
        proof {
            assert(text@.len() == 0);
        }
        None
    } else {
        Some(text)
    }
}

fn around(before: &str, middle: &str, after: &str) -> (r: String)
    ensures
        r@ == before@ + middle@ + after@,
{
    let mut v = chars_of(before);
    push_str(&mut v, middle);
    push_str(&mut v, after);
    string_of(v.as_slice())
}

/// The title of the log-in dialog for `store`.
pub fn login_title(store: &str) -> (r: String)
    ensures
        r@ == "Log in to "@ + store@,
{
    let r = around("Log in to ", store, "");
    assert(""@.len() == 0) by {
        reveal_strlit("");
    }
    assert(r@ =~= "Log in to "@ + store@);
    r
}

/// The first step the OAuth dialog shows for `store`.
pub fn oauth_first_step(store: &str) -> (r: String)
    ensures
        r@ == "1. Open this URL in your browser and log in to "@ + store@ + ":"@,
{
    around("1. Open this URL in your browser and log in to ", store, ":")
}

} // verus!
