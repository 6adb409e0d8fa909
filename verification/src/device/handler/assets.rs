//! The content type the device serves a dashboard file with.

use crate::text::{lemma_suffix_after_last_is, same_text, suffix_after_last, text_after_last};
use vstd::prelude::*;

verus! {

/// The ending of a file path: the text after its last `.`.
pub open spec fn file_ending(path: Seq<char>) -> Seq<char> {
    suffix_after_last(path, '.')
}

/// Style sheets and scripts get their own content types; everything else is plain text.
pub open spec fn content_type_of(path: Seq<char>) -> Seq<char> {
    if file_ending(path) == "css"@ {
        "text/css"@
    } else if file_ending(path) == "js"@ {
        "text/javascript"@
    } else {
        "text/plain"@
    }
}

/// Law: a path is served as a style sheet exactly when it is `css` or ends
/// in `.css`, as a script exactly when it is `js` or ends in `.js`, and as
/// plain text otherwise.
pub proof fn content_type_by_ending(path: Seq<char>)
    ensures
        content_type_of(path) == (if path == "css"@ || (path.len() > 3 && path[path.len() - 4] == '.' && path.skip(path.len() - 3) == "css"@) {
            "text/css"@
        } else if path == "js"@ || (path.len() > 2 && path[path.len() - 3] == '.' && path.skip(path.len() - 2) == "js"@) {
            "text/javascript"@
        } else {
            "text/plain"@
        }),
{
    reveal_strlit("css");
    reveal_strlit("js");
    assert(!"css"@.contains('.')) by {
        assert forall|k: int| 0 <= k < "css"@.len() implies "css"@[k] != '.' by {}
    }
    assert(!"js"@.contains('.')) by {
        assert forall|k: int| 0 <= k < "js"@.len() implies "js"@[k] != '.' by {}
    }
    lemma_suffix_after_last_is(path, '.', "css"@);
    lemma_suffix_after_last_is(path, '.', "js"@);
}

/// The content type of the dashboard file at `path`.
pub fn content_type_for(path: &str) -> (r: &'static str)
    ensures
        r@ == content_type_of(path@),
        r@ == (if path@ == "css"@ || (path@.len() > 3 && path@[path@.len() - 4] == '.' && path@.skip(path@.len() - 3) == "css"@) {
            "text/css"@
        } else if path@ == "js"@ || (path@.len() > 2 && path@[path@.len() - 3] == '.' && path@.skip(path@.len() - 2) == "js"@) {
            "text/javascript"@
        } else {
            "text/plain"@
        }),
{
    proof {
        content_type_by_ending(path@);
    }
    let ending = text_after_last(path, '.');
    if same_text(ending, "css") {
        "text/css"
    } else if same_text(ending, "js") {
        "text/javascript"
    } else {
        "text/plain"
    }
}

} // verus!
