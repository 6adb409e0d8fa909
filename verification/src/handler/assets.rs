//! Which embedded dashboard asset a request path names.

use crate::text::{occurs_at, remove_all, remove_all_of, trim_leading, trim_leading_char};
use vstd::prelude::*;
use vstd::string::*;

verus! {

/// The asset a request path names: the path without its leading slashes,
/// and, where it then starts with `static/`, with every `static/` removed.
pub open spec fn asset_path(uri_path: Seq<char>) -> Seq<char> {
    let path = trim_leading(uri_path, '/');
    if "static/"@.is_prefix_of(path) {
        remove_all(path, "static/"@)
    } else {
        path
    }
}

/// The name of the embedded asset that the request path `uri_path` asks for.
pub fn static_asset_path(uri_path: &str) -> (r: String)
    ensures
        r@ == asset_path(uri_path@),
{
    let path = trim_leading_char(uri_path, '/');
    proof {
        reveal_strlit("static/");
    }
    if occurs_at(path.as_str(), 0, "static/") {
        assert(path@.skip(0) =~= path@);
        remove_all_of(path.as_str(), "static/")
    } else {
        assert(path@.skip(0) =~= path@);
        path
    }
}

/// The content type mime_guess gives a path.
pub uninterp spec fn guessed_mime(path: Seq<char>) -> Seq<char>;

/// The content type of `path` by `mime_guess::from_path(path).first_or_octet_stream()`.
/// Claimed of mime_guess: the result is a function of the path text alone
/// (it reads the extension through `std::path::Path`, without disk access),
/// named `guessed_mime`. The guess itself is not stated; `Path` splits
/// components by the compile target's separators.
#[verifier::external_body]
pub(crate) fn guess_mime(path: &str) -> (r: String)
    ensures
        r@ == guessed_mime(path@),
{
    mime_guess::from_path(path).first_or_octet_stream().as_ref().to_string()
}

/// How the dashboard answers a request for an embedded asset.
#[derive(Debug, PartialEq)]
pub enum StaticAnswer {
    /// The asset exists: it is served with this content type.
    Asset { content_type: String },
    /// There is no such asset: the answer is "not found" with this body.
    Missing { body: String },
}

/// The answer for the asset at `path`, given whether it was `found`.
pub fn static_answer(path: &str, found: bool) -> (r: StaticAnswer)
    ensures
        found ==> (r matches StaticAnswer::Asset { content_type } && content_type@ == guessed_mime(path@)),
        !found ==> (r matches StaticAnswer::Missing { body } && body@ == "404"@),
{
    if found {
        StaticAnswer::Asset { content_type: guess_mime(path) }
    } else {
        StaticAnswer::Missing { body: "404".to_owned() }
    }
}

} // verus!
