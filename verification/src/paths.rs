//! Filesystem paths as text: std's `Path` operations and the user's base
//! directories from `dirs`, behind small wrappers.
use vstd::prelude::*;

verus! {

/// The path that `Path::new(base).join(rel)` forms on Unix, as text: `rel`
/// alone when it is absolute (starts with `/`); otherwise `rel` after `base`,
/// with a `/` between them unless `base` is empty or already ends in one.
pub open spec fn joined(base: Seq<char>, rel: Seq<char>) -> Seq<char> {
    if rel.len() > 0 && rel[0] == '/' {
        rel
    } else if base.len() == 0 || base.last() == '/' {
        base + rel
    } else {
        base + seq!['/'] + rel
    }
}

/// What `Path::parent` gives for the path `p`, as text.
pub uninterp spec fn parent_of(p: Seq<char>) -> Option<Seq<char>>;

/// What `Path::file_name` gives for the path `p`, as text.
pub uninterp spec fn file_name_of(p: Seq<char>) -> Option<Seq<char>>;

/// What `Path::extension` gives for the path `p`, as text.
pub uninterp spec fn extension_of(p: Seq<char>) -> Option<Seq<char>>;

/// The text an optional `String` holds.
pub open spec fn opt_view(o: Option<String>) -> Option<Seq<char>> {
    match o {
        Some(s) => Some(s@),
        None => None,
    }
}

/// `base` when there is one, `fallback` otherwise.
pub open spec fn or_else(base: Option<Seq<char>>, fallback: Seq<char>) -> Seq<char> {
    match base {
        Some(b) => b,
        None => fallback,
    }
}

/// `Path::new(base).join(rel)`, by the Unix joining rules (`joined`); the
/// text of a `&str` is valid UTF-8, so `to_string_lossy` changes nothing.
#[verifier::external_body]
pub(crate) fn join(base: &str, rel: &str) -> (r: String)
    ensures
        r@ == joined(base@, rel@),
{
    std::path::Path::new(base).join(rel).to_string_lossy().to_string()
}

/// `Path::new(p).parent()`. The contract names the result (`parent_of`);
/// std's rules for it are not written out here.
#[verifier::external_body]
pub(crate) fn parent(p: &str) -> (r: Option<String>)
    ensures
        opt_view(r) == parent_of(p@),
{
    std::path::Path::new(p).parent().map(|q| q.to_string_lossy().to_string())
}

/// `Path::new(p).file_name()`. The contract names the result
/// (`file_name_of`); std's rules for it are not written out here.
#[verifier::external_body]
pub(crate) fn file_name(p: &str) -> (r: Option<String>)
    ensures
        opt_view(r) == file_name_of(p@),
{
    std::path::Path::new(p).file_name().map(|q| q.to_string_lossy().to_string())
}

/// `Path::new(p).extension()`. The contract names the result
/// (`extension_of`); std's rules for it are not written out here.
#[verifier::external_body]
pub(crate) fn extension(p: &str) -> (r: Option<String>)
    ensures
        opt_view(r) == extension_of(p@),
{
    std::path::Path::new(p).extension().map(|q| q.to_string_lossy().to_string())
}

/// `dirs::data_local_dir()`, as text. It reads the environment (and, failing
/// that, the user database), so nothing is stated of the answer.
#[verifier::external_body]
pub(crate) fn data_local_dir() -> (r: Option<String>) {
    dirs::data_local_dir().map(|p| p.to_string_lossy().to_string())
}

/// `dirs::config_dir()`, as text. It reads the environment, so nothing is
/// stated of the answer.
#[verifier::external_body]
pub(crate) fn config_dir() -> (r: Option<String>) {
    dirs::config_dir().map(|p| p.to_string_lossy().to_string())
}

/// `dirs::home_dir()`, as text. It reads the environment (and, failing that,
/// the user database), so nothing is stated of the answer.
#[verifier::external_body]
pub(crate) fn home_dir() -> (r: Option<String>) {
    dirs::home_dir().map(|p| p.to_string_lossy().to_string())
}

/// Clones an optional string.
pub fn clone_opt(o: &Option<String>) -> (r: Option<String>)
    ensures
        r == *o,
{
    match o {
        Some(s) => Some(s.clone()),
        None => None,
    }
}

} // verus!
