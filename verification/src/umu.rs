//! UMU launcher: where NovaDream keeps its own `umu-run`, when that copy is
//! used, and what the latest release offers for download.
use vstd::prelude::*;

use crate::json::{array_value, as_array, as_str, field, get, parse_json, parsed_json, str_value, Json};
use crate::paths::{data_local_dir, file_name, file_name_of, join, joined, opt_view, or_else};
use crate::stores::str_opt;
use crate::text::{chars_of, contains, contains_seq, ends_with, ends_with_seq, same_chars};

verus! {

/// NovaDream's own `umu-run`, under the local data directory `base`
/// (`~/.local/share` when there is none).
pub open spec fn bundled_umu_spec(base: Option<Seq<char>>) -> Seq<char> {
    joined(or_else(base, "~/.local/share"@), "NovaDream/runtimes/umu/umu-run"@)
}

/// The `umu-run` to use: the one on `PATH` when there is one, otherwise
/// NovaDream's own copy when it exists, otherwise none.
pub open spec fn umu_choice(on_path: bool, bundled_exists: bool, bundled: Seq<char>) -> Option<Seq<char>> {
    if on_path {
        Some("umu-run"@)
    } else if bundled_exists {
        Some(bundled)
    } else {
        None
    }
}

/// A release asset is the zipapp archive: its name mentions `zipapp` and
/// ends in `.tar`.
pub open spec fn is_zipapp_asset(a: Json) -> bool {
    match str_value(field(Some(a), "name"@)) {
        Some(n) => contains_seq(n, "zipapp"@) && ends_with_seq(n, ".tar"@),
        None => false,
    }
}

/// The first zipapp asset among `assets`.
pub open spec fn first_zipapp(assets: Seq<Json>) -> Option<Json>
    decreases assets.len(),
{
    if assets.len() == 0 {
        None
    } else if is_zipapp_asset(assets[0]) {
        Some(assets[0])
    } else {
        first_zipapp(assets.drop_first())
    }
}

/// The download address of the zipapp archive in a GitHub release document:
/// the `browser_download_url` of the first zipapp asset.
pub open spec fn zipapp_url_spec(release: Json) -> Option<Seq<char>> {
    match array_value(field(Some(release), "assets"@)) {
        None => None,
        Some(assets) => match first_zipapp(assets) {
            None => None,
            Some(a) => str_value(field(Some(a), "browser_download_url"@)),
        },
    }
}

/// NovaDream's own `umu-run`, given the local data directory.
pub fn bundled_umu_path_in(base: &Option<String>) -> (r: String)
    ensures
        r@ == bundled_umu_spec(opt_view(*base)),
{
    let b = match base {
        Some(b) => b.clone(),
        None => String::from_str("~/.local/share"),
    };
    join(b.as_str(), "NovaDream/runtimes/umu/umu-run")
}

/// NovaDream's own `umu-run`.
pub fn bundled_umu_path() -> (r: String)
    ensures
        exists|b: Option<Seq<char>>| r@ == bundled_umu_spec(b),
{
    let base = data_local_dir();
    let r = bundled_umu_path_in(&base);
    assert(r@ == bundled_umu_spec(opt_view(base)));
    r
}

/// Picks the `umu-run` to use, given whether `which umu-run` found one and
/// whether the bundled copy at `bundled` exists.
pub fn resolve_umu(on_path: bool, bundled_exists: bool, bundled: &str) -> (r: Option<String>)
    ensures
        opt_view(r) == umu_choice(on_path, bundled_exists, bundled@),
{
    if on_path {
        Some(String::from_str("umu-run"))
    } else if bundled_exists {
        Some(String::from_str(bundled))
    } else {
        None
    }
}

fn zipapp_asset(a: &Json) -> (r: bool)
    ensures
        r == is_zipapp_asset(*a),
{
    match as_str(get(Some(a), "name")) {
        None => false,
        Some(n) => {
            let v = chars_of(n.as_str());
            contains(v.as_slice(), chars_of("zipapp").as_slice())
                && ends_with(v.as_slice(), chars_of(".tar").as_slice())
        },
    }
}

/// The download address of the zipapp archive in a GitHub release document.
pub fn zipapp_download_url(release: &Json) -> (r: Option<String>)
    ensures
        opt_view(r) == zipapp_url_spec(*release),
{
    match as_array(get(Some(release), "assets")) {
        None => None,
        Some(a) => {
            let n = a.len();
            let mut i: usize = 0;
            assert(a@.skip(0) =~= a@);
            while i < n
                invariant
                    i <= n,
                    n == a@.len(),
                    array_value(field(Some(*release), "assets"@)) == Some(a@),
                    first_zipapp(a@) == first_zipapp(a@.skip(i as int)),
                decreases n - i,
            {
                assert(a@.skip(i as int).drop_first() =~= a@.skip(i + 1));
                assert(a@.skip(i as int)[0] == a@[i as int]);
                if zipapp_asset(&a[i]) {
                    return str_opt(as_str(get(Some(&a[i]), "browser_download_url")));
                }
                i = i + 1;
            }
            None
        },
    }
}

/// The download address of the zipapp archive in the release document that
/// GitHub sent (`bytes`); none when they are not JSON or name no such asset.
pub fn zipapp_url_from_release(bytes: &[u8]) -> (r: Option<String>)
    ensures
        opt_view(r) == match parsed_json(bytes@) {
            Some(doc) => zipapp_url_spec(doc),
            None => None,
        },
{
    match parse_json(bytes) {
        None => None,
        Some(doc) => zipapp_download_url(&doc),
    }
}

/// Whether an archive entry is the `umu-run` program (its file name is
/// `umu-run`).
pub fn is_umu_entry(path: &str) -> (r: bool)
    ensures
        r == (file_name_of(path@) == Some("umu-run"@)),
{
    match file_name(path) {
        None => false,
        Some(n) => same_chars(chars_of(n.as_str()).as_slice(), chars_of("umu-run").as_slice()),
    }
}

/// The download progress shown on the Play button, in percent:
/// `downloaded * 100 / total`, kept to its low eight bits as `as u8` does.
pub fn progress_percent(downloaded: u64, total: u64) -> (r: u8)
    requires
        total > 0,
        downloaded * 100 <= u64::MAX,
    ensures
        r as int == (downloaded as int * 100) / (total as int) % 256,
{
    let p = downloaded * 100 / total;
    (p % 256) as u8
}

} // verus!
