//! Steam, read from the local Steam installation's manifests.
use vstd::prelude::*;

use crate::command::{command_text, plain_command, CommandSpec};
use crate::game::{Game, Store};
use crate::paths::{extension, extension_of, home_dir, join, joined, opt_view, or_else};
use crate::stores::{arg, is_listed_game, listed_game, StoreBackend, StoreError};
use crate::text::{
    chars_of, lines, lines_spec, push_chars, push_str, same_chars, split_chars, split_spec,
    starts_with, starts_with_seq, string_of, string_views, trim, trim_spec, trim_start,
    trim_start_spec, views, CharClass,
};

verus! {

/// The Steam backend. Steam needs no login: the local library is read.
pub struct SteamStore;

/// The value on a VDF `"key"  "value"` line: the text inside the second pair
/// of quotes (the fourth piece between `"`), empty when there is none.
pub open spec fn vdf_value(line: Seq<char>) -> Seq<char> {
    let parts = split_spec(line, '"');
    if parts.len() > 3 {
        trim_spec(parts[3], CharClass::Is('"'))
    } else {
        Seq::empty()
    }
}

/// The value of the last of `ls` that, trimmed, starts with `key`.
pub open spec fn vdf_last(ls: Seq<Seq<char>>, key: Seq<char>) -> Option<Seq<char>>
    decreases ls.len(),
{
    if ls.len() == 0 {
        None
    } else {
        let l = trim_spec(ls.last(), CharClass::Whitespace);
        if starts_with_seq(l, key) {
            Some(vdf_value(l))
        } else {
            vdf_last(ls.drop_last(), key)
        }
    }
}

/// The extra library folders that the lines of `libraryfolders.vdf` name:
/// for each line whose trimmed start is `"path"`, its value with
/// `steamapps` joined on.
pub open spec fn folder_paths(ls: Seq<Seq<char>>) -> Seq<Seq<char>>
    decreases ls.len(),
{
    if ls.len() == 0 {
        seq![]
    } else {
        let rest = folder_paths(ls.drop_last());
        let l = ls.last();
        let parts = split_spec(l, '"');
        if starts_with_seq(trim_start_spec(l, CharClass::Whitespace), "\"path\""@) && parts.len() > 3 {
            rest.push(joined(parts[3], "steamapps"@))
        } else {
            rest
        }
    }
}

/// Steam's CDN address of a game's library cover.
pub open spec fn steam_cover(app_id: Seq<char>) -> Seq<char> {
    "https://cdn.cloudflare.steamstatic.com/steam/apps/"@ + app_id + "/library_600x900.jpg"@
}

/// The app id a manifest names (empty when none).
pub open spec fn manifest_id(contents: Seq<char>) -> Seq<char> {
    or_else(vdf_last(lines_spec(contents), "\"appid\""@), Seq::empty())
}

/// The title a manifest names (empty when none).
pub open spec fn manifest_title(contents: Seq<char>) -> Seq<char> {
    or_else(vdf_last(lines_spec(contents), "\"name\""@), Seq::empty())
}

/// Whether a manifest marks its game installed (`"StateFlags"  "4"`).
pub open spec fn manifest_installed(contents: Seq<char>) -> bool {
    vdf_last(lines_spec(contents), "\"StateFlags\""@) == Some("4"@)
}

/// The value on a VDF key/value line (`"appid"  "440"` gives `440`).
pub fn parse_vdf_value(line: &str) -> (r: String)
    ensures
        r@ == vdf_value(line@),
{
    let v = vdf_value_of(chars_of(line).as_slice());
    string_of(v.as_slice())
}

fn vdf_value_of(line: &[char]) -> (r: Vec<char>)
    ensures
        r@ == vdf_value(line@),
{
    let parts = split_chars(line, '"');
    if parts.len() > 3 {
        assert(views(parts@)[3] == parts@[3]@);
        trim(parts[3].as_slice(), CharClass::Is('"'))
    } else {
        Vec::new()
    }
}

impl SteamStore {
    pub fn new() -> (r: SteamStore) {
        SteamStore
    }

    /// Steam's root directory under the home directory `home` (`~` when
    /// there is none): `<home>/.steam/steam`.
    pub fn steam_root_in(home: &Option<String>) -> (r: String)
        ensures
            r@ == joined(or_else(opt_view(*home), "~"@), ".steam/steam"@),
    {
        let h = match home {
            Some(h) => h.clone(),
            None => String::from_str("~"),
        };
        join(h.as_str(), ".steam/steam")
    }

    /// Steam's root directory.
    pub fn steam_root() -> (r: String)
        ensures
            exists|h: Option<Seq<char>>| r@ == joined(or_else(h, "~"@), ".steam/steam"@),
    {
        let home = home_dir();
        let r = Self::steam_root_in(&home);
        assert(r@ == joined(or_else(opt_view(home), "~"@), ".steam/steam"@));
        r
    }

    /// The file that lists Steam's extra library folders.
    pub fn library_folders_file(root: &str) -> (r: String)
        ensures
            r@ == joined(root@, "steamapps/libraryfolders.vdf"@),
    {
        join(root, "steamapps/libraryfolders.vdf")
    }

    /// The library folders to scan: `<root>/steamapps`, then those that
    /// `libraryfolders.vdf` (its contents, when it could be read) names.
    pub fn library_paths_in(root: &str, folders_vdf: Option<&str>) -> (r: Vec<String>)
        ensures
            string_views(r@) == seq![joined(root@, "steamapps"@)] + folder_paths(lines_spec(
                match folders_vdf { Some(c) => c@, None => Seq::empty() })),
    {
        let mut r: Vec<String> = Vec::new();
        r.push(join(root, "steamapps"));
        let contents = match folders_vdf {
            Some(c) => chars_of(c),
            None => Vec::new(),
        };
        let ls = lines(contents.as_slice());
        let ghost lv = views(ls@);
        let key = chars_of("\"path\"");
        let n = ls.len();
        let mut i: usize = 0;
        assert(lv.take(0) =~= Seq::<Seq<char>>::empty());
        assert(string_views(r@) =~= seq![joined(root@, "steamapps"@)] + folder_paths(lv.take(0)));
        while i < n
            invariant
                i <= n,
                n == ls@.len(),
                lv == views(ls@),
                key@ == "\"path\""@,
                string_views(r@) == seq![joined(root@, "steamapps"@)] + folder_paths(lv.take(i as int)),
            decreases n - i,
        {
            let line = &ls[i];
            assert(lv.take(i + 1).drop_last() =~= lv.take(i as int));
            assert(lv.take(i + 1).last() == line@);
            let t = trim_start(line.as_slice(), CharClass::Whitespace);
            let parts = split_chars(line.as_slice(), '"');
            if starts_with(t.as_slice(), key.as_slice()) && parts.len() > 3 {
                assert(views(parts@)[3] == parts@[3]@);
                let p = string_of(parts[3].as_slice());
                let j = join(p.as_str(), "steamapps");
                let ghost before = r@;
                r.push(j);
                assert(string_views(r@) =~= string_views(before).push(j@));
            }
            i = i + 1;
        }
        assert(lv.take(n as int) =~= lv);
        r
    }

    /// Whether a library folder entry is an app manifest (`*.acf`).
    pub fn is_manifest(path: &str) -> (r: bool)
        ensures
            r == (extension_of(path@) == Some("acf"@)),
    {
        match extension(path) {
            Some(e) => same_chars(chars_of(e.as_str()).as_slice(), chars_of("acf").as_slice()),
            None => false,
        }
    }

    /// The game that an app manifest in the library folder `lib_path`
    /// describes; none when it names no app id or no title.
    pub fn game_from_manifest(lib_path: &str, contents: &str) -> (r: Option<Game>)
        ensures
            r is None <==> manifest_id(contents@).len() == 0 || manifest_title(contents@).len() == 0,
            r matches Some(g) ==> is_listed_game(g, Store::Steam, manifest_id(contents@),
                manifest_title(contents@), Some(steam_cover(manifest_id(contents@))), Some(lib_path@),
                manifest_installed(contents@)),
    {
        let ls = lines(chars_of(contents).as_slice());
        let ghost lv = views(ls@);
        let k_id = chars_of("\"appid\"");
        let k_name = chars_of("\"name\"");
        let k_flags = chars_of("\"StateFlags\"");
        let four = chars_of("4");
        let mut app_id: Vec<char> = Vec::new();
        let mut title: Vec<char> = Vec::new();
        let mut installed = false;
        let n = ls.len();
        let mut i: usize = 0;
        assert(lv.take(0) =~= Seq::<Seq<char>>::empty());
        while i < n
            invariant
                i <= n,
                n == ls@.len(),
                lv == views(ls@),
                lv == lines_spec(contents@),
                k_id@ == "\"appid\""@,
                k_name@ == "\"name\""@,
                k_flags@ == "\"StateFlags\""@,
                four@ == "4"@,
                app_id@ == or_else(vdf_last(lv.take(i as int), "\"appid\""@), Seq::empty()),
                title@ == or_else(vdf_last(lv.take(i as int), "\"name\""@), Seq::empty()),
                installed == (vdf_last(lv.take(i as int), "\"StateFlags\""@) == Some("4"@)),
            decreases n - i,
        {
            assert(lv.take(i + 1).drop_last() =~= lv.take(i as int));
            assert(lv.take(i + 1).last() == ls@[i as int]@);
            let l = trim(ls[i].as_slice(), CharClass::Whitespace);
            if starts_with(l.as_slice(), k_id.as_slice()) {
                app_id = vdf_value_of(l.as_slice());
            }
            if starts_with(l.as_slice(), k_name.as_slice()) {
                title = vdf_value_of(l.as_slice());
            }
            if starts_with(l.as_slice(), k_flags.as_slice()) {
                let v = vdf_value_of(l.as_slice());
                installed = same_chars(v.as_slice(), four.as_slice());
            }
            i = i + 1;
        }
        assert(lv.take(n as int) =~= lv);
        if app_id.len() == 0 || title.len() == 0 {
            return None;
        }
        let mut cover = chars_of("https://cdn.cloudflare.steamstatic.com/steam/apps/");
        push_chars(&mut cover, app_id.as_slice());
        push_str(&mut cover, "/library_600x900.jpg");
        let id = string_of(app_id.as_slice());
        let t = string_of(title.as_slice());
        let c = string_of(cover.as_slice());
        Some(listed_game(Store::Steam, id, t, Some(c), Some(String::from_str(lib_path)), installed))
    }
}

impl StoreBackend for SteamStore {
    /// Steam needs no login page.
    fn auth_url(&self) -> (r: Option<String>)
        ensures
            r is None,
    {
        None
    }

    /// `steam steam://rungameid/<id>`.
    fn launch_command(&self, game: &Game) -> (r: Option<CommandSpec>)
        ensures
            r matches Some(c) && command_text(c) == plain_command("steam"@,
                seq!["steam://rungameid/"@ + game.id@]),
    {
        let mut u = chars_of("steam://rungameid/");
        push_chars(&mut u, chars_of(game.id.as_str()).as_slice());
        let args = vec![string_of(u.as_slice())];
        assert(string_views(args@) =~= seq!["steam://rungameid/"@ + game.id@]);
        Some(CommandSpec::new(arg("steam"), args))
    }

    /// `steam steam://install/<id>`.
    fn install_command(&self, game: &Game) -> (r: Result<CommandSpec, StoreError>)
        ensures
            r matches Ok(c) && command_text(c) == plain_command("steam"@,
                seq!["steam://install/"@ + game.id@]),
    {
        let mut u = chars_of("steam://install/");
        push_chars(&mut u, chars_of(game.id.as_str()).as_slice());
        let args = vec![string_of(u.as_slice())];
        assert(string_views(args@) =~= seq!["steam://install/"@ + game.id@]);
        Ok(CommandSpec::new(arg("steam"), args))
    }
}


/// Line `k` of `ls` is the last whose trimmed text starts with `key`.
pub open spec fn last_key_line(ls: Seq<Seq<char>>, key: Seq<char>, k: int) -> bool {
    &&& 0 <= k < ls.len()
    &&& starts_with_seq(trim_spec(ls[k], CharClass::Whitespace), key)
    &&& forall|j: int| k < j < ls.len() ==> !starts_with_seq(trim_spec(#[trigger] ls[j], CharClass::Whitespace), key)
}

/// In a VDF file read line by line, a key's value is the one on the last
/// line that sets it, whatever lines come before; a key no line sets has no
/// value.
pub proof fn law_vdf_last_line_wins(ls: Seq<Seq<char>>, key: Seq<char>, k: int)
    ensures
        last_key_line(ls, key, k) ==> vdf_last(ls, key) == Some(vdf_value(trim_spec(ls[k], CharClass::Whitespace))),
        (forall|j: int| 0 <= j < ls.len() ==> !starts_with_seq(trim_spec(#[trigger] ls[j], CharClass::Whitespace), key))
            ==> vdf_last(ls, key) is None,
    decreases ls.len(),
{
    if ls.len() > 0 {
        let rest = ls.drop_last();
        let n = ls.len() - 1;
        if last_key_line(ls, key, k) && k < n {
            assert(!starts_with_seq(trim_spec(ls[n], CharClass::Whitespace), key));
            assert forall|j: int| k < j < rest.len() implies !starts_with_seq(trim_spec(#[trigger] rest[j], CharClass::Whitespace), key) by {
                assert(rest[j] == ls[j]);
            }
            assert(rest[k] == ls[k]);
            assert(last_key_line(rest, key, k));
        }
        if forall|j: int| 0 <= j < ls.len() ==> !starts_with_seq(trim_spec(#[trigger] ls[j], CharClass::Whitespace), key) {
            assert(!starts_with_seq(trim_spec(ls[n], CharClass::Whitespace), key));
            assert forall|j: int| 0 <= j < rest.len() implies !starts_with_seq(trim_spec(#[trigger] rest[j], CharClass::Whitespace), key) by {
                assert(rest[j] == ls[j]);
            }
        }
        law_vdf_last_line_wins(rest, key, k);
    }
}

/// The library folders of `libraryfolders.vdf` come in the order of its
/// lines: the folders of two stretches of lines are those of the first
/// followed by those of the second.
pub proof fn law_folder_paths_in_order(a: Seq<Seq<char>>, b: Seq<Seq<char>>)
    ensures
        folder_paths(a + b) == folder_paths(a) + folder_paths(b),
    decreases b.len(),
{
    if b.len() == 0 {
        assert(a + b =~= a);
        assert(folder_paths(a) + folder_paths(b) =~= folder_paths(a));
    } else {
        law_folder_paths_in_order(a, b.drop_last());
        assert((a + b).drop_last() =~= a + b.drop_last());
        assert((a + b).last() == b.last());
        assert(folder_paths(a + b) =~= folder_paths(a) + folder_paths(b));
    }
}

/// One line of `libraryfolders.vdf` names a folder exactly when its trimmed
/// start is `"path"` and it has a quoted value: that value with `steamapps`
/// joined on.
pub proof fn law_folder_path_line(l: Seq<char>)
    ensures
        folder_paths(seq![l]) == (if starts_with_seq(trim_start_spec(l, CharClass::Whitespace), "\"path\""@)
            && split_spec(l, '"').len() > 3 {
            seq![joined(split_spec(l, '"')[3], "steamapps"@)]
        } else {
            Seq::empty()
        }),
{
    let ls = seq![l];
    assert(ls.drop_last() =~= Seq::<Seq<char>>::empty());
    assert(ls.last() == l);
    assert(folder_paths(ls.drop_last()) =~= Seq::<Seq<char>>::empty());
}
} // verus!
