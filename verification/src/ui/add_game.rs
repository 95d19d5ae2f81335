//! The Add Game dialog: the launch modes and runners it offers and the game
//! its form describes.
use vstd::prelude::*;

use crate::game::{Game, LaunchMode, Store};
use crate::proton::{runner_binary, Runner};
use crate::text::{decimal, push_decimal, push_str, string_of};
use crate::ui::game_settings::runner_labels;

verus! {

/// The launch mode at position `i` of the dialog's list (Linux, Windows,
/// Web Browser); Linux past the end.
pub open spec fn mode_at(i: u32) -> LaunchMode {
    if i == 1 {
        LaunchMode::Windows
    } else if i == 2 {
        LaunchMode::Browser
    } else {
        LaunchMode::Linux
    }
}

/// The id of a game added by hand at `nanos` nanoseconds after the epoch.
pub open spec fn local_id_text(nanos: nat) -> Seq<char> {
    "local-"@ + decimal(nanos)
}

/// The runner names the dialog lists, or one line saying none was found.
pub open spec fn runner_list_text(rs: Seq<Runner>) -> Seq<Seq<char>> {
    if rs.len() == 0 {
        seq!["No runners found — add one to NovaDream/proton/"@]
    } else {
        runner_labels(rs)
    }
}

/// The runner a new game gets: the chosen one's binary for a Windows game
/// when there are runners, none otherwise.
pub open spec fn new_game_runner(mode: LaunchMode, rs: Seq<Runner>, idx: u32) -> Option<Seq<char>> {
    if mode == LaunchMode::Windows && rs.len() > 0 && idx < rs.len() {
        Some(runner_binary(rs[idx as int]))
    } else {
        None
    }
}

/// `g` is the game the dialog adds: a local, installed, never played game
/// with the given id, title, executable (also its install path), mode and
/// runner, and nothing else set.
pub open spec fn is_new_local_game(g: Game, id: Seq<char>, title: Seq<char>, exe: Seq<char>,
    mode: LaunchMode, runner: Option<Seq<char>>) -> bool
{
    &&& g.id@ == id && g.title@ == title && g.store == Store::Local
    &&& g.install_path matches Some(p) && p@ == exe
    &&& g.exe_path matches Some(e) && e@ == exe
    &&& g.launch_mode == mode
    &&& match runner {
        Some(r) => g.runner matches Some(x) && x@ == r,
        None => g.runner is None,
    }
    &&& g.installed && g.play_time == 0 && g.last_played is None
    &&& g.cover_url is None && g.cover_path is None
    &&& g.wine_prefix is None && g.launch_args is None && g.env_vars is None
    &&& g.work_dir is None && g.pre_launch is None && g.post_exit is None && g.notes is None
    &&& !g.hidden && !g.favorite && !g.use_mangohud && !g.use_gamemode && !g.use_wine_wayland
}

/// The launch mode at position `index` of the dialog's list.
pub fn mode_for_index(index: u32) -> (r: LaunchMode)
    ensures
        r == mode_at(index),
{
    if index == 1 {
        LaunchMode::Windows
    } else if index == 2 {
        LaunchMode::Browser
    } else {
        LaunchMode::Linux
    }
}

/// The label of the executable field: `URL` for browser games.
pub fn exe_field_label(index: u32) -> (r: &'static str)
    ensures
        r@ == (if index == 2 { "URL"@ } else { "Executable Path"@ }),
{
    if index == 2 { "URL" } else { "Executable Path" }
}

/// Whether the runner list is shown: for Windows games only.
pub fn runner_row_visible(index: u32) -> (r: bool)
    ensures
        r == (index == 1),
{
    index == 1
}

/// Whether the file browser may be opened: not for browser games.
pub fn browse_allowed(index: u32) -> (r: bool)
    ensures
        r == (index != 2),
{
    index != 2
}

/// The runner names the dialog lists.
pub fn runner_list(runners: &Vec<Runner>) -> (r: Vec<String>)
    ensures
        crate::text::string_views(r@) == runner_list_text(runners@),
{
    let mut r: Vec<String> = Vec::new();
    if runners.len() == 0 {
        r.push(String::from_str("No runners found — add one to NovaDream/proton/"));
        assert(crate::text::string_views(r@) =~= runner_list_text(runners@));
        return r;
    }
    let mut i: usize = 0;
    while i < runners.len()
        invariant
            i <= runners@.len(),
            crate::text::string_views(r@) == runner_labels(runners@.take(i as int)),
        decreases runners@.len() - i,
    {
        let ghost before = r@;
        let l = runners[i].label();
        r.push(l);
        assert(crate::text::string_views(r@) =~= crate::text::string_views(before).push(l@));
        assert(runner_labels(runners@.take(i + 1)) =~= runner_labels(runners@.take(i as int)).push(
            crate::proton::runner_label(runners@[i as int])));
        i = i + 1;
    }
    assert(runners@.take(runners@.len() as int) =~= runners@);
    r
}

/// The id of a game added by hand at `nanos` nanoseconds after the epoch.
pub fn local_id(nanos: u128) -> (r: String)
    ensures
        r@ == local_id_text(nanos as nat),
{
    let mut v: Vec<char> = Vec::new();
    push_str(&mut v, "local-");
    push_decimal(&mut v, nanos);
    string_of(v.as_slice())
}

/// Nanoseconds since the Unix epoch (0 when the clock reads earlier). It
/// reads the clock, so nothing is stated of the answer.
#[verifier::external_body]
fn unix_now_nanos() -> (r: u128) {
    std::time::SystemTime::now()
        .duration_since(std::time::UNIX_EPOCH)
        .unwrap_or_default()
        .as_nanos()
}

/// A fresh id for a game added by hand: `local-` and the current time in
/// nanoseconds.
pub fn uuid_simple() -> (r: String)
    ensures
        exists|n: nat| r@ == local_id_text(n),
{
    let n = unix_now_nanos();
    local_id(n)
}

/// The game the dialog adds, or none when the title or the executable is
/// empty (the dialog then stays open).
pub fn new_local_game(id: String, title: String, exe: String, mode_index: u32, runners: &Vec<Runner>,
    runner_index: u32) -> (r: Option<Game>)
    ensures
        (title@.len() == 0 || exe@.len() == 0) <==> r is None,
        r matches Some(g) ==> is_new_local_game(g, id@, title@, exe@, mode_at(mode_index),
            new_game_runner(mode_at(mode_index), runners@, runner_index)),
{
    if title.as_str().is_empty() || exe.as_str().is_empty() {
        return None;
    }
    let mode = mode_for_index(mode_index);
    let runner = if mode == LaunchMode::Windows && runners.len() > 0 && (runner_index as usize) < runners.len() {
        Some(runners[runner_index as usize].binary())
    } else {
        None
    };
    let mut g = Game::default();
    g.id = id;
    g.title = title;
    g.store = Store::Local;
    g.install_path = Some(exe.clone());
    g.exe_path = Some(exe);
    g.launch_mode = mode;
    g.runner = runner;
    g.installed = true;
    g.play_time = 0;
    g.last_played = None;
    Some(g)
}

} // verus!
