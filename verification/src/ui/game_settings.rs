//! The per-game settings dialog: the runner choices it offers and the game
//! its form describes.
use vstd::prelude::*;

use crate::config::{default_prefix_for, prefix_dir_spec};
use crate::game::Game;
use crate::paths::{clone_opt, opt_view};
use crate::text::string_views;
use crate::proton::{runner_binary, runner_label, Runner};

verus! {

/// What the settings dialog holds when it is saved.
#[derive(Debug)]
pub struct GameSettingsForm {
    /// The position chosen in the runner list (0: the global default).
    pub runner_index: u32,
    pub wine_prefix: String,
    pub launch_args: String,
    pub work_dir: String,
    pub pre_launch: String,
    pub post_exit: String,
    pub env_vars: String,
    pub notes: String,
    pub favorite: bool,
    pub hidden: bool,
    pub use_mangohud: bool,
    pub use_gamemode: bool,
    pub use_wine_wayland: bool,
}

/// A text field's value: nothing when it is empty.
pub open spec fn field_value(s: String) -> Option<String> {
    if s@.len() == 0 { None } else { Some(s) }
}

/// The runner names offered: the global default first, then each runner.
pub open spec fn runner_choice_names(rs: Seq<Runner>) -> Seq<Seq<char>> {
    seq!["(Use global default)"@] + runner_labels(rs)
}

/// Each runner's name, in order.
pub open spec fn runner_labels(rs: Seq<Runner>) -> Seq<Seq<char>> {
    rs.map_values(|r: Runner| runner_label(r))
}

pub open spec fn runner_bins(rs: Seq<Runner>) -> Seq<Option<Seq<char>>> {
    rs.map_values(|r: Runner| Some(runner_binary(r)))
}

/// The runner binaries behind the names offered: none for the global
/// default, then each runner's binary.
pub open spec fn runner_choice_binaries(rs: Seq<Runner>) -> Seq<Option<Seq<char>>> {
    seq![None] + runner_bins(rs)
}

pub open spec fn opt_views(v: Seq<Option<String>>) -> Seq<Option<Seq<char>>> {
    v.map_values(|o: Option<String>| opt_view(o))
}

/// The runner a choice stands for (none past the end of the list).
pub open spec fn chosen_runner(bins: Seq<Option<String>>, i: int) -> Option<String> {
    if 0 <= i < bins.len() { bins[i] } else { None }
}

/// `i` is the first choice whose binary is `r`.
pub open spec fn is_first_choice(bins: Seq<Option<Seq<char>>>, r: Seq<char>, i: int) -> bool {
    &&& 0 <= i < bins.len()
    &&& bins[i] == Some(r)
    &&& forall|j: int| 0 <= j < i ==> bins[j] != Some(r)
}

/// The game the saved form describes: every field of the form replaces the
/// game's, empty text fields becoming unset; the rest of the game is kept.
pub open spec fn settings_applied(g: Game, bins: Seq<Option<String>>, f: GameSettingsForm) -> Game {
    Game {
        runner: chosen_runner(bins, f.runner_index as int),
        wine_prefix: field_value(f.wine_prefix),
        launch_args: field_value(f.launch_args),
        work_dir: field_value(f.work_dir),
        pre_launch: field_value(f.pre_launch),
        post_exit: field_value(f.post_exit),
        env_vars: field_value(f.env_vars),
        notes: field_value(f.notes),
        favorite: f.favorite,
        hidden: f.hidden,
        use_mangohud: f.use_mangohud,
        use_gamemode: f.use_gamemode,
        use_wine_wayland: f.use_wine_wayland,
        ..g
    }
}

/// A text field's value: nothing when it is empty.
pub fn opt_str(s: String) -> (r: Option<String>)
    ensures
        r == field_value(s),
{
    if s.as_str().is_empty() {
        proof {
            assert(s@.len() == 0);
        }
        None
    } else {
        Some(s)
    }
}

/// The runner names the dialog offers.
pub fn runner_names(runners: &Vec<Runner>) -> (r: Vec<String>)
    ensures
        string_views(r@) == runner_choice_names(runners@),
{
    let mut r: Vec<String> = Vec::new();
    r.push(String::from_str("(Use global default)"));
    let mut i: usize = 0;
    while i < runners.len()
        invariant
            i <= runners@.len(),
            string_views(r@) == runner_choice_names(runners@.take(i as int)),
        decreases runners@.len() - i,
    {
        let ghost before = r@;
        let l = runners[i].label();
        r.push(l);
        assert(string_views(r@) =~= string_views(before).push(l@));
        assert(runner_labels(runners@.take(i + 1)) =~= runner_labels(runners@.take(i as int)).push(runner_label(runners@[i as int])));
        assert(string_views(r@) =~= runner_choice_names(runners@.take(i + 1)));
        i = i + 1;
    }
    assert(runners@.take(runners@.len() as int) =~= runners@);
    r
}

/// The runner binaries behind the names the dialog offers.
pub fn runner_binaries(runners: &Vec<Runner>) -> (r: Vec<Option<String>>)
    ensures
        opt_views(r@) == runner_choice_binaries(runners@),
{
    let mut r: Vec<Option<String>> = Vec::new();
    r.push(None);
    let mut i: usize = 0;
    while i < runners.len()
        invariant
            i <= runners@.len(),
            opt_views(r@) == runner_choice_binaries(runners@.take(i as int)),
        decreases runners@.len() - i,
    {
        let ghost before = r@;
        let b = runners[i].binary();
        r.push(Some(b));
        assert(opt_views(r@) =~= opt_views(before).push(Some(b@)));
        assert(runner_bins(runners@.take(i + 1)) =~= runner_bins(runners@.take(i as int)).push(Some(runner_binary(runners@[i as int]))));
        assert(opt_views(r@) =~= runner_choice_binaries(runners@.take(i + 1)));
        i = i + 1;
    }
    assert(runners@.take(runners@.len() as int) =~= runners@);
    r
}

/// The choice selected when the dialog opens: the first whose binary is the
/// game's runner; none when the game has no runner or it is not offered.
pub fn selected_runner(bins: &Vec<Option<String>>, current: &Option<String>) -> (r: Option<usize>)
    ensures
        match current {
            None => r is None,
            Some(c) => match r {
                Some(i) => is_first_choice(opt_views(bins@), c@, i as int),
                None => forall|j: int| 0 <= j < bins@.len() ==> opt_views(bins@)[j] != Some(c@),
            },
        },
{
    match current {
        None => None,
        Some(c) => {
            let mut i: usize = 0;
            while i < bins.len()
                invariant
                    i <= bins@.len(),
                    *current == Some(*c),
                    forall|j: int| 0 <= j < i ==> opt_views(bins@)[j] != Some(c@),
                decreases bins@.len() - i,
            {
                match &bins[i] {
                    Some(b) => {
                        if *b == *c {
                            return Some(i);
                        }
                    },
                    None => {},
                }
                i = i + 1;
            }
            None
        },
    }
}

/// The prefix shown when the dialog opens: the game's own, else its default.
pub fn initial_prefix(game: &Game) -> (r: String)
    ensures
        match game.wine_prefix {
            Some(p) => r == p,
            None => exists|b: Option<Seq<char>>| r@ == prefix_dir_spec(b, game.title@),
        },
{
    match &game.wine_prefix {
        Some(p) => p.clone(),
        None => default_prefix_for(game.title.as_str()),
    }
}

/// The game the saved form describes.
pub fn apply_game_settings(game: &Game, bins: &Vec<Option<String>>, form: GameSettingsForm) -> (r: Game)
    ensures
        r == settings_applied(*game, bins@, form),
{
    let ghost f = form;
    let i = form.runner_index as usize;
    let runner = if i < bins.len() { clone_opt(&bins[i]) } else { None };
    let mut g = game.clone();
    g.runner = runner;
    g.wine_prefix = opt_str(form.wine_prefix);
    g.launch_args = opt_str(form.launch_args);
    g.work_dir = opt_str(form.work_dir);
    g.pre_launch = opt_str(form.pre_launch);
    g.post_exit = opt_str(form.post_exit);
    g.env_vars = opt_str(form.env_vars);
    g.notes = opt_str(form.notes);
    g.favorite = form.favorite;
    g.hidden = form.hidden;
    g.use_mangohud = form.use_mangohud;
    g.use_gamemode = form.use_gamemode;
    g.use_wine_wayland = form.use_wine_wayland;
    g
}


/// Saving the settings dialog changes only the settings it shows: the
/// game's id, title, store, executable, cover, play time and install state
/// stay as they were.
pub proof fn law_settings_keep_game(g: Game, bins: Seq<Option<String>>, f: GameSettingsForm)
    ensures
        settings_applied(g, bins, f).id == g.id,
        settings_applied(g, bins, f).title == g.title,
        settings_applied(g, bins, f).store == g.store,
        settings_applied(g, bins, f).exe_path == g.exe_path,
        settings_applied(g, bins, f).install_path == g.install_path,
        settings_applied(g, bins, f).launch_mode == g.launch_mode,
        settings_applied(g, bins, f).cover_path == g.cover_path,
        settings_applied(g, bins, f).cover_url == g.cover_url,
        settings_applied(g, bins, f).play_time == g.play_time,
        settings_applied(g, bins, f).last_played == g.last_played,
        settings_applied(g, bins, f).installed == g.installed,
{
}

/// The first runner choice is the global default: choosing it leaves the
/// game without a runner of its own. The choice selected when the dialog
/// opens is the game's own runner, so saving without touching it keeps it.
pub proof fn law_runner_choice(rs: Seq<Runner>, bins: Seq<Option<String>>, r: Seq<char>, i: int)
    requires
        opt_views(bins) == runner_choice_binaries(rs),
    ensures
        chosen_runner(bins, 0) is None,
        is_first_choice(opt_views(bins), r, i) ==> opt_view(chosen_runner(bins, i)) == Some(r),
{
    assert(runner_choice_binaries(rs)[0] is None);
    assert(opt_views(bins).len() == bins.len());
    assert(bins.len() > 0);
    assert(opt_views(bins)[0] == opt_view(bins[0]));
    if is_first_choice(opt_views(bins), r, i) {
        assert(opt_views(bins)[i] == opt_view(bins[i]));
    }
}

/// Saving the dialog stores what its fields hold: each text field (prefix,
/// launch arguments, working directory, pre-launch and post-exit commands,
/// environment variables, notes) becomes the game's setting, and an empty
/// field unsets it; the switches become the game's flags, and the runner is
/// the one behind the chosen entry (none for the global default).
pub proof fn law_settings_saved(g: Game, bins: Seq<Option<String>>, f: GameSettingsForm)
    ensures
        ({
            let r = settings_applied(g, bins, f);
            &&& r.env_vars == (if f.env_vars@.len() == 0 { None } else { Some(f.env_vars) })
            &&& r.launch_args == (if f.launch_args@.len() == 0 { None } else { Some(f.launch_args) })
            &&& r.wine_prefix == (if f.wine_prefix@.len() == 0 { None } else { Some(f.wine_prefix) })
            &&& r.work_dir == (if f.work_dir@.len() == 0 { None } else { Some(f.work_dir) })
            &&& r.pre_launch == (if f.pre_launch@.len() == 0 { None } else { Some(f.pre_launch) })
            &&& r.post_exit == (if f.post_exit@.len() == 0 { None } else { Some(f.post_exit) })
            &&& r.notes == (if f.notes@.len() == 0 { None } else { Some(f.notes) })
            &&& r.favorite == f.favorite && r.hidden == f.hidden
            &&& r.use_mangohud == f.use_mangohud && r.use_gamemode == f.use_gamemode
            &&& r.use_wine_wayland == f.use_wine_wayland
            &&& r.runner == (if (f.runner_index as int) < bins.len() { bins[f.runner_index as int] } else { None })
        }),
{
}
} // verus!
