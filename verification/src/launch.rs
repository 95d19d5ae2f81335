//! Launch planning: how a game is started, as a list of directories to
//! create and programs to run. Probing the system (which programs exist, the
//! screen size, the environment) and carrying the plan out are the caller's.
use vstd::prelude::*;

use crate::command::{
    command_text, env_change, env_changes, plain_command, CommandSpec, CommandText, EnvChange,
    EnvOp,
};
use crate::game::{Game, LaunchMode};
use crate::config::Config;
use crate::paths::{clone_opt, file_name, file_name_of, join, joined, opt_view, or_else, parent, parent_of};
use crate::proton::{runner_binary, runner_label, Runner};
use crate::stores::arg;
use crate::text::{
    chars_of, decimal, lines, lines_spec, push_chars, push_decimal, push_str, same_chars,
    split_once, split_once_spec, string_of, string_views, strings_of, trim, trim_spec, views, words,
    words_spec, CharClass,
};

verus! {

// ───────────────────────────── environment and arguments ───────────────────

/// The `KEY=VALUE` pair on one line: the text before the first `=` and the
/// text after it, each without surrounding white space; nothing when the line
/// has no `=`.
pub open spec fn env_pair(line: Seq<char>) -> Option<(Seq<char>, Seq<char>)> {
    let (k, rest) = split_once_spec(line, '=');
    match rest {
        Some(v) => Some((trim_spec(k, CharClass::Whitespace), trim_spec(v, CharClass::Whitespace))),
        None => None,
    }
}

/// The pairs on the lines `ls`, in order.
pub open spec fn env_pairs_of(ls: Seq<Seq<char>>) -> Seq<(Seq<char>, Seq<char>)>
    decreases ls.len(),
{
    if ls.len() == 0 {
        seq![]
    } else {
        let rest = env_pairs_of(ls.drop_last());
        match env_pair(ls.last()) {
            Some(p) => rest.push(p),
            None => rest,
        }
    }
}

/// The environment pairs a game sets (its `env_vars`, one per line).
pub open spec fn game_env_pairs(text: Option<Seq<char>>) -> Seq<(Seq<char>, Seq<char>)> {
    env_pairs_of(lines_spec(or_else(text, Seq::empty())))
}

/// The extra arguments a game is launched with (its `launch_args`, split at
/// white space).
pub open spec fn game_args(text: Option<Seq<char>>) -> Seq<Seq<char>> {
    words_spec(or_else(text, Seq::empty()))
}

pub open spec fn pair_views(v: Seq<(String, String)>) -> Seq<(Seq<char>, Seq<char>)> {
    v.map_values(|p: (String, String)| (p.0@, p.1@))
}

/// Setting each pair, in order.
pub open spec fn assigns(ps: Seq<(Seq<char>, Seq<char>)>) -> Seq<EnvChange> {
    ps.map_values(|p: (Seq<char>, Seq<char>)| EnvChange::Assign(p.0, p.1))
}

/// Reads the `KEY=VALUE` lines of a game's environment settings.
pub fn parse_env_pairs(text: Option<&str>) -> (r: Vec<(String, String)>)
    ensures
        pair_views(r@) == game_env_pairs(match text { Some(t) => Some(t@), None => None }),
{
    let v = match text {
        Some(t) => chars_of(t),
        None => Vec::new(),
    };
    let ls = lines(v.as_slice());
    let ghost lv = views(ls@);
    let n = ls.len();
    let mut r: Vec<(String, String)> = Vec::new();
    let mut i: usize = 0;
    assert(lv.take(0) =~= Seq::<Seq<char>>::empty());
    while i < n
        invariant
            i <= n,
            n == ls@.len(),
            lv == views(ls@),
            pair_views(r@) == env_pairs_of(lv.take(i as int)),
        decreases n - i,
    {
        assert(lv.take(i + 1).drop_last() =~= lv.take(i as int));
        assert(lv.take(i + 1).last() == ls@[i as int]@);
        let (k, rest) = split_once(ls[i].as_slice(), '=');
        match rest {
            Some(val) => {
                let kt = trim(k.as_slice(), CharClass::Whitespace);
                let vt = trim(val.as_slice(), CharClass::Whitespace);
                let ghost before = r@;
                r.push((string_of(kt.as_slice()), string_of(vt.as_slice())));
                assert(pair_views(r@) =~= pair_views(before).push((kt@, vt@)));
            },
            None => {},
        }
        i = i + 1;
    }
    assert(lv.take(n as int) =~= lv);
    assert(v@ == or_else(match text { Some(t) => Some(t@), None => None }, Seq::empty())) by {
        if text is None {
            assert(v@ =~= Seq::<char>::empty());
        }
    }
    r
}

/// Splits a game's extra launch arguments at white space.
pub fn parse_launch_args(text: Option<&str>) -> (r: Vec<String>)
    ensures
        string_views(r@) == game_args(match text { Some(t) => Some(t@), None => None }),
{
    let v = match text {
        Some(t) => chars_of(t),
        None => Vec::new(),
    };
    assert(v@ == or_else(match text { Some(t) => Some(t@), None => None }, Seq::empty())) by {
        if text is None {
            assert(v@ =~= Seq::<char>::empty());
        }
    }
    let w = words(v.as_slice());
    strings_of(&w)
}

// ───────────────────────────── wrappers ────────────────────────────────────

/// The command line before the MangoHud wrapper: `gamemoderun` first when
/// GameMode is on, then the program and its arguments.
pub open spec fn wrapped_argv(program: Seq<char>, args: Seq<Seq<char>>, gamemode: bool) -> Seq<Seq<char>> {
    (if gamemode { seq!["gamemoderun"@] } else { Seq::empty() }) + seq![program] + args
}

/// The command that runs `program` with `args` under the wrappers a game
/// asks for: `mangohud [gamemoderun] program args`.
pub open spec fn wrapped_command(program: Seq<char>, args: Seq<Seq<char>>, mangohud: bool, gamemode: bool) -> CommandText {
    let full = wrapped_argv(program, args, gamemode);
    if mangohud {
        plain_command("mangohud"@, full)
    } else {
        plain_command(full[0], full.drop_first())
    }
}

fn build_wrapped(program: &str, args: &Vec<String>, game: &Game) -> (r: CommandSpec)
    ensures
        command_text(r) == wrapped_command(program@, string_views(args@), game.use_mangohud, game.use_gamemode),
{
    let mut full: Vec<String> = Vec::new();
    if game.use_gamemode {
        full.push(arg("gamemoderun"));
    }
    full.push(String::from_str(program));
    let n = args.len();
    let ghost head = string_views(full@);
    let mut i: usize = 0;
    assert(string_views(args@).take(0) =~= Seq::<Seq<char>>::empty());
    while i < n
        invariant
            i <= n,
            n == args@.len(),
            string_views(full@) == head + string_views(args@).take(i as int),
        decreases n - i,
    {
        let ghost before = full@;
        full.push(args[i].clone());
        assert(string_views(full@) =~= string_views(before).push(args@[i as int]@));
        assert(string_views(args@).take(i + 1) =~= string_views(args@).take(i as int).push(args@[i as int]@));
        i = i + 1;
    }
    assert(string_views(args@).take(n as int) =~= string_views(args@));
    assert(string_views(full@) =~= wrapped_argv(program@, string_views(args@), game.use_gamemode));
    if game.use_mangohud {
        CommandSpec::new(arg("mangohud"), full)
    } else {
        let first = full.remove(0);
        assert(string_views(full@) =~= wrapped_argv(program@, string_views(args@), game.use_gamemode).drop_first());
        CommandSpec::new(first, full)
    }
}


// ───────────────────────────── plans ───────────────────────────────────────

/// The settings of the Game Defaults tab that every launch takes.
#[derive(Debug)]
pub struct LaunchDefaults {
    /// The binary of the default runner, when one is set and installed
    /// (`default_runner_binary`).
    pub runner: Option<String>,
    /// `KEY=VALUE` lines applied to every launch.
    pub env_vars: String,
    /// Flags for every game without launch arguments of its own.
    pub launch_flags: String,
    pub use_mangohud: bool,
    pub use_gamemode: bool,
    pub use_wine_wayland: bool,
}

/// What the caller found out about the system before a launch, and the
/// defaults every launch takes.
#[derive(Debug)]
pub struct LaunchFacts {
    /// The Game Defaults settings (`launch_defaults`).
    pub defaults: LaunchDefaults,
    /// The default prefix for the game's title: its folder under the prefix
    /// base of the Game Defaults (`prefix_under`).
    pub default_prefix: String,
    /// The `umu-run` to use, if any (`resolve_umu`, the bundled copy looked
    /// for at `launch_umu_in`).
    pub umu_path: Option<String>,
    /// The prefix directory holds nothing yet (or cannot be read).
    pub prefix_empty: bool,
    /// The Wine binary beside the runner: `first_existing` of the
    /// `tool_candidates` for `wine`, else the runner itself.
    pub wine_bin: String,
    /// The `wineboot` beside the runner: `first_existing` of the
    /// `tool_candidates` for `wineboot`, else `wineboot`.
    pub wineboot: String,
    /// Steam's home directory (`steam_home_in`).
    pub steam_home: String,
    /// The value of `WAYLAND_DISPLAY`, when it is set.
    pub wayland_display: Option<String>,
    /// The screen size (`screen_resolution`).
    pub screen_width: u32,
    pub screen_height: u32,
}

/// How to launch a game.
#[derive(Debug)]
pub struct LaunchPlan {
    /// Directories to create first.
    pub create_dirs: Vec<String>,
    /// `wineboot --init`, run and waited for when the prefix is new.
    pub init_prefix: Option<CommandSpec>,
    /// Commands run and waited for before the game, their output discarded.
    pub prepare: Vec<CommandSpec>,
    /// Registry edits run and waited for, their output discarded.
    pub registry: Vec<CommandSpec>,
    /// The game itself, spawned and left running.
    pub game: CommandSpec,
}

/// A launch plan, as text.
#[verifier::ext_equal]
pub struct PlanText {
    pub create_dirs: Seq<Seq<char>>,
    pub init_prefix: Option<CommandText>,
    pub prepare: Seq<CommandText>,
    pub registry: Seq<CommandText>,
    pub game: CommandText,
}

pub open spec fn command_texts(v: Seq<CommandSpec>) -> Seq<CommandText> {
    v.map_values(|c: CommandSpec| command_text(c))
}

pub open spec fn plan_text(p: LaunchPlan) -> PlanText {
    PlanText {
        create_dirs: string_views(p.create_dirs@),
        init_prefix: match p.init_prefix {
            Some(c) => Some(command_text(c)),
            None => None,
        },
        prepare: command_texts(p.prepare@),
        registry: command_texts(p.registry@),
        game: command_text(p.game),
    }
}

/// The runner a Windows game uses (`wine` unless it names one).
pub open spec fn runner_of(g: Game) -> Seq<char> {
    or_else(opt_view(g.runner), "wine"@)
}

/// The prefix a Windows game uses: its own when it names a non-empty one,
/// the default otherwise.
pub open spec fn prefix_of(g: Game, default_prefix: Seq<char>) -> Seq<char> {
    match opt_view(g.wine_prefix) {
        Some(p) => if p.len() > 0 { p } else { default_prefix },
        None => default_prefix,
    }
}

/// The file name of the runner (the runner itself when it has none).
pub open spec fn runner_name(runner: Seq<char>) -> Seq<char> {
    or_else(file_name_of(runner), runner)
}

/// A Proton runner: its file is `proton` or `umu-run`. Any other runner is
/// run as plain Wine.
pub open spec fn is_proton_runner(runner: Seq<char>) -> bool {
    runner_name(runner) == "proton"@ || runner_name(runner) == "umu-run"@
}

/// Where a game runs: its own working directory, else the executable's
/// directory, else `/`.
pub open spec fn workdir_of(g: Game, exe: Seq<char>) -> Seq<char> {
    or_else(opt_view(g.work_dir), or_else(parent_of(exe), "/"@))
}

/// The game's install directory as Proton is told it: the executable's
/// directory (empty when it has none).
pub open spec fn install_dir_of(exe: Seq<char>) -> Seq<char> {
    or_else(parent_of(exe), Seq::empty())
}

/// A screen size as Wine's registry takes it (`1920x1080`).
pub open spec fn resolution_text(w: u32, h: u32) -> Seq<char> {
    decimal(w as nat) + "x"@ + decimal(h as nat)
}

pub open spec fn with_env(c: CommandText, extra: Seq<EnvChange>) -> CommandText {
    CommandText { env: c.env + extra, ..c }
}

/// The command run from `cwd` in a process group of its own.
pub open spec fn in_dir(c: CommandText, cwd: Seq<char>) -> CommandText {
    CommandText { cwd: Some(cwd), new_process_group: true, ..c }
}

pub open spec fn steam_game_id(id: Seq<char>) -> Seq<char> {
    "novadream-"@ + id
}

/// The variables set for a game run through `umu-run`.
pub open spec fn umu_pairs(prefix: Seq<char>, proton_dir: Seq<char>, install: Seq<char>, id: Seq<char>) -> Seq<(Seq<char>, Seq<char>)> {
    seq![
        ("WINEPREFIX"@, prefix), ("GAMEID"@, "0"@), ("PROTONPATH"@, proton_dir),
        ("STEAM_COMPAT_DATA_PATH"@, prefix), ("STEAM_COMPAT_INSTALL_PATH"@, install),
        ("SteamAppId"@, "0"@), ("SteamGameId"@, steam_game_id(id)), ("WINEESYNC"@, "1"@),
        ("WINEFSYNC"@, "1"@), ("WINEDLLOVERRIDES"@, "winemenubuilder.exe=d"@), ("LD_PRELOAD"@, ""@),
    ]
}

/// The variables set for a game run by calling Proton directly.
pub open spec fn proton_pairs(prefix: Seq<char>, install: Seq<char>, steam_home: Seq<char>, id: Seq<char>) -> Seq<(Seq<char>, Seq<char>)> {
    seq![
        ("STEAM_COMPAT_DATA_PATH"@, prefix), ("STEAM_COMPAT_INSTALL_PATH"@, install),
        ("STEAM_COMPAT_CLIENT_INSTALL_PATH"@, steam_home), ("SteamAppId"@, "0"@),
        ("SteamGameId"@, steam_game_id(id)), ("WINEPREFIX"@, prefix + "/pfx"@), ("WINEESYNC"@, "1"@),
        ("WINEFSYNC"@, "1"@), ("WINEDLLOVERRIDES"@, "winemenubuilder.exe=d"@), ("LD_PRELOAD"@, ""@),
    ]
}

/// The variables set for a game run with plain Wine.
pub open spec fn wine_pairs(prefix: Seq<char>) -> Seq<(Seq<char>, Seq<char>)> {
    seq![
        ("WINEPREFIX"@, prefix), ("WINEESYNC"@, "1"@), ("WINEFSYNC"@, "1"@),
        ("WINEDLLOVERRIDES"@, "winemenubuilder.exe=d"@),
    ]
}

/// Running on Wayland: `DISPLAY` removed, `WAYLAND_DISPLAY` passed on when
/// it is set.
pub open spec fn wayland_base_env(wd: Option<Seq<char>>) -> Seq<EnvChange> {
    seq![EnvChange::Remove("DISPLAY"@)] + match wd {
        Some(d) => seq![EnvChange::Assign("WAYLAND_DISPLAY"@, d)],
        None => Seq::empty(),
    }
}

/// The game's Wayland settings: none unless it uses wine-wayland; Proton
/// and UMU are also told `PROTON_WAYLAND=1`.
pub open spec fn wayland_env(on: bool, wd: Option<Seq<char>>, proton_like: bool) -> Seq<EnvChange> {
    if !on {
        Seq::empty()
    } else {
        wayland_base_env(wd) + if proton_like {
            seq![EnvChange::Assign("PROTON_WAYLAND"@, "1"@)]
        } else {
            Seq::empty()
        }
    }
}

/// A Wine command against the prefix, with the game's Wayland settings.
pub open spec fn prefix_command(wine_bin: Seq<char>, args: Seq<Seq<char>>, prefix: Seq<char>, wayland: bool, wd: Option<Seq<char>>) -> CommandText {
    CommandText {
        program: wine_bin,
        args,
        env: seq![EnvChange::Assign("WINEPREFIX"@, prefix)] + if wayland { wayland_base_env(wd) } else { Seq::empty() },
        cwd: None,
        new_process_group: false,
    }
}

pub open spec fn reg_add_args(key: Seq<char>, name: Seq<char>, value: Seq<char>) -> Seq<Seq<char>> {
    seq!["reg"@, "add"@, key, "/v"@, name, "/t"@, "REG_SZ"@, "/d"@, value, "/f"@]
}

pub open spec fn reg_delete_args(key: Seq<char>, name: Seq<char>) -> Seq<Seq<char>> {
    seq!["reg"@, "delete"@, key, "/v"@, name, "/f"@]
}

/// The registry edits made before a plain-Wine game starts. With
/// wine-wayland: the Wayland graphics driver, the screen size for both the
/// Wayland and X11 drivers, no virtual desktop. Without: no driver override,
/// the screen size for X11, no virtual desktop.
pub open spec fn registry_edits(wine_bin: Seq<char>, prefix: Seq<char>, wayland: bool, wd: Option<Seq<char>>, res: Seq<char>) -> Seq<CommandText> {
    if wayland {
        seq![
            prefix_command(wine_bin, reg_add_args("HKCU\\Software\\Wine\\Drivers"@, "Graphics"@, "wayland"@), prefix, true, wd),
            prefix_command(wine_bin, reg_add_args("HKCU\\Software\\Wine\\Wayland Driver"@, "ScreenResolution"@, res), prefix, true, wd),
            prefix_command(wine_bin, reg_add_args("HKCU\\Software\\Wine\\X11 Driver"@, "ScreenResolution"@, res), prefix, true, wd),
            prefix_command(wine_bin, reg_delete_args("HKCU\\Software\\Wine\\Explorer"@, "Desktop"@), prefix, true, wd),
        ]
    } else {
        seq![
            prefix_command(wine_bin, reg_delete_args("HKCU\\Software\\Wine\\Drivers"@, "Graphics"@), prefix, false, wd),
            prefix_command(wine_bin, reg_add_args("HKCU\\Software\\Wine\\X11 Driver"@, "ScreenResolution"@, res), prefix, false, wd),
            prefix_command(wine_bin, reg_delete_args("HKCU\\Software\\Wine\\Explorer"@, "Desktop"@), prefix, false, wd),
        ]
    }
}

/// `wineboot --init` for a new prefix.
pub open spec fn wineboot_command(wineboot: Seq<char>, prefix: Seq<char>) -> CommandText {
    CommandText {
        program: wineboot,
        args: seq!["--init"@],
        env: seq![EnvChange::Assign("WINEPREFIX"@, prefix)],
        cwd: None,
        new_process_group: false,
    }
}

/// The game command for a Windows game before its environment tail: through
/// `umu-run` when the runner is Proton and `umu-run` was found, by calling
/// Proton directly when it was not, or with plain Wine.
pub open spec fn windows_base(g: Game, f: LaunchFacts, exe: Seq<char>, prefix: Seq<char>) -> CommandText {
    let runner = runner_of(g);
    let proton = is_proton_runner(runner);
    let use_umu = proton && f.umu_path is Some;
    let install = install_dir_of(exe);
    let extra = game_args(opt_view(g.launch_args));
    let mh = g.use_mangohud;
    let gm = g.use_gamemode;
    if use_umu {
        with_env(wrapped_command(f.umu_path->0@, seq![exe] + extra, mh, gm),
            assigns(umu_pairs(prefix, or_else(parent_of(runner), runner), install, g.id@)))
    } else if proton {
        with_env(wrapped_command(runner, seq!["waitforexitandrun"@, exe] + extra, mh, gm),
            assigns(proton_pairs(prefix, install, f.steam_home@, g.id@)))
    } else {
        with_env(wrapped_command(runner, seq![exe] + extra, mh, gm), assigns(wine_pairs(prefix)))
    }
}

/// The environment changes after the base ones: Wayland settings, the
/// large-address hint under UMU, then the global variables and the game's
/// own.
pub open spec fn windows_tail(g: Game, f: LaunchFacts) -> Seq<EnvChange> {
    let proton = is_proton_runner(runner_of(g));
    let use_umu = proton && f.umu_path is Some;
    wayland_env(g.use_wine_wayland, opt_view(f.wayland_display), proton)
        + (if use_umu { seq![EnvChange::Assign("PROTON_FORCE_LARGE_ADDRESS_AWARE"@, "1"@)] } else { Seq::empty() })
        + assigns(env_pairs_for(g, f))
}

/// The plan for a Windows game with executable `exe`.
pub open spec fn windows_plan(g: Game, f: LaunchFacts, exe: Seq<char>) -> PlanText {
    let prefix = prefix_of(g, f.default_prefix@);
    let proton = is_proton_runner(runner_of(g));
    let use_umu = proton && f.umu_path is Some;
    let wd = opt_view(f.wayland_display);
    PlanText {
        create_dirs: if proton && !use_umu { seq![prefix, f.steam_home@] } else { seq![prefix] },
        init_prefix: if !proton && f.prefix_empty { Some(wineboot_command(f.wineboot@, prefix)) } else { None },
        prepare: if !proton {
            seq![prefix_command(f.wine_bin@, reg_delete_args("HKCU\\Software\\Wine\\Explorer"@, "Desktop"@), prefix, false, wd)]
        } else {
            Seq::empty()
        },
        registry: if !proton {
            registry_edits(f.wine_bin@, prefix, g.use_wine_wayland, wd,
                resolution_text(f.screen_width, f.screen_height))
        } else {
            Seq::empty()
        },
        game: in_dir(with_env(windows_base(g, f, exe, prefix), windows_tail(g, f)), workdir_of(g, exe)),
    }
}

/// The game as it is launched: the Game Defaults fill in what the game does
/// not set itself. A game without a runner of its own takes the default
/// runner; a game without launch arguments takes the global launch flags;
/// MangoHud, GameMode and wine-wayland are on when the game or the defaults
/// turn them on. (The global environment is added in `env_pairs_for`.)
pub open spec fn effective_game(g: Game, d: LaunchDefaults) -> Game {
    Game {
        runner: match g.runner {
            Some(r) => Some(r),
            None => d.runner,
        },
        launch_args: match g.launch_args {
            Some(a) => Some(a),
            None => Some(d.launch_flags),
        },
        use_mangohud: g.use_mangohud || d.use_mangohud,
        use_gamemode: g.use_gamemode || d.use_gamemode,
        use_wine_wayland: g.use_wine_wayland || d.use_wine_wayland,
        ..g
    }
}

/// The variables a launch sets: the global ones first, then the game's own,
/// which so win over them.
pub open spec fn env_pairs_for(g: Game, f: LaunchFacts) -> Seq<(Seq<char>, Seq<char>)> {
    game_env_pairs(Some(f.defaults.env_vars@)) + game_env_pairs(opt_view(g.env_vars))
}

/// How a game is launched; none when it has no executable. The game is first
/// completed by the defaults (`effective_game`). Native games run from their
/// working directory under their wrappers with their environment; browser
/// games are opened with `xdg-open`; Windows games go through `windows_plan`.
pub open spec fn launch_plan_spec(g0: Game, f: LaunchFacts) -> Option<PlanText> {
    let g = effective_game(g0, f.defaults);
    match g.exe_path {
        None => None,
        Some(e) => {
            let exe = e@;
            Some(match g.launch_mode {
                LaunchMode::Linux => PlanText {
                    create_dirs: Seq::empty(),
                    init_prefix: None,
                    prepare: Seq::empty(),
                    registry: Seq::empty(),
                    game: in_dir(with_env(
                        wrapped_command(exe, game_args(opt_view(g.launch_args)), g.use_mangohud, g.use_gamemode),
                        assigns(env_pairs_for(g, f))), workdir_of(g, exe)),
                },
                LaunchMode::Browser => PlanText {
                    create_dirs: Seq::empty(),
                    init_prefix: None,
                    prepare: Seq::empty(),
                    registry: Seq::empty(),
                    game: plain_command("xdg-open"@, seq![exe]),
                },
                LaunchMode::Windows => windows_plan(g, f, exe),
            })
        },
    }
}


// ───────────────────────────── building plans ──────────────────────────────

fn kv(k: &str, v: &str) -> (r: (String, String))
    ensures
        r.0@ == k@,
        r.1@ == v@,
{
    (String::from_str(k), String::from_str(v))
}

fn add_assigns(c: &mut CommandSpec, ps: &Vec<(String, String)>)
    ensures
        command_text(*final(c)) == with_env(command_text(*old(c)), assigns(pair_views(ps@))),
{
    let n = ps.len();
    let mut i: usize = 0;
    let ghost start = command_text(*c);
    assert(start =~= with_env(start, assigns(pair_views(ps@.take(0)))));
    while i < n
        invariant
            i <= n,
            n == ps@.len(),
            command_text(*c) == with_env(start, assigns(pair_views(ps@.take(i as int)))),
        decreases n - i,
    {
        c.set_env(ps[i].0.as_str(), ps[i].1.as_str());
        assert(assigns(pair_views(ps@.take(i + 1))) =~= assigns(pair_views(ps@.take(i as int))).push(
            EnvChange::Assign(ps@[i as int].0@, ps@[i as int].1@)));
        assert(command_text(*c) =~= with_env(start, assigns(pair_views(ps@.take(i + 1)))));
        i = i + 1;
    }
    assert(ps@.take(n as int) =~= ps@);
}

fn set_dir(c: &mut CommandSpec, cwd: String)
    ensures
        command_text(*final(c)) == in_dir(command_text(*old(c)), cwd@),
{
    c.cwd = Some(cwd);
    c.new_process_group = true;
    assert(command_text(*c) =~= in_dir(command_text(*old(c)), cwd@));
}

fn concat(a: &str, b: &str) -> (r: String)
    ensures
        r@ == a@ + b@,
{
    let mut v = chars_of(a);
    push_str(&mut v, b);
    string_of(v.as_slice())
}

fn with_wayland_base(c: &mut CommandSpec, wd: &Option<String>)
    ensures
        command_text(*final(c)) == with_env(command_text(*old(c)), wayland_base_env(opt_view(*wd))),
{
    c.remove_env("DISPLAY");
    match wd {
        Some(d) => c.set_env("WAYLAND_DISPLAY", d.as_str()),
        None => {},
    }
    assert(command_text(*c) =~= with_env(command_text(*old(c)), wayland_base_env(opt_view(*wd))));
}

fn prefix_cmd(wine_bin: &str, args: Vec<String>, prefix: &str, wayland: bool, wd: &Option<String>) -> (r: CommandSpec)
    ensures
        command_text(r) == prefix_command(wine_bin@, string_views(args@), prefix@, wayland, opt_view(*wd)),
{
    let mut c = CommandSpec::new(String::from_str(wine_bin), args);
    c.set_env("WINEPREFIX", prefix);
    if wayland {
        with_wayland_base(&mut c, wd);
    }
    assert(command_text(c) =~= prefix_command(wine_bin@, string_views(args@), prefix@, wayland, opt_view(*wd)));
    c
}

fn reg_add(wine_bin: &str, key: &str, name: &str, value: &str, prefix: &str, wayland: bool, wd: &Option<String>) -> (r: CommandSpec)
    ensures
        command_text(r) == prefix_command(wine_bin@, reg_add_args(key@, name@, value@), prefix@, wayland, opt_view(*wd)),
{
    let args = vec![arg("reg"), arg("add"), arg(key), arg("/v"), arg(name), arg("/t"), arg("REG_SZ"), arg("/d"), arg(value), arg("/f")];
    assert(string_views(args@) =~= reg_add_args(key@, name@, value@));
    prefix_cmd(wine_bin, args, prefix, wayland, wd)
}

fn reg_delete(wine_bin: &str, key: &str, name: &str, prefix: &str, wayland: bool, wd: &Option<String>) -> (r: CommandSpec)
    ensures
        command_text(r) == prefix_command(wine_bin@, reg_delete_args(key@, name@), prefix@, wayland, opt_view(*wd)),
{
    let args = vec![arg("reg"), arg("delete"), arg(key), arg("/v"), arg(name), arg("/f")];
    assert(string_views(args@) =~= reg_delete_args(key@, name@));
    prefix_cmd(wine_bin, args, prefix, wayland, wd)
}

fn registry_commands(wine_bin: &str, prefix: &str, wayland: bool, wd: &Option<String>, res: &str) -> (r: Vec<CommandSpec>)
    ensures
        command_texts(r@) == registry_edits(wine_bin@, prefix@, wayland, opt_view(*wd), res@),
{
    let mut r: Vec<CommandSpec> = Vec::new();
    if wayland {
        r.push(reg_add(wine_bin, "HKCU\\Software\\Wine\\Drivers", "Graphics", "wayland", prefix, true, wd));
        r.push(reg_add(wine_bin, "HKCU\\Software\\Wine\\Wayland Driver", "ScreenResolution", res, prefix, true, wd));
        r.push(reg_add(wine_bin, "HKCU\\Software\\Wine\\X11 Driver", "ScreenResolution", res, prefix, true, wd));
        r.push(reg_delete(wine_bin, "HKCU\\Software\\Wine\\Explorer", "Desktop", prefix, true, wd));
    } else {
        r.push(reg_delete(wine_bin, "HKCU\\Software\\Wine\\Drivers", "Graphics", prefix, false, wd));
        r.push(reg_add(wine_bin, "HKCU\\Software\\Wine\\X11 Driver", "ScreenResolution", res, prefix, false, wd));
        r.push(reg_delete(wine_bin, "HKCU\\Software\\Wine\\Explorer", "Desktop", prefix, false, wd));
    }
    assert(command_texts(r@) =~= registry_edits(wine_bin@, prefix@, wayland, opt_view(*wd), res@));
    r
}

fn resolution_string(w: u32, h: u32) -> (r: String)
    ensures
        r@ == resolution_text(w, h),
{
    let mut v: Vec<char> = Vec::new();
    push_decimal(&mut v, w as u128);
    push_str(&mut v, "x");
    push_decimal(&mut v, h as u128);
    string_of(v.as_slice())
}

fn exe_then(first: &[String], exe: &String, extra: &Vec<String>) -> (r: Vec<String>)
    ensures
        string_views(r@) == string_views(first@) + seq![exe@] + string_views(extra@),
{
    let mut r: Vec<String> = Vec::new();
    let mut i: usize = 0;
    while i < first.len()
        invariant
            i <= first@.len(),
            string_views(r@) == string_views(first@.take(i as int)),
        decreases first@.len() - i,
    {
        let ghost before = r@;
        r.push(first[i].clone());
        assert(string_views(r@) =~= string_views(before).push(first@[i as int]@));
        assert(string_views(first@.take(i + 1)) =~= string_views(first@.take(i as int)).push(first@[i as int]@));
        i = i + 1;
    }
    assert(first@.take(first@.len() as int) =~= first@);
    let ghost mid = r@;
    r.push(exe.clone());
    assert(string_views(r@) =~= string_views(mid).push(exe@));
    let ghost head = string_views(r@);
    let n = extra.len();
    let mut j: usize = 0;
    assert(string_views(extra@.take(0)) =~= Seq::<Seq<char>>::empty());
    while j < n
        invariant
            j <= n,
            n == extra@.len(),
            string_views(r@) == head + string_views(extra@.take(j as int)),
        decreases n - j,
    {
        let ghost before = r@;
        r.push(extra[j].clone());
        assert(string_views(r@) =~= string_views(before).push(extra@[j as int]@));
        assert(string_views(extra@.take(j + 1)) =~= string_views(extra@.take(j as int)).push(extra@[j as int]@));
        j = j + 1;
    }
    assert(extra@.take(n as int) =~= extra@);
    r
}

fn runner_and_prefix(game: &Game, facts: &LaunchFacts) -> (r: (String, String, bool))
    ensures
        r.0@ == runner_of(*game),
        r.1@ == prefix_of(*game, facts.default_prefix@),
        r.2 == is_proton_runner(runner_of(*game)),
{
    let runner: String = match &game.runner {
        Some(r) => r.clone(),
        None => String::from_str("wine"),
    };
    let prefix: String = match &game.wine_prefix {
        Some(p) => if p.as_str().is_empty() { facts.default_prefix.clone() } else { p.clone() },
        None => facts.default_prefix.clone(),
    };
    let rname = match file_name(runner.as_str()) {
        Some(n) => n,
        None => runner.clone(),
    };
    let rn = chars_of(rname.as_str());
    let proton = same_chars(rn.as_slice(), chars_of("proton").as_slice())
        || same_chars(rn.as_slice(), chars_of("umu-run").as_slice());
    (runner, prefix, proton)
}

fn umu_base(game: &Game, umu: &str, runner: &str, prefix: &str, exe: &String, extra: &Vec<String>, install: &str)
    -> (c: CommandSpec)
    ensures
        command_text(c) == with_env(wrapped_command(umu@, seq![exe@] + string_views(extra@), game.use_mangohud, game.use_gamemode),
            assigns(umu_pairs(prefix@, or_else(parent_of(runner@), runner@), install@, game.id@))),
{
    let e: Vec<String> = Vec::new();
    assert(string_views(e@) =~= Seq::<Seq<char>>::empty());
    let argv = exe_then(e.as_slice(), exe, extra);
    assert(string_views(argv@) =~= seq![exe@] + string_views(extra@));
    let proton_dir = match parent(runner) {
        Some(p) => p,
        None => String::from_str(runner),
    };
    let mut c = build_wrapped(umu, &argv, game);
    let sgid = concat("novadream-", game.id.as_str());
    let ps = vec![
        kv("WINEPREFIX", prefix), kv("GAMEID", "0"), kv("PROTONPATH", proton_dir.as_str()),
        kv("STEAM_COMPAT_DATA_PATH", prefix), kv("STEAM_COMPAT_INSTALL_PATH", install),
        kv("SteamAppId", "0"), kv("SteamGameId", sgid.as_str()), kv("WINEESYNC", "1"),
        kv("WINEFSYNC", "1"), kv("WINEDLLOVERRIDES", "winemenubuilder.exe=d"), kv("LD_PRELOAD", ""),
    ];
    assert(pair_views(ps@) =~= umu_pairs(prefix@, proton_dir@, install@, game.id@));
    add_assigns(&mut c, &ps);
    c
}

fn proton_base(game: &Game, runner: &str, prefix: &str, exe: &String, extra: &Vec<String>, install: &str,
    steam_home: &str) -> (c: CommandSpec)
    ensures
        command_text(c) == with_env(wrapped_command(runner@, seq!["waitforexitandrun"@, exe@] + string_views(extra@),
            game.use_mangohud, game.use_gamemode), assigns(proton_pairs(prefix@, install@, steam_home@, game.id@))),
{
    let w = vec![arg("waitforexitandrun")];
    assert(string_views(w@) =~= seq!["waitforexitandrun"@]);
    let argv = exe_then(w.as_slice(), exe, extra);
    assert(string_views(argv@) =~= seq!["waitforexitandrun"@, exe@] + string_views(extra@));
    let mut c = build_wrapped(runner, &argv, game);
    let sgid = concat("novadream-", game.id.as_str());
    let pfx = concat(prefix, "/pfx");
    let ps = vec![
        kv("STEAM_COMPAT_DATA_PATH", prefix), kv("STEAM_COMPAT_INSTALL_PATH", install),
        kv("STEAM_COMPAT_CLIENT_INSTALL_PATH", steam_home), kv("SteamAppId", "0"),
        kv("SteamGameId", sgid.as_str()), kv("WINEPREFIX", pfx.as_str()), kv("WINEESYNC", "1"),
        kv("WINEFSYNC", "1"), kv("WINEDLLOVERRIDES", "winemenubuilder.exe=d"), kv("LD_PRELOAD", ""),
    ];
    assert(pair_views(ps@) =~= proton_pairs(prefix@, install@, steam_home@, game.id@));
    add_assigns(&mut c, &ps);
    c
}

fn wine_base(game: &Game, runner: &str, prefix: &str, exe: &String, extra: &Vec<String>) -> (c: CommandSpec)
    ensures
        command_text(c) == with_env(wrapped_command(runner@, seq![exe@] + string_views(extra@),
            game.use_mangohud, game.use_gamemode), assigns(wine_pairs(prefix@))),
{
    let e: Vec<String> = Vec::new();
    assert(string_views(e@) =~= Seq::<Seq<char>>::empty());
    let argv = exe_then(e.as_slice(), exe, extra);
    assert(string_views(argv@) =~= seq![exe@] + string_views(extra@));
    let mut c = build_wrapped(runner, &argv, game);
    let ps = vec![
        kv("WINEPREFIX", prefix), kv("WINEESYNC", "1"), kv("WINEFSYNC", "1"),
        kv("WINEDLLOVERRIDES", "winemenubuilder.exe=d"),
    ];
    assert(pair_views(ps@) =~= wine_pairs(prefix@));
    add_assigns(&mut c, &ps);
    c
}

#[verifier::rlimit(40)]
#[verifier::spinoff_prover]
fn windows_game_command(game: &Game, facts: &LaunchFacts, exe: &String, extra: &Vec<String>,
    pairs: &Vec<(String, String)>, workdir: String, runner: &String, prefix: &String, proton: bool) -> (c: CommandSpec)
    requires
        string_views(extra@) == game_args(opt_view(game.launch_args)),
        pair_views(pairs@) == env_pairs_for(*game, *facts),
        workdir@ == workdir_of(*game, exe@),
        runner@ == runner_of(*game),
        prefix@ == prefix_of(*game, facts.default_prefix@),
        proton == is_proton_runner(runner_of(*game)),
    ensures
        command_text(c) == in_dir(with_env(windows_base(*game, *facts, exe@, prefix@), windows_tail(*game, *facts)),
            workdir_of(*game, exe@)),
{
    let use_umu = proton && facts.umu_path.is_some();
    let install: String = match parent(exe.as_str()) {
        Some(p) => p,
        None => String::from_str(""),
    };
    assert(""@ =~= Seq::<char>::empty()) by {
        reveal_strlit("");
    }
    let mut c = if use_umu {
        let umu = match &facts.umu_path {
            Some(u) => u.clone(),
            None => String::new(),
        };
        umu_base(game, umu.as_str(), runner.as_str(), prefix.as_str(), exe, extra, install.as_str())
    } else if proton {
        proton_base(game, runner.as_str(), prefix.as_str(), exe, extra, install.as_str(), facts.steam_home.as_str())
    } else {
        wine_base(game, runner.as_str(), prefix.as_str(), exe, extra)
    };
    assert(command_text(c) == windows_base(*game, *facts, exe@, prefix@));
    let ghost base = command_text(c);
    if game.use_wine_wayland {
        with_wayland_base(&mut c, &facts.wayland_display);
        if proton {
            c.set_env("PROTON_WAYLAND", "1");
        }
    }
    if use_umu {
        c.set_env("PROTON_FORCE_LARGE_ADDRESS_AWARE", "1");
    }
    let ghost mid = command_text(c);
    assert(mid =~= with_env(base, wayland_env(game.use_wine_wayland, opt_view(facts.wayland_display), proton)
        + (if use_umu { seq![EnvChange::Assign("PROTON_FORCE_LARGE_ADDRESS_AWARE"@, "1"@)] } else { Seq::empty() })));
    add_assigns(&mut c, pairs);
    assert(command_text(c) =~= with_env(base, windows_tail(*game, *facts)));
    set_dir(&mut c, workdir);
    c
}

fn plan_windows(game: &Game, facts: &LaunchFacts, exe: &String, extra: &Vec<String>,
    pairs: &Vec<(String, String)>, workdir: String) -> (r: LaunchPlan)
    requires
        string_views(extra@) == game_args(opt_view(game.launch_args)),
        pair_views(pairs@) == env_pairs_for(*game, *facts),
        workdir@ == workdir_of(*game, exe@),
    ensures
        plan_text(r) == windows_plan(*game, *facts, exe@),
{
    let (runner, prefix, proton) = runner_and_prefix(game, facts);
    let use_umu = proton && facts.umu_path.is_some();
    let c = windows_game_command(game, facts, exe, extra, pairs, workdir, &runner, &prefix, proton);
    let mut dirs: Vec<String> = Vec::new();
    dirs.push(prefix.clone());
    if proton && !use_umu {
        dirs.push(facts.steam_home.clone());
    }
    let init_prefix = if !proton && facts.prefix_empty {
        let mut w = CommandSpec::new(facts.wineboot.clone(), vec![arg("--init")]);
        w.set_env("WINEPREFIX", prefix.as_str());
        assert(command_text(w) =~= wineboot_command(facts.wineboot@, prefix@));
        Some(w)
    } else {
        None
    };
    let mut prepare: Vec<CommandSpec> = Vec::new();
    let mut registry: Vec<CommandSpec> = Vec::new();
    if !proton {
        prepare.push(reg_delete(facts.wine_bin.as_str(), "HKCU\\Software\\Wine\\Explorer", "Desktop",
            prefix.as_str(), false, &facts.wayland_display));
        let res = resolution_string(facts.screen_width, facts.screen_height);
        registry = registry_commands(facts.wine_bin.as_str(), prefix.as_str(), game.use_wine_wayland,
            &facts.wayland_display, res.as_str());
    }
    let r = LaunchPlan { create_dirs: dirs, init_prefix, prepare, registry, game: c };
    proof {
        let spec = windows_plan(*game, *facts, exe@);
        assert(string_views(r.create_dirs@) =~= spec.create_dirs);
        assert(command_texts(r.prepare@) =~= spec.prepare);
        assert(command_texts(r.registry@) =~= spec.registry);
        assert(plan_text(r) =~= spec);
    }
    r
}


fn workdir_for(game: &Game, exe: &str) -> (r: String)
    ensures
        r@ == workdir_of(*game, exe@),
{
    match &game.work_dir {
        Some(w) => w.clone(),
        None => match parent(exe) {
            Some(p) => p,
            None => String::from_str("/"),
        },
    }
}

/// How to launch `game` under the Game Defaults in `facts`, given what the
/// caller found out about the system (the rest of `facts` is read for Windows
/// games only). None when the game has no executable.
pub fn plan_launch(game: &Game, facts: &LaunchFacts) -> (r: Option<LaunchPlan>)
    ensures
        match r {
            Some(p) => launch_plan_spec(*game, *facts) == Some(plan_text(p)),
            None => launch_plan_spec(*game, *facts) is None,
        },
{
    let ghost asked = *game;
    let launched = apply_defaults(game, &facts.defaults);
    let game = &launched;
    let exe: String = match &game.exe_path {
        Some(e) => e.clone(),
        None => return None,
    };
    let mut pairs = parse_env_pairs(Some(facts.defaults.env_vars.as_str()));
    let mut own = parse_env_pairs(match &game.env_vars { Some(t) => Some(t.as_str()), None => None });
    let ghost pa = pairs@;
    let ghost po = own@;
    pairs.append(&mut own);
    assert(pair_views(pairs@) =~= pair_views(pa) + pair_views(po));
    assert(pair_views(pairs@) == env_pairs_for(*game, *facts));
    let extra = parse_launch_args(match &game.launch_args { Some(t) => Some(t.as_str()), None => None });
    assert(string_views(extra@) == game_args(opt_view(game.launch_args)));
    let workdir = workdir_for(game, exe.as_str());
    match game.launch_mode {
        LaunchMode::Linux => {
            let mut c = build_wrapped(exe.as_str(), &extra, game);
            add_assigns(&mut c, &pairs);
            set_dir(&mut c, workdir);
            let r = LaunchPlan { create_dirs: Vec::new(), init_prefix: None, prepare: Vec::new(), registry: Vec::new(), game: c };
            proof {
                assert(string_views(r.create_dirs@) =~= Seq::<Seq<char>>::empty());
                assert(command_texts(r.prepare@) =~= Seq::<CommandText>::empty());
                assert(command_texts(r.registry@) =~= Seq::<CommandText>::empty());
                assert(plan_text(r) =~= launch_plan_spec(asked, *facts)->0);
            }
            Some(r)
        },
        LaunchMode::Browser => {
            let c = CommandSpec::new(arg("xdg-open"), vec![exe.clone()]);
            let r = LaunchPlan { create_dirs: Vec::new(), init_prefix: None, prepare: Vec::new(), registry: Vec::new(), game: c };
            proof {
                assert(string_views(r.create_dirs@) =~= Seq::<Seq<char>>::empty());
                assert(command_texts(r.prepare@) =~= Seq::<CommandText>::empty());
                assert(command_texts(r.registry@) =~= Seq::<CommandText>::empty());
                assert(command_text(r.game) =~= plain_command("xdg-open"@, seq![exe@]));
                assert(plan_text(r) =~= launch_plan_spec(asked, *facts)->0);
            }
            Some(r)
        },
        LaunchMode::Windows => {
            let r = plan_windows(game, facts, &exe, &extra, &pairs, workdir);
            Some(r)
        },
    }
}


// ───────────────────────────── what the caller finds out ───────────────────

/// The game as it is launched, the Game Defaults filling in what it does
/// not set itself.
pub fn apply_defaults(game: &Game, d: &LaunchDefaults) -> (r: Game)
    ensures
        r == effective_game(*game, *d),
{
    let mut g = game.clone();
    if g.runner.is_none() {
        g.runner = clone_opt(&d.runner);
    }
    if g.launch_args.is_none() {
        g.launch_args = Some(d.launch_flags.clone());
    }
    g.use_mangohud = game.use_mangohud || d.use_mangohud;
    g.use_gamemode = game.use_gamemode || d.use_gamemode;
    g.use_wine_wayland = game.use_wine_wayland || d.use_wine_wayland;
    g
}

/// The first of `rs` named `name`.
pub open spec fn runner_named(rs: Seq<Runner>, name: Seq<char>) -> Option<Runner>
    decreases rs.len(),
{
    if rs.len() == 0 {
        None
    } else if runner_label(rs[0]) == name {
        Some(rs[0])
    } else {
        runner_named(rs.drop_first(), name)
    }
}

/// The binary of the default runner: the first runner whose name (as the
/// runner lists show it) is `name`; none when no runner has that name.
pub fn default_runner_binary(runners: &Vec<Runner>, name: &str) -> (r: Option<String>)
    ensures
        opt_view(r) == match runner_named(runners@, name@) {
            Some(x) => Some(runner_binary(x)),
            None => None,
        },
{
    let key = String::from_str(name);
    let mut i: usize = 0;
    assert(runners@.skip(0) =~= runners@);
    while i < runners.len()
        invariant
            i <= runners@.len(),
            key@ == name@,
            runner_named(runners@, name@) == runner_named(runners@.skip(i as int), name@),
        decreases runners@.len() - i,
    {
        assert(runners@.skip(i as int).drop_first() =~= runners@.skip(i + 1));
        assert(runners@.skip(i as int)[0] == runners@[i as int]);
        if runners[i].label() == key {
            return Some(runners[i].binary());
        }
        i = i + 1;
    }
    None
}

/// The Game Defaults settings a launch takes from the settings `cfg`, the
/// default runner looked up among `runners`.
pub fn launch_defaults(cfg: &Config, runners: &Vec<Runner>) -> (r: LaunchDefaults)
    ensures
        opt_view(r.runner) == match runner_named(runners@, cfg.default_runner@) {
            Some(x) => Some(runner_binary(x)),
            None => None,
        },
        r.env_vars == cfg.env_vars,
        r.launch_flags == cfg.launch_flags,
        r.use_mangohud == cfg.use_mangohud,
        r.use_gamemode == cfg.use_gamemode,
        r.use_wine_wayland == cfg.use_wine_wayland,
{
    LaunchDefaults {
        runner: default_runner_binary(runners, cfg.default_runner.as_str()),
        env_vars: cfg.env_vars.clone(),
        launch_flags: cfg.launch_flags.clone(),
        use_mangohud: cfg.use_mangohud,
        use_gamemode: cfg.use_gamemode,
        use_wine_wayland: cfg.use_wine_wayland,
    }
}

/// The runner a Windows game uses (`wine` unless it names one).
pub fn runner_for(game: &Game) -> (r: String)
    ensures
        r@ == runner_of(*game),
{
    match &game.runner {
        Some(r) => r.clone(),
        None => String::from_str("wine"),
    }
}

/// The prefix a Windows game uses: its own when it names a non-empty one,
/// `default_prefix` otherwise.
pub fn prefix_for(game: &Game, default_prefix: &str) -> (r: String)
    ensures
        r@ == prefix_of(*game, default_prefix@),
{
    match &game.wine_prefix {
        Some(p) => if p.as_str().is_empty() { String::from_str(default_prefix) } else { p.clone() },
        None => String::from_str(default_prefix),
    }
}

/// Where a Wine tool is looked for beside the runner `runner`: `<dir>/tool`
/// in the runner's directory, then `<parent>/bin/tool` one level up.
pub open spec fn tool_candidates_spec(runner: Seq<char>, tool: Seq<char>) -> Seq<Seq<char>> {
    match parent_of(runner) {
        None => Seq::empty(),
        Some(d) => seq![joined(d, tool)] + match parent_of(d) {
            None => Seq::empty(),
            Some(g) => seq![joined(g, "bin/"@ + tool)],
        },
    }
}

/// The first candidate found to exist, or `fallback`.
pub open spec fn first_found(cands: Seq<(Seq<char>, bool)>, fallback: Seq<char>) -> Seq<char>
    decreases cands.len(),
{
    if cands.len() == 0 {
        fallback
    } else if cands[0].1 {
        cands[0].0
    } else {
        first_found(cands.drop_first(), fallback)
    }
}

/// Where a Wine tool (`wine`, `wineboot`) is looked for beside a runner.
pub fn tool_candidates(runner: &str, tool: &str) -> (r: Vec<String>)
    ensures
        string_views(r@) == tool_candidates_spec(runner@, tool@),
{
    let mut r: Vec<String> = Vec::new();
    match parent(runner) {
        None => {},
        Some(d) => {
            r.push(join(d.as_str(), tool));
            match parent(d.as_str()) {
                None => {},
                Some(g) => {
                    let rel = concat("bin/", tool);
                    r.push(join(g.as_str(), rel.as_str()));
                },
            }
        },
    }
    assert(string_views(r@) =~= tool_candidates_spec(runner@, tool@));
    r
}

pub open spec fn found_views(v: Seq<(String, bool)>) -> Seq<(Seq<char>, bool)> {
    v.map_values(|c: (String, bool)| (c.0@, c.1))
}

/// The first candidate found to exist (each paired with whether it does),
/// or `fallback`.
pub fn first_existing(cands: &Vec<(String, bool)>, fallback: &str) -> (r: String)
    ensures
        r@ == first_found(found_views(cands@), fallback@),
{
    let mut i: usize = 0;
    assert(found_views(cands@).skip(0) =~= found_views(cands@));
    while i < cands.len()
        invariant
            i <= cands@.len(),
            first_found(found_views(cands@), fallback@) == first_found(found_views(cands@).skip(i as int), fallback@),
        decreases cands@.len() - i,
    {
        assert(found_views(cands@).skip(i as int).drop_first() =~= found_views(cands@).skip(i + 1));
        assert(found_views(cands@).skip(i as int)[0] == (cands@[i as int].0@, cands@[i as int].1));
        if cands[i].1 {
            return cands[i].0.clone();
        }
        i = i + 1;
    }
    String::from_str(fallback)
}

/// Steam's home directory under the user's home `home` (the relative
/// `.steam/steam` when there is none).
pub fn steam_home_in(home: &Option<String>) -> (r: String)
    ensures
        r@ == joined(or_else(opt_view(*home), Seq::empty()), ".steam/steam"@),
{
    let h = match home {
        Some(h) => h.clone(),
        None => String::new(),
    };
    join(h.as_str(), ".steam/steam")
}

/// The bundled `umu-run` a launch looks for, under the local data directory
/// `base` (a relative path when there is none).
pub fn launch_umu_in(base: &Option<String>) -> (r: String)
    ensures
        r@ == joined(or_else(opt_view(*base), Seq::empty()), "NovaDream/runtimes/umu/umu-run"@),
{
    let b = match base {
        Some(b) => b.clone(),
        None => String::new(),
    };
    join(b.as_str(), "NovaDream/runtimes/umu/umu-run")
}

/// Pressing Play must first download `umu-run`: the game is a Windows game
/// whose runner's file is `proton`, and no `umu-run` is available.
pub open spec fn needs_umu(g: Game, umu_available: bool) -> bool {
    &&& g.launch_mode == LaunchMode::Windows
    &&& g.runner matches Some(r) && file_name_of(r@) == Some("proton"@)
    &&& !umu_available
}

/// Whether pressing Play must first download `umu-run`.
pub fn needs_umu_download(game: &Game, umu_available: bool) -> (r: bool)
    ensures
        r == needs_umu(*game, umu_available),
{
    if game.launch_mode != LaunchMode::Windows || umu_available {
        return false;
    }
    match &game.runner {
        None => false,
        Some(r) => match file_name(r.as_str()) {
            None => false,
            Some(n) => same_chars(chars_of(n.as_str()).as_slice(), chars_of("proton").as_slice()),
        },
    }
}

// ───────────────────────────── laws ────────────────────────────────────────

/// The plan of a game with an executable.
pub open spec fn plan_of(g: Game, f: LaunchFacts) -> PlanText {
    launch_plan_spec(g, f)->0
}

/// The game as launched under the defaults of `f`.
pub open spec fn eff(g: Game, f: LaunchFacts) -> Game {
    effective_game(g, f.defaults)
}

/// A game with no executable has no plan; every other game has one.
pub proof fn law_plan_exists(g: Game, f: LaunchFacts)
    ensures
        launch_plan_spec(g, f) is Some <==> g.exe_path is Some,
{
}

/// A Windows game's prefix directory is the first thing created, and a new
/// plain-Wine prefix is set up with `wineboot --init` before the game
/// starts; an existing prefix, or a Proton one, is not.
pub proof fn law_prefix_setup(g: Game, f: LaunchFacts)
    requires
        g.exe_path is Some,
        g.launch_mode == LaunchMode::Windows,
    ensures
        plan_of(g, f).create_dirs.len() > 0,
        plan_of(g, f).create_dirs[0] == prefix_of(eff(g, f), f.default_prefix@),
        plan_of(g, f).init_prefix is Some <==> (!is_proton_runner(runner_of(eff(g, f))) && f.prefix_empty),
        plan_of(g, f).init_prefix matches Some(c) ==> c == wineboot_command(f.wineboot@, prefix_of(eff(g, f), f.default_prefix@)),
{
}

/// Every plain-Wine launch writes the screen size into the prefix's
/// registry for the X11 driver (and, with wine-wayland, for the Wayland
/// driver too).
pub proof fn law_resolution_written(g: Game, f: LaunchFacts)
    requires
        g.exe_path is Some,
        g.launch_mode == LaunchMode::Windows,
        !is_proton_runner(runner_of(eff(g, f))),
    ensures
        exists|i: int| 0 <= i < plan_of(g, f).registry.len() && (#[trigger] plan_of(g, f).registry[i]).args
            == reg_add_args("HKCU\\Software\\Wine\\X11 Driver"@, "ScreenResolution"@, resolution_text(f.screen_width, f.screen_height)),
        eff(g, f).use_wine_wayland ==> plan_of(g, f).registry[1].args
            == reg_add_args("HKCU\\Software\\Wine\\Wayland Driver"@, "ScreenResolution"@, resolution_text(f.screen_width, f.screen_height)),
{
    let r = plan_of(g, f).registry;
    if eff(g, f).use_wine_wayland {
        assert(r[2].args == reg_add_args("HKCU\\Software\\Wine\\X11 Driver"@, "ScreenResolution"@, resolution_text(f.screen_width, f.screen_height)));
    } else {
        assert(r[1].args == reg_add_args("HKCU\\Software\\Wine\\X11 Driver"@, "ScreenResolution"@, resolution_text(f.screen_width, f.screen_height)));
    }
}

/// With wine-wayland, plain Wine is switched to the Wayland driver in the
/// prefix's registry, and Proton and UMU are told `PROTON_WAYLAND=1`; both
/// run the game without `DISPLAY`. Without it, plain Wine has the Wayland
/// override removed.
pub proof fn law_wine_wayland(g: Game, f: LaunchFacts)
    requires
        g.exe_path is Some,
        g.launch_mode == LaunchMode::Windows,
    ensures
        eff(g, f).use_wine_wayland && !is_proton_runner(runner_of(eff(g, f))) ==> plan_of(g, f).registry[0].args
            == reg_add_args("HKCU\\Software\\Wine\\Drivers"@, "Graphics"@, "wayland"@),
        !eff(g, f).use_wine_wayland && !is_proton_runner(runner_of(eff(g, f))) ==> plan_of(g, f).registry[0].args
            == reg_delete_args("HKCU\\Software\\Wine\\Drivers"@, "Graphics"@),
        eff(g, f).use_wine_wayland ==> plan_of(g, f).game.env.contains(EnvChange::Remove("DISPLAY"@)),
        eff(g, f).use_wine_wayland && is_proton_runner(runner_of(eff(g, f))) ==>
            plan_of(g, f).game.env.contains(EnvChange::Assign("PROTON_WAYLAND"@, "1"@)),
{
    let exe = g.exe_path->0@;
    let e = eff(g, f);
    let prefix = prefix_of(e, f.default_prefix@);
    let base = windows_base(e, f, exe, prefix);
    let tail = windows_tail(e, f);
    let proton = is_proton_runner(runner_of(eff(g, f)));
    let wl = wayland_env(eff(g, f).use_wine_wayland, opt_view(f.wayland_display), proton);
    let env = base.env + tail;
    assert(plan_of(g, f).game.env == env);
    if eff(g, f).use_wine_wayland {
        let k: int = base.env.len() as int;
        assert(tail[0] == EnvChange::Remove("DISPLAY"@));
        assert(env[k] == tail[0]);
        if proton {
            let wd = opt_view(f.wayland_display);
            let j: int = wayland_base_env(wd).len() as int;
            assert(wl[j] == EnvChange::Assign("PROTON_WAYLAND"@, "1"@));
            assert(tail[j] == wl[j]);
            assert(env[k + j] == tail[j]);
        }
    }
}

/// MangoHud and GameMode wrap every native and Windows launch: the command
/// run is `mangohud` when MangoHud is on, and `gamemoderun` comes right
/// before the program when GameMode is on.
pub proof fn law_wrappers(g: Game, f: LaunchFacts)
    requires
        g.exe_path is Some,
        g.launch_mode != LaunchMode::Browser,
    ensures
        eff(g, f).use_mangohud ==> plan_of(g, f).game.program == "mangohud"@,
        eff(g, f).use_mangohud && eff(g, f).use_gamemode ==> plan_of(g, f).game.args[0] == "gamemoderun"@,
        !eff(g, f).use_mangohud && eff(g, f).use_gamemode ==> plan_of(g, f).game.program == "gamemoderun"@,
{
}

/// A game's own environment variables are applied last, after every
/// variable NovaDream sets, so they win.
pub proof fn law_game_env_last(g: Game, f: LaunchFacts)
    requires
        g.exe_path is Some,
        g.launch_mode != LaunchMode::Browser,
    ensures
        exists|pre: Seq<EnvChange>| plan_of(g, f).game.env == pre + assigns(game_env_pairs(opt_view(g.env_vars))),
{
    let own = game_env_pairs(opt_view(g.env_vars));
    let global = game_env_pairs(Some(f.defaults.env_vars@));
    let a = assigns(own);
    let e = eff(g, f);
    let exe = g.exe_path->0@;
    assert(assigns(env_pairs_for(e, f)) =~= assigns(global) + a);
    if g.launch_mode == LaunchMode::Linux {
        let c = wrapped_command(exe, game_args(opt_view(e.launch_args)), e.use_mangohud, e.use_gamemode);
        assert(plan_of(g, f).game.env =~= (c.env + assigns(global)) + a);
    } else {
        let prefix = prefix_of(e, f.default_prefix@);
        let base = windows_base(e, f, exe, prefix);
        let proton = is_proton_runner(runner_of(e));
        let use_umu = proton && f.umu_path is Some;
        let mid = wayland_env(e.use_wine_wayland, opt_view(f.wayland_display), proton)
            + (if use_umu { seq![EnvChange::Assign("PROTON_FORCE_LARGE_ADDRESS_AWARE"@, "1"@)] } else { Seq::empty() });
        assert(plan_of(g, f).game.env =~= (base.env + mid + assigns(global)) + a);
    }
}

/// The Game Defaults apply to every launch, and a game's own settings win:
/// a game without a runner of its own runs with the default runner, a game
/// without launch arguments gets the global launch flags, MangoHud and
/// GameMode turned on globally wrap every game, and the global variables are
/// set before the game's own.
pub proof fn law_defaults_apply(g: Game, f: LaunchFacts)
    requires
        g.exe_path is Some,
        g.launch_mode != LaunchMode::Browser,
    ensures
        g.runner is None && f.defaults.runner is Some ==> runner_of(eff(g, f)) == f.defaults.runner->0@,
        g.runner is Some ==> runner_of(eff(g, f)) == g.runner->0@,
        g.launch_mode == LaunchMode::Linux && !eff(g, f).use_mangohud && !eff(g, f).use_gamemode ==> plan_of(g, f).game.args
            == (if g.launch_args is Some { game_args(opt_view(g.launch_args)) } else { game_args(Some(f.defaults.launch_flags@)) }),
        g.launch_mode == LaunchMode::Windows && !is_proton_runner(runner_of(eff(g, f))) && !eff(g, f).use_mangohud
            && !eff(g, f).use_gamemode ==> plan_of(g, f).game.program == runner_of(eff(g, f)),
        f.defaults.use_mangohud ==> plan_of(g, f).game.program == "mangohud"@,
        f.defaults.use_gamemode && !eff(g, f).use_mangohud ==> plan_of(g, f).game.program == "gamemoderun"@,
        exists|pre: Seq<EnvChange>| plan_of(g, f).game.env
            == pre + assigns(game_env_pairs(Some(f.defaults.env_vars@))) + assigns(game_env_pairs(opt_view(g.env_vars))),
{
    let own = game_env_pairs(opt_view(g.env_vars));
    let global = game_env_pairs(Some(f.defaults.env_vars@));
    let e = eff(g, f);
    let exe = g.exe_path->0@;
    assert(assigns(env_pairs_for(e, f)) =~= assigns(global) + assigns(own));
    if g.launch_mode == LaunchMode::Linux {
        let c = wrapped_command(exe, game_args(opt_view(e.launch_args)), e.use_mangohud, e.use_gamemode);
        assert(plan_of(g, f).game.env =~= c.env + assigns(global) + assigns(own));
        if !e.use_mangohud && !e.use_gamemode {
            assert(wrapped_argv(exe, game_args(opt_view(e.launch_args)), false).drop_first()
                =~= game_args(opt_view(e.launch_args)));
        }
    } else {
        let prefix = prefix_of(e, f.default_prefix@);
        let base = windows_base(e, f, exe, prefix);
        let proton = is_proton_runner(runner_of(e));
        let use_umu = proton && f.umu_path is Some;
        let mid = wayland_env(e.use_wine_wayland, opt_view(f.wayland_display), proton)
            + (if use_umu { seq![EnvChange::Assign("PROTON_FORCE_LARGE_ADDRESS_AWARE"@, "1"@)] } else { Seq::empty() });
        assert(plan_of(g, f).game.env =~= (base.env + mid) + assigns(global) + assigns(own));
    }
}

/// The game's launch arguments (its own, or the global launch flags when it
/// has none), split at white space, end the game's command line: right after
/// the executable for a Windows game (whatever runs it: Wine, Proton or
/// `umu-run`, under any wrappers), and after the program for a native one.
pub proof fn law_launch_args_last(g: Game, f: LaunchFacts)
    requires
        g.exe_path is Some,
        g.launch_mode != LaunchMode::Browser,
    ensures
        g.launch_mode == LaunchMode::Windows ==> exists|pre: Seq<Seq<char>>| plan_of(g, f).game.args
            == pre + seq![g.exe_path->0@] + game_args(opt_view(eff(g, f).launch_args)),
        g.launch_mode == LaunchMode::Linux ==> exists|pre: Seq<Seq<char>>| plan_of(g, f).game.args
            == pre + game_args(opt_view(eff(g, f).launch_args)),
        eff(g, f).launch_args == (if g.launch_args is Some { g.launch_args } else { Some(f.defaults.launch_flags) }),
{
    let e = eff(g, f);
    let exe = g.exe_path->0@;
    let extra = game_args(opt_view(e.launch_args));
    let mh = e.use_mangohud;
    let gm = e.use_gamemode;
    let gmp: Seq<Seq<char>> = if gm { seq!["gamemoderun"@] } else { Seq::empty() };
    if g.launch_mode == LaunchMode::Linux {
        let full = wrapped_argv(exe, extra, gm);
        if mh {
            assert(plan_of(g, f).game.args =~= (gmp + seq![exe]) + extra);
        } else {
            assert(full.drop_first() =~= (gmp + seq![exe]).drop_first() + extra);
            assert(plan_of(g, f).game.args =~= (gmp + seq![exe]).drop_first() + extra);
        }
    } else {
        let runner = runner_of(e);
        let proton = is_proton_runner(runner);
        let use_umu = proton && f.umu_path is Some;
        let program = if use_umu { f.umu_path->0@ } else { runner };
        let head: Seq<Seq<char>> = if !use_umu && proton { seq!["waitforexitandrun"@] } else { Seq::empty() };
        let args = head + seq![exe] + extra;
        if use_umu {
            assert(seq![exe] + extra =~= head + seq![exe] + extra);
        } else if proton {
            assert(seq!["waitforexitandrun"@, exe] + extra =~= head + seq![exe] + extra);
        } else {
            assert(seq![exe] + extra =~= head + seq![exe] + extra);
        }
        let full = wrapped_argv(program, args, gm);
        if mh {
            assert(plan_of(g, f).game.args =~= (gmp + seq![program] + head) + seq![exe] + extra);
        } else {
            assert(full.drop_first() =~= (gmp + seq![program] + head).drop_first() + seq![exe] + extra);
            assert(plan_of(g, f).game.args =~= (gmp + seq![program] + head).drop_first() + seq![exe] + extra);
        }
    }
}

/// A Wine tool is taken from the first candidate found to exist, whatever
/// follows it; when none exists the fallback is used.
pub proof fn law_first_existing_tool(cands: Seq<(Seq<char>, bool)>, fallback: Seq<char>, k: int)
    ensures
        (0 <= k < cands.len() && cands[k].1 && forall|j: int| 0 <= j < k ==> !(#[trigger] cands[j]).1)
            ==> first_found(cands, fallback) == cands[k].0,
        (forall|j: int| 0 <= j < cands.len() ==> !(#[trigger] cands[j]).1) ==> first_found(cands, fallback) == fallback,
    decreases cands.len(),
{
    if cands.len() > 0 {
        let rest = cands.drop_first();
        if 0 < k < cands.len() && cands[k].1 && forall|j: int| 0 <= j < k ==> !(#[trigger] cands[j]).1 {
            assert(!cands[0].1);
            assert forall|j: int| 0 <= j < k - 1 implies !(#[trigger] rest[j]).1 by {
                assert(rest[j] == cands[j + 1]);
            }
            assert(rest[k - 1] == cands[k]);
        }
        if forall|j: int| 0 <= j < cands.len() ==> !(#[trigger] cands[j]).1 {
            assert(!cands[0].1);
            assert forall|j: int| 0 <= j < rest.len() implies !(#[trigger] rest[j]).1 by {
                assert(rest[j] == cands[j + 1]);
            }
        }
        law_first_existing_tool(rest, fallback, k - 1);
    }
}

/// The default runner is the first installed runner whose name, as the
/// runner lists show it, is the configured one; with none of that name
/// there is no default runner.
pub proof fn law_default_runner_first(rs: Seq<Runner>, name: Seq<char>, k: int)
    ensures
        (0 <= k < rs.len() && runner_label(rs[k]) == name && forall|j: int| 0 <= j < k ==> runner_label(#[trigger] rs[j]) != name)
            ==> runner_named(rs, name) == Some(rs[k]),
        (forall|j: int| 0 <= j < rs.len() ==> runner_label(#[trigger] rs[j]) != name) ==> runner_named(rs, name) is None,
    decreases rs.len(),
{
    if rs.len() > 0 {
        let rest = rs.drop_first();
        if 0 < k < rs.len() && runner_label(rs[k]) == name && forall|j: int| 0 <= j < k ==> runner_label(#[trigger] rs[j]) != name {
            assert(runner_label(rs[0]) != name);
            assert forall|j: int| 0 <= j < k - 1 implies runner_label(#[trigger] rest[j]) != name by {
                assert(rest[j] == rs[j + 1]);
            }
            assert(rest[k - 1] == rs[k]);
        }
        if forall|j: int| 0 <= j < rs.len() ==> runner_label(#[trigger] rs[j]) != name {
            assert(runner_label(rs[0]) != name);
            assert forall|j: int| 0 <= j < rest.len() implies runner_label(#[trigger] rest[j]) != name by {
                assert(rest[j] == rs[j + 1]);
            }
        }
        law_default_runner_first(rest, name, k - 1);
    }
}

/// Environment lines are read in order, each on its own: the pairs of two
/// stretches of lines are those of the first followed by those of the
/// second, and one line gives its pair when it holds an `=` and nothing
/// otherwise.
pub proof fn law_env_lines_in_order(a: Seq<Seq<char>>, b: Seq<Seq<char>>, l: Seq<char>)
    ensures
        env_pairs_of(a + b) == env_pairs_of(a) + env_pairs_of(b),
        env_pairs_of(seq![l]) == match env_pair(l) {
            Some(p) => seq![p],
            None => Seq::empty(),
        },
    decreases b.len(),
{
    let one = seq![l];
    assert(one.drop_last() =~= Seq::<Seq<char>>::empty());
    assert(env_pairs_of(one.drop_last()) =~= Seq::<(Seq<char>, Seq<char>)>::empty());
    assert(one.last() == l);
    if b.len() == 0 {
        assert(a + b =~= a);
        assert(env_pairs_of(a) + env_pairs_of(b) =~= env_pairs_of(a));
    } else {
        law_env_lines_in_order(a, b.drop_last(), l);
        assert((a + b).drop_last() =~= a + b.drop_last());
        assert((a + b).last() == b.last());
        assert(env_pairs_of(a + b) =~= env_pairs_of(a) + env_pairs_of(b));
    }
}

/// A Proton runner goes through `umu-run` whenever one was found; it is
/// called directly only when none was, and then Steam's home directory is
/// created too.
pub proof fn law_umu_preferred(g: Game, f: LaunchFacts)
    requires
        g.exe_path is Some,
        g.launch_mode == LaunchMode::Windows,
        is_proton_runner(runner_of(eff(g, f))),
    ensures
        f.umu_path is Some && !eff(g, f).use_mangohud && !eff(g, f).use_gamemode ==> plan_of(g, f).game.program == f.umu_path->0@,
        f.umu_path is None ==> plan_of(g, f).create_dirs == seq![prefix_of(eff(g, f), f.default_prefix@), f.steam_home@],
        f.umu_path is Some ==> plan_of(g, f).create_dirs == seq![prefix_of(eff(g, f), f.default_prefix@)],
        plan_of(g, f).registry.len() == 0 && plan_of(g, f).prepare.len() == 0,
{
}
} // verus!
