//! The Settings and Game Defaults panels: the themes offered and how each
//! is named and coloured, the library folders, and what each control
//! changes in the settings.
use vstd::prelude::*;

use crate::config::Config;
use crate::text::{chars_of, same_chars, string_of, string_views};

verus! {

/// A character with its ASCII lower-case letter made upper-case.
pub open spec fn ascii_upper(c: char) -> char {
    if 'a' <= c && c <= 'z' { ((c as u32) - 32) as char } else { c }
}

pub open spec fn dash_to_space(c: char) -> char {
    if c == '-' { ' ' } else { c }
}

/// The name of a theme with no name of its own: its id with dashes as
/// spaces and the first letter upper-cased.
pub open spec fn fallback_theme_name(id: Seq<char>) -> Seq<char> {
    let s = id.map_values(|c: char| dash_to_space(c));
    s.update(0, ascii_upper(s[0]))
}

/// The themes with a name of their own.
pub open spec fn named_theme(id: Seq<char>) -> Option<Seq<char>> {
    if id == "system"@ { Some("System Theme"@) }
    else if id == "catppuccin-macchiato"@ { Some("Macchiato"@) }
    else if id == "catppuccin-mocha"@ { Some("Mocha"@) }
    else if id == "catppuccin-latte"@ { Some("Latte (Light)"@) }
    else if id == "catppuccin-frappe"@ { Some("Frappé"@) }
    else if id == "tokyo-night"@ { Some("Tokyo Night"@) }
    else if id == "tokyo-night-storm"@ { Some("Tokyo Storm"@) }
    else if id == "rose-pine"@ { Some("Rosé Pine"@) }
    else if id == "rose-pine-moon"@ { Some("Rosé Pine Moon"@) }
    else if id == "rose-pine-dawn"@ { Some("Rosé Pine Dawn (Light)"@) }
    else if id == "gruvbox-light"@ { Some("Gruvbox Light"@) }
    else if id == "material-ocean"@ { Some("Material Ocean"@) }
    else if id == "one-dark"@ { Some("One Dark"@) }
    else if id == "solarized-dark"@ { Some("Solarized Dark"@) }
    else if id == "solarized-light"@ { Some("Solarized Light"@) }
    else if id == "ayu-dark"@ { Some("Ayu Dark"@) }
    else if id == "ayu-mirage"@ { Some("Ayu Mirage"@) }
    else if id == "ayu-light"@ { Some("Ayu Light"@) }
    else { None }
}

/// The name shown for the theme `id`.
pub open spec fn theme_name_text(id: Seq<char>) -> Seq<char> {
    match named_theme(id) {
        Some(n) => n,
        None => fallback_theme_name(id),
    }
}

/// A theme id whose name can be made up: it has a name of its own, or it
/// starts with an ASCII character (the first character is upper-cased in
/// place).
pub open spec fn nameable_theme(id: Seq<char>) -> bool {
    named_theme(id) is Some || (id.len() > 0 && (id[0] as u32) < 128)
}

fn is_lit(v: &Vec<char>, lit: &str) -> (r: bool)
    ensures
        r == (v@ == lit@),
{
    same_chars(v.as_slice(), chars_of(lit).as_slice())
}

fn upper_first(c: char) -> (r: char)
    ensures
        r == ascii_upper(c),
{
    if 'a' <= c && c <= 'z' {
        let b: u8 = (c as u8) - 32;
        proof {
            assert((c as u32) < 128);
        }
        b as char
    } else {
        c
    }
}

/// The name shown for the theme `id`.
pub fn theme_display_name(id: &str) -> (r: String)
    requires
        nameable_theme(id@),
    ensures
        r@ == theme_name_text(id@),
{
    let v = chars_of(id);
    if is_lit(&v, "system") { return String::from_str("System Theme"); }
    if is_lit(&v, "catppuccin-macchiato") { return String::from_str("Macchiato"); }
    if is_lit(&v, "catppuccin-mocha") { return String::from_str("Mocha"); }
    if is_lit(&v, "catppuccin-latte") { return String::from_str("Latte (Light)"); }
    if is_lit(&v, "catppuccin-frappe") { return String::from_str("Frappé"); }
    if is_lit(&v, "tokyo-night") { return String::from_str("Tokyo Night"); }
    if is_lit(&v, "tokyo-night-storm") { return String::from_str("Tokyo Storm"); }
    if is_lit(&v, "rose-pine") { return String::from_str("Rosé Pine"); }
    if is_lit(&v, "rose-pine-moon") { return String::from_str("Rosé Pine Moon"); }
    if is_lit(&v, "rose-pine-dawn") { return String::from_str("Rosé Pine Dawn (Light)"); }
    if is_lit(&v, "gruvbox-light") { return String::from_str("Gruvbox Light"); }
    if is_lit(&v, "material-ocean") { return String::from_str("Material Ocean"); }
    if is_lit(&v, "one-dark") { return String::from_str("One Dark"); }
    if is_lit(&v, "solarized-dark") { return String::from_str("Solarized Dark"); }
    if is_lit(&v, "solarized-light") { return String::from_str("Solarized Light"); }
    if is_lit(&v, "ayu-dark") { return String::from_str("Ayu Dark"); }
    if is_lit(&v, "ayu-mirage") { return String::from_str("Ayu Mirage"); }
    if is_lit(&v, "ayu-light") { return String::from_str("Ayu Light"); }
    let mut out: Vec<char> = Vec::new();
    let mut i: usize = 0;
    while i < v.len()
        invariant
            i <= v@.len(),
            out@ == v@.take(i as int).map_values(|c: char| dash_to_space(c)),
        decreases v@.len() - i,
    {
        let c = v[i];
        out.push(if c == '-' { ' ' } else { c });
        assert(v@.take(i + 1).map_values(|c: char| dash_to_space(c))
            =~= v@.take(i as int).map_values(|c: char| dash_to_space(c)).push(dash_to_space(v@[i as int])));
        i = i + 1;
    }
    assert(v@.take(v@.len() as int) =~= v@);
    let first = upper_first(out[0]);
    out.set(0, first);
    string_of(out.as_slice())
}


/// The colours of the theme `name` (base, surface, second surface, text,
/// accent, muted, green); unknown themes get Catppuccin Macchiato's.
pub open spec fn palette_of(name: Seq<char>) -> Seq<Seq<char>> {
    if name == "catppuccin-macchiato"@ { seq!["#24273a"@, "#1e2030"@, "#2a2d3e"@, "#cad3f5"@, "#c6a0f6"@, "#6e738d"@, "#a6da95"@] }
    else if name == "catppuccin-mocha"@ { seq!["#1e1e2e"@, "#181825"@, "#232634"@, "#cdd6f4"@, "#cba6f7"@, "#6c7086"@, "#a6e3a1"@] }
    else if name == "catppuccin-latte"@ { seq!["#eff1f5"@, "#e6e9ef"@, "#dce0e8"@, "#4c4f69"@, "#8839ef"@, "#8c8fa1"@, "#40a02b"@] }
    else if name == "catppuccin-frappe"@ { seq!["#303446"@, "#292c3c"@, "#414559"@, "#c6d0f5"@, "#ca9ee6"@, "#626880"@, "#a6d189"@] }
    else if name == "dracula"@ { seq!["#282a36"@, "#21222c"@, "#343746"@, "#f8f8f2"@, "#bd93f9"@, "#6272a4"@, "#50fa7b"@] }
    else if name == "tokyo-night"@ { seq!["#1a1b26"@, "#16161e"@, "#1f2335"@, "#c0caf5"@, "#7aa2f7"@, "#565f89"@, "#9ece6a"@] }
    else if name == "tokyo-night-storm"@ { seq!["#24283b"@, "#1f2335"@, "#292e42"@, "#c0caf5"@, "#7aa2f7"@, "#565f89"@, "#9ece6a"@] }
    else if name == "nord"@ { seq!["#2e3440"@, "#272c36"@, "#3b4252"@, "#eceff4"@, "#88c0d0"@, "#4c566a"@, "#a3be8c"@] }
    else if name == "gruvbox"@ { seq!["#282828"@, "#1d2021"@, "#3c3836"@, "#ebdbb2"@, "#d3869b"@, "#928374"@, "#b8bb26"@] }
    else if name == "gruvbox-light"@ { seq!["#fbf1c7"@, "#f2e5bc"@, "#ebdbb2"@, "#3c3836"@, "#8f3f71"@, "#a89984"@, "#79740e"@] }
    else if name == "rose-pine"@ { seq!["#191724"@, "#1f1d2e"@, "#26233a"@, "#e0def4"@, "#c4a7e7"@, "#6e6a86"@, "#31748f"@] }
    else if name == "rose-pine-moon"@ { seq!["#232136"@, "#2a273f"@, "#393552"@, "#e0def4"@, "#c4a7e7"@, "#6e6a86"@, "#3e8fb0"@] }
    else if name == "rose-pine-dawn"@ { seq!["#faf4ed"@, "#fffaf3"@, "#f2e9e1"@, "#575279"@, "#907aa9"@, "#9893a5"@, "#286983"@] }
    else if name == "everforest"@ { seq!["#2d353b"@, "#272e33"@, "#3d484d"@, "#d3c6aa"@, "#a7c080"@, "#859289"@, "#a7c080"@] }
    else if name == "kanagawa"@ { seq!["#1f1f28"@, "#16161d"@, "#2a2a37"@, "#dcd7ba"@, "#957fb8"@, "#727169"@, "#76946a"@] }
    else if name == "material-ocean"@ { seq!["#0f111a"@, "#090b10"@, "#1a1c25"@, "#8f93a2"@, "#82aaff"@, "#464b5d"@, "#c3e88d"@] }
    else if name == "one-dark"@ { seq!["#282c34"@, "#21252b"@, "#2c313c"@, "#abb2bf"@, "#c678dd"@, "#5c6370"@, "#98c379"@] }
    else if name == "solarized-dark"@ { seq!["#002b36"@, "#073642"@, "#003847"@, "#839496"@, "#6c71c4"@, "#657b83"@, "#859900"@] }
    else if name == "solarized-light"@ { seq!["#fdf6e3"@, "#eee8d5"@, "#e8e2cc"@, "#657b83"@, "#6c71c4"@, "#93a1a1"@, "#859900"@] }
    else if name == "monokai"@ { seq!["#272822"@, "#1e1f1c"@, "#3e3d32"@, "#f8f8f2"@, "#ae81ff"@, "#75715e"@, "#a6e22e"@] }
    else if name == "ayu-dark"@ { seq!["#0d1017"@, "#0a0e14"@, "#131721"@, "#bfbdb6"@, "#d2a6ff"@, "#3d424d"@, "#7fd962"@] }
    else if name == "ayu-mirage"@ { seq!["#1f2430"@, "#191e2a"@, "#232834"@, "#cccac2"@, "#d2a6ff"@, "#3d424d"@, "#d5ff80"@] }
    else if name == "ayu-light"@ { seq!["#fafafa"@, "#f3f4f5"@, "#e7e8e9"@, "#5c6166"@, "#a37acc"@, "#8a9199"@, "#4cbf99"@] }
    else { seq!["#24273a"@, "#1e2030"@, "#2a2d3e"@, "#cad3f5"@, "#c6a0f6"@, "#6e738d"@, "#a6da95"@] }
}

/// A theme's colours.
#[derive(Debug, Clone, Copy)]
pub struct Palette {
    pub base: &'static str,
    pub surface: &'static str,
    pub surface2: &'static str,
    pub text: &'static str,
    pub accent: &'static str,
    pub muted: &'static str,
    pub green: &'static str,
}

/// A palette's colours, in order.
pub open spec fn palette_colours(p: Palette) -> Seq<Seq<char>> {
    seq![p.base@, p.surface@, p.surface2@, p.text@, p.accent@, p.muted@, p.green@]
}

fn palette(base: &'static str, surface: &'static str, surface2: &'static str, text: &'static str,
    accent: &'static str, muted: &'static str, green: &'static str) -> (r: Palette)
    ensures
        palette_colours(r) == seq![base@, surface@, surface2@, text@, accent@, muted@, green@],
{
    Palette { base, surface, surface2, text, accent, muted, green }
}

/// The colours of the theme `name`.
pub fn theme_palette(name: &str) -> (r: Palette)
    ensures
        palette_colours(r) == palette_of(name@),
{
    let v = chars_of(name);
    if is_lit(&v, "catppuccin-macchiato") { return palette("#24273a", "#1e2030", "#2a2d3e", "#cad3f5", "#c6a0f6", "#6e738d", "#a6da95"); }
    if is_lit(&v, "catppuccin-mocha") { return palette("#1e1e2e", "#181825", "#232634", "#cdd6f4", "#cba6f7", "#6c7086", "#a6e3a1"); }
    if is_lit(&v, "catppuccin-latte") { return palette("#eff1f5", "#e6e9ef", "#dce0e8", "#4c4f69", "#8839ef", "#8c8fa1", "#40a02b"); }
    if is_lit(&v, "catppuccin-frappe") { return palette("#303446", "#292c3c", "#414559", "#c6d0f5", "#ca9ee6", "#626880", "#a6d189"); }
    if is_lit(&v, "dracula") { return palette("#282a36", "#21222c", "#343746", "#f8f8f2", "#bd93f9", "#6272a4", "#50fa7b"); }
    if is_lit(&v, "tokyo-night") { return palette("#1a1b26", "#16161e", "#1f2335", "#c0caf5", "#7aa2f7", "#565f89", "#9ece6a"); }
    if is_lit(&v, "tokyo-night-storm") { return palette("#24283b", "#1f2335", "#292e42", "#c0caf5", "#7aa2f7", "#565f89", "#9ece6a"); }
    if is_lit(&v, "nord") { return palette("#2e3440", "#272c36", "#3b4252", "#eceff4", "#88c0d0", "#4c566a", "#a3be8c"); }
    if is_lit(&v, "gruvbox") { return palette("#282828", "#1d2021", "#3c3836", "#ebdbb2", "#d3869b", "#928374", "#b8bb26"); }
    if is_lit(&v, "gruvbox-light") { return palette("#fbf1c7", "#f2e5bc", "#ebdbb2", "#3c3836", "#8f3f71", "#a89984", "#79740e"); }
    if is_lit(&v, "rose-pine") { return palette("#191724", "#1f1d2e", "#26233a", "#e0def4", "#c4a7e7", "#6e6a86", "#31748f"); }
    if is_lit(&v, "rose-pine-moon") { return palette("#232136", "#2a273f", "#393552", "#e0def4", "#c4a7e7", "#6e6a86", "#3e8fb0"); }
    if is_lit(&v, "rose-pine-dawn") { return palette("#faf4ed", "#fffaf3", "#f2e9e1", "#575279", "#907aa9", "#9893a5", "#286983"); }
    if is_lit(&v, "everforest") { return palette("#2d353b", "#272e33", "#3d484d", "#d3c6aa", "#a7c080", "#859289", "#a7c080"); }
    if is_lit(&v, "kanagawa") { return palette("#1f1f28", "#16161d", "#2a2a37", "#dcd7ba", "#957fb8", "#727169", "#76946a"); }
    if is_lit(&v, "material-ocean") { return palette("#0f111a", "#090b10", "#1a1c25", "#8f93a2", "#82aaff", "#464b5d", "#c3e88d"); }
    if is_lit(&v, "one-dark") { return palette("#282c34", "#21252b", "#2c313c", "#abb2bf", "#c678dd", "#5c6370", "#98c379"); }
    if is_lit(&v, "solarized-dark") { return palette("#002b36", "#073642", "#003847", "#839496", "#6c71c4", "#657b83", "#859900"); }
    if is_lit(&v, "solarized-light") { return palette("#fdf6e3", "#eee8d5", "#e8e2cc", "#657b83", "#6c71c4", "#93a1a1", "#859900"); }
    if is_lit(&v, "monokai") { return palette("#272822", "#1e1f1c", "#3e3d32", "#f8f8f2", "#ae81ff", "#75715e", "#a6e22e"); }
    if is_lit(&v, "ayu-dark") { return palette("#0d1017", "#0a0e14", "#131721", "#bfbdb6", "#d2a6ff", "#3d424d", "#7fd962"); }
    if is_lit(&v, "ayu-mirage") { return palette("#1f2430", "#191e2a", "#232834", "#cccac2", "#d2a6ff", "#3d424d", "#d5ff80"); }
    if is_lit(&v, "ayu-light") { return palette("#fafafa", "#f3f4f5", "#e7e8e9", "#5c6166", "#a37acc", "#8a9199", "#4cbf99"); }
    palette("#24273a", "#1e2030", "#2a2d3e", "#cad3f5", "#c6a0f6", "#6e738d", "#a6da95")
}


/// Whether the theme is drawn with NovaDream's own style sheet: every theme
/// but `system`, which leaves the desktop's style alone.
pub fn uses_theme_css(name: &str) -> (r: bool)
    ensures
        r == (name@ != "system"@),
{
    !is_lit(&chars_of(name), "system")
}

/// The themes offered, in groups.
pub open spec fn theme_groups_spec() -> Seq<(Seq<char>, Seq<Seq<char>>)> {
    seq![
        ("System"@, seq!["system"@]),
        ("Catppuccin"@, seq!["catppuccin-macchiato"@, "catppuccin-mocha"@, "catppuccin-latte"@, "catppuccin-frappe"@]),
        ("Popular Dark"@, seq!["dracula"@, "tokyo-night"@, "tokyo-night-storm"@, "nord"@, "one-dark"@, "monokai"@,
            "material-ocean"@, "kanagawa"@, "everforest"@]),
        ("Rose Pine"@, seq!["rose-pine"@, "rose-pine-moon"@, "rose-pine-dawn"@]),
        ("Gruvbox"@, seq!["gruvbox"@, "gruvbox-light"@]),
        ("Solarized"@, seq!["solarized-dark"@, "solarized-light"@]),
        ("Ayu"@, seq!["ayu-dark"@, "ayu-mirage"@, "ayu-light"@]),
    ]
}

pub open spec fn group_views(v: Seq<(String, Vec<String>)>) -> Seq<(Seq<char>, Seq<Seq<char>>)> {
    v.map_values(|g: (String, Vec<String>)| (g.0@, string_views(g.1@)))
}

fn group(name: &str, ids: Vec<String>) -> (r: (String, Vec<String>))
    ensures
        r.0@ == name@,
        r.1@ == ids@,
{
    (String::from_str(name), ids)
}

fn s(t: &str) -> (r: String)
    ensures
        r@ == t@,
{
    String::from_str(t)
}

/// The themes offered, in groups: a group's name and its theme ids.
pub fn theme_groups() -> (r: Vec<(String, Vec<String>)>)
    ensures
        group_views(r@) == theme_groups_spec(),
{
    let g0 = vec![s("system")];
    let g1 = vec![s("catppuccin-macchiato"), s("catppuccin-mocha"), s("catppuccin-latte"), s("catppuccin-frappe")];
    let g2 = vec![s("dracula"), s("tokyo-night"), s("tokyo-night-storm"), s("nord"), s("one-dark"), s("monokai"),
        s("material-ocean"), s("kanagawa"), s("everforest")];
    let g3 = vec![s("rose-pine"), s("rose-pine-moon"), s("rose-pine-dawn")];
    let g4 = vec![s("gruvbox"), s("gruvbox-light")];
    let g5 = vec![s("solarized-dark"), s("solarized-light")];
    let g6 = vec![s("ayu-dark"), s("ayu-mirage"), s("ayu-light")];
    proof {
        let t = theme_groups_spec();
        assert(string_views(g0@) =~= t[0].1);
        assert(string_views(g1@) =~= t[1].1);
        assert(string_views(g2@) =~= t[2].1);
        assert(string_views(g3@) =~= t[3].1);
        assert(string_views(g4@) =~= t[4].1);
        assert(string_views(g5@) =~= t[5].1);
        assert(string_views(g6@) =~= t[6].1);
    }
    let r = vec![group("System", g0), group("Catppuccin", g1), group("Popular Dark", g2), group("Rose Pine", g3),
        group("Gruvbox", g4), group("Solarized", g5), group("Ayu", g6)];
    assert(group_views(r@) =~= theme_groups_spec());
    r
}

/// One of the library folders in the settings.
#[derive(Debug, Clone, Copy, PartialEq, Eq, Structural)]
pub enum LibraryFolder {
    Epic,
    Gog,
    Steam,
    Itch,
    Local,
}

/// The setting that holds a library folder.
pub open spec fn folder_of(c: Config, f: LibraryFolder) -> String {
    match f {
        LibraryFolder::Epic => c.epic_library,
        LibraryFolder::Gog => c.gog_library,
        LibraryFolder::Steam => c.steam_library,
        LibraryFolder::Itch => c.itch_library,
        LibraryFolder::Local => c.local_library,
    }
}

/// The library-folder rows of the Settings panel: title, hint, folder.
pub open spec fn library_rows_spec() -> Seq<(Seq<char>, Seq<char>, LibraryFolder)> {
    seq![
        ("Epic Games library"@, "Where Epic games are installed"@, LibraryFolder::Epic),
        ("GOG library"@, "Where GOG games are installed"@, LibraryFolder::Gog),
        ("Steam library"@, "Where Steam games are installed"@, LibraryFolder::Steam),
        ("Itch.io library"@, "Where Itch games are installed"@, LibraryFolder::Itch),
        ("Local library"@, "Where manually added games live"@, LibraryFolder::Local),
    ]
}

/// The library-folder rows of the Settings panel: title, hint, folder.
pub fn library_path_rows() -> (r: Vec<(&'static str, &'static str, LibraryFolder)>)
    ensures
        r@.map_values(|x: (&'static str, &'static str, LibraryFolder)| (x.0@, x.1@, x.2)) == library_rows_spec(),
{
    let r = vec![
        ("Epic Games library", "Where Epic games are installed", LibraryFolder::Epic),
        ("GOG library", "Where GOG games are installed", LibraryFolder::Gog),
        ("Steam library", "Where Steam games are installed", LibraryFolder::Steam),
        ("Itch.io library", "Where Itch games are installed", LibraryFolder::Itch),
        ("Local library", "Where manually added games live", LibraryFolder::Local),
    ];
    assert(r@.map_values(|x: (&'static str, &'static str, LibraryFolder)| (x.0@, x.1@, x.2)) =~= library_rows_spec());
    r
}

/// A change made by one control of the Settings or Game Defaults panels.
#[derive(Debug)]
pub enum SettingChange {
    Theme(String),
    ShowTray(bool),
    CloseToTray(bool),
    DefaultRunner(String),
    DefaultWinePrefix(String),
    UseMangohud(bool),
    UseGamemode(bool),
    UseWineWayland(bool),
    MinimizeOnLaunch(bool),
    TrackPlaytime(bool),
    ShowPlaytimeOnCard(bool),
    LaunchFlags(String),
    EnvVars(String),
    LibraryPath(LibraryFolder, String),
}

/// The settings after a change: the one setting it names takes its value,
/// every other setting stays.
pub open spec fn config_changed(c: Config, ch: SettingChange) -> Config {
    match ch {
        SettingChange::Theme(v) => Config { theme: v, ..c },
        SettingChange::ShowTray(b) => Config { show_tray: b, ..c },
        SettingChange::CloseToTray(b) => Config { close_to_tray: b, ..c },
        SettingChange::DefaultRunner(v) => Config { default_runner: v, ..c },
        SettingChange::DefaultWinePrefix(v) => Config { default_wine_prefix: v, ..c },
        SettingChange::UseMangohud(b) => Config { use_mangohud: b, ..c },
        SettingChange::UseGamemode(b) => Config { use_gamemode: b, ..c },
        SettingChange::UseWineWayland(b) => Config { use_wine_wayland: b, ..c },
        SettingChange::MinimizeOnLaunch(b) => Config { minimize_on_launch: b, ..c },
        SettingChange::TrackPlaytime(b) => Config { track_playtime: b, ..c },
        SettingChange::ShowPlaytimeOnCard(b) => Config { show_playtime_on_card: b, ..c },
        SettingChange::LaunchFlags(v) => Config { launch_flags: v, ..c },
        SettingChange::EnvVars(v) => Config { env_vars: v, ..c },
        SettingChange::LibraryPath(f, v) => match f {
            LibraryFolder::Epic => Config { epic_library: v, ..c },
            LibraryFolder::Gog => Config { gog_library: v, ..c },
            LibraryFolder::Steam => Config { steam_library: v, ..c },
            LibraryFolder::Itch => Config { itch_library: v, ..c },
            LibraryFolder::Local => Config { local_library: v, ..c },
        },
    }
}

impl Config {
    /// The library folder `f`.
    pub fn library_path(&self, f: LibraryFolder) -> (r: String)
        ensures
            r == folder_of(*self, f),
    {
        match f {
            LibraryFolder::Epic => self.epic_library.clone(),
            LibraryFolder::Gog => self.gog_library.clone(),
            LibraryFolder::Steam => self.steam_library.clone(),
            LibraryFolder::Itch => self.itch_library.clone(),
            LibraryFolder::Local => self.local_library.clone(),
        }
    }

    /// Makes one change to the settings.
    #[verifier::rlimit(40)]
    pub fn apply_change(&mut self, ch: SettingChange)
        ensures
            *final(self) == config_changed(*old(self), ch),
    {
        match ch {
            SettingChange::Theme(v) => self.theme = v,
            SettingChange::ShowTray(b) => self.show_tray = b,
            SettingChange::CloseToTray(b) => self.close_to_tray = b,
            SettingChange::DefaultRunner(v) => self.default_runner = v,
            SettingChange::DefaultWinePrefix(v) => self.default_wine_prefix = v,
            SettingChange::UseMangohud(b) => self.use_mangohud = b,
            SettingChange::UseGamemode(b) => self.use_gamemode = b,
            SettingChange::UseWineWayland(b) => self.use_wine_wayland = b,
            SettingChange::MinimizeOnLaunch(b) => self.minimize_on_launch = b,
            SettingChange::TrackPlaytime(b) => self.track_playtime = b,
            SettingChange::ShowPlaytimeOnCard(b) => self.show_playtime_on_card = b,
            SettingChange::LaunchFlags(v) => self.launch_flags = v,
            SettingChange::EnvVars(v) => self.env_vars = v,
            SettingChange::LibraryPath(f, v) => self.set_library_path(f, v),
        }
    }

    /// Sets the library folder `f`.
    pub fn set_library_path(&mut self, f: LibraryFolder, v: String)
        ensures
            *final(self) == config_changed(*old(self), SettingChange::LibraryPath(f, v)),
    {
        match f {
            LibraryFolder::Epic => self.epic_library = v,
            LibraryFolder::Gog => self.gog_library = v,
            LibraryFolder::Steam => self.steam_library = v,
            LibraryFolder::Itch => self.itch_library = v,
            LibraryFolder::Local => self.local_library = v,
        }
    }
}

/// `i` is the first name equal to `name`.
pub open spec fn is_first_name(names: Seq<Seq<char>>, name: Seq<char>, i: int) -> bool {
    &&& 0 <= i < names.len()
    &&& names[i] == name
    &&& forall|j: int| 0 <= j < i ==> names[j] != name
}

/// The runner selected when a panel opens: the first whose name is the
/// default runner's; none when it is not listed.
pub fn runner_position(names: &Vec<String>, current: &String) -> (r: Option<usize>)
    ensures
        match r {
            Some(i) => is_first_name(string_views(names@), current@, i as int),
            None => forall|j: int| 0 <= j < names@.len() ==> names@[j]@ != current@,
        },
{
    let mut i: usize = 0;
    while i < names.len()
        invariant
            i <= names@.len(),
            forall|j: int| 0 <= j < i ==> names@[j]@ != current@,
        decreases names@.len() - i,
    {
        if names[i] == *current {
            return Some(i);
        }
        i = i + 1;
    }
    None
}

/// The change made by choosing position `i` in the default-runner list: the
/// runner named there becomes the default; nothing past the end.
pub fn default_runner_choice(names: &Vec<String>, i: u32) -> (r: Option<SettingChange>)
    ensures
        match r {
            Some(ch) => (i as int) < names@.len() && ch == SettingChange::DefaultRunner(names@[i as int]),
            None => i as int >= names@.len(),
        },
{
    let k = i as usize;
    if k < names.len() {
        Some(SettingChange::DefaultRunner(names[k].clone()))
    } else {
        None
    }
}

/// A library folder, once changed, reads back as the value it was given,
/// and every other folder reads as before.
pub proof fn law_library_path_reads_back(c: Config, f: LibraryFolder, v: String, other: LibraryFolder)
    ensures
        folder_of(config_changed(c, SettingChange::LibraryPath(f, v)), f) == v,
        other != f ==> folder_of(config_changed(c, SettingChange::LibraryPath(f, v)), other) == folder_of(c, other),
{
}

/// Changing the theme changes nothing but the theme.
pub proof fn law_theme_change(c: Config, t: String)
    ensures
        config_changed(c, SettingChange::Theme(t)) == (Config { theme: t, ..c }),
{
}
} // verus!
