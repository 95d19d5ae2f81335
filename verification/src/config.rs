//! Settings, the data directories they point at, and the names that game
//! titles turn into on disk.
use vstd::prelude::*;

use crate::paths::{config_dir, data_local_dir, join, joined, opt_view, or_else};
use crate::text::{
    chars_of, is_alphanumeric, lead_len, lemma_lead_len, lemma_trail_len, string_of, trail_len, trim, trim_spec,
    unicode_alphanumeric, CharClass,
};

verus! {

// ───────────────────────────── safe titles ─────────────────────────────────

/// The character that `c` becomes in a directory name: spaces and dashes turn
/// into `_`, letters, digits, `_` and `.` stay, anything else turns into `_`.
pub open spec fn safe_char(c: char) -> char {
    if c == ' ' || c == '-' {
        '_'
    } else if unicode_alphanumeric(c) || c == '_' || c == '.' {
        c
    } else {
        '_'
    }
}

/// `s` with every run of `_` shortened to one `_`.
pub open spec fn collapse_underscores(s: Seq<char>) -> Seq<char>
    decreases s.len(),
{
    if s.len() == 0 {
        s
    } else {
        let p = collapse_underscores(s.drop_last());
        if s.last() == '_' && p.len() > 0 && p.last() == '_' {
            p
        } else {
            p.push(s.last())
        }
    }
}

/// A title with every character made safe, `_` trimmed from both ends and
/// runs of `_` collapsed.
pub open spec fn made_safe(s: Seq<char>) -> Seq<char> {
    collapse_underscores(trim_spec(s.map_values(|c: char| safe_char(c)), CharClass::Is('_')))
}

/// `.` and `..`: names of a folder itself and of its parent.
pub open spec fn is_dot_name(s: Seq<char>) -> bool {
    s =~= seq!['.'] || s =~= seq!['.', '.']
}

/// The directory name that a title turns into: the title made safe, and
/// nothing at all when that leaves `.` or `..`.
pub open spec fn sanitised(s: Seq<char>) -> Seq<char> {
    if is_dot_name(made_safe(s)) { Seq::empty() } else { made_safe(s) }
}

/// A character that a sanitised title may hold.
pub open spec fn allowed_char(c: char) -> bool {
    c != ' ' && c != '-' && (unicode_alphanumeric(c) || c == '_' || c == '.')
}

pub open spec fn all_allowed(s: Seq<char>) -> bool {
    forall|i: int| 0 <= i < s.len() ==> allowed_char(#[trigger] s[i])
}

pub open spec fn no_double_underscore(s: Seq<char>) -> bool {
    forall|i: int| 0 <= i < s.len() - 1 ==> !(#[trigger] s[i] == '_' && s[i + 1] == '_')
}

pub open spec fn no_edge_underscore(s: Seq<char>) -> bool {
    s.len() > 0 ==> s[0] != '_' && s.last() != '_'
}

fn safe(c: char) -> (r: char)
    ensures
        r == safe_char(c),
{
    if c == ' ' || c == '-' {
        '_'
    } else if is_alphanumeric(c) || c == '_' || c == '.' {
        c
    } else {
        '_'
    }
}

fn collapse(v: &[char]) -> (r: Vec<char>)
    ensures
        r@ == collapse_underscores(v@),
{
    let n = v.len();
    let mut acc: Vec<char> = Vec::new();
    let mut i: usize = 0;
    assert(v@.take(0) =~= Seq::<char>::empty());
    while i < n
        invariant
            i <= n,
            n == v@.len(),
            acc@ == collapse_underscores(v@.take(i as int)),
        decreases n - i,
    {
        let c = v[i];
        assert(v@.take(i + 1).drop_last() =~= v@.take(i as int));
        if c == '_' && acc.len() > 0 && acc[acc.len() - 1] == '_' {
        } else {
            acc.push(c);
        }
        i = i + 1;
    }
    assert(v@.take(n as int) =~= v@);
    acc
}

/// Turns a game title into a safe directory name: spaces and dashes become
/// underscores, characters that are not letters, digits, `_` or `.` become
/// underscores, underscores are trimmed from both ends, and runs of
/// underscores collapse to one; a name left as `.` or `..` becomes empty.
pub fn sanitise_title(title: &str) -> (r: String)
    ensures
        r@ == sanitised(title@),
{
    let v = chars_of(title);
    let n = v.len();
    let mut m: Vec<char> = Vec::new();
    let mut i: usize = 0;
    while i < n
        invariant
            i <= n,
            n == v@.len(),
            m@ == v@.take(i as int).map_values(|c: char| safe_char(c)),
        decreases n - i,
    {
        m.push(safe(v[i]));
        assert(m@ =~= v@.take(i + 1).map_values(|c: char| safe_char(c)));
        i = i + 1;
    }
    assert(v@.take(n as int) =~= v@);
    let t = trim(m.as_slice(), CharClass::Is('_'));
    let c = collapse(t.as_slice());
    let dots = (c.len() == 1 && c[0] == '.') || (c.len() == 2 && c[0] == '.' && c[1] == '.');
    if dots {
        assert(is_dot_name(c@));
        String::new()
    } else {
        assert(!is_dot_name(c@));
        string_of(c.as_slice())
    }
}

// ───────────────────────────── laws of sanitised titles ────────────────────

proof fn lemma_collapse(s: Seq<char>)
    ensures
        no_double_underscore(collapse_underscores(s)),
        all_allowed(s) ==> all_allowed(collapse_underscores(s)),
        s.len() == 0 <==> collapse_underscores(s).len() == 0,
        s.len() > 0 ==> collapse_underscores(s)[0] == s[0],
        s.len() > 0 ==> collapse_underscores(s).last() == s.last(),
    decreases s.len(),
{
    if s.len() > 0 {
        let t = s.drop_last();
        lemma_collapse(t);
        let p = collapse_underscores(t);
        if all_allowed(s) {
            assert forall|i: int| 0 <= i < t.len() implies allowed_char(#[trigger] t[i]) by {
                assert(t[i] == s[i]);
            }
            assert(allowed_char(s[s.len() - 1]));
        }
        if s.last() == '_' && p.len() > 0 && p.last() == '_' {
        } else {
            let q = p.push(s.last());
            assert forall|i: int| 0 <= i < q.len() - 1 implies !(#[trigger] q[i] == '_' && q[i + 1] == '_') by {
                if i < p.len() - 1 {
                    assert(q[i] == p[i] && q[i + 1] == p[i + 1]);
                }
            }
            if all_allowed(s) {
                assert forall|i: int| 0 <= i < q.len() implies allowed_char(#[trigger] q[i]) by {
                    if i < p.len() {
                        assert(q[i] == p[i]);
                    }
                }
            }
            if t.len() == 0 {
                assert(q[0] == s[0]);
            }
        }
    }
}

proof fn lemma_collapse_identity(s: Seq<char>)
    requires
        no_double_underscore(s),
    ensures
        collapse_underscores(s) == s,
    decreases s.len(),
{
    if s.len() > 0 {
        let t = s.drop_last();
        assert forall|i: int| 0 <= i < t.len() - 1 implies !(#[trigger] t[i] == '_' && t[i + 1] == '_') by {
            assert(t[i] == s[i] && t[i + 1] == s[i + 1]);
        }
        lemma_collapse_identity(t);
        if t.len() > 0 {
            assert(!(s[t.len() - 1] == '_' && s[t.len() as int] == '_'));
        }
        assert(t.push(s.last()) =~= s);
    }
}

proof fn lemma_trim_underscores(s: Seq<char>)
    ensures
        no_edge_underscore(trim_spec(s, CharClass::Is('_'))),
        all_allowed(s) ==> all_allowed(trim_spec(s, CharClass::Is('_'))),
{
    let k = CharClass::Is('_');
    lemma_lead_len(s, k, true);
    let a = lead_len(s, k, true);
    let t1 = s.skip(a as int);
    lemma_trail_len(t1, k);
    let b = trail_len(t1, k);
    let t2 = t1.take(t1.len() - b);
    assert(t2 == trim_spec(s, k));
    if t2.len() > 0 {
        assert(t2[0] == s[a as int]);
        assert(t2.last() == t1[t1.len() - b - 1]);
    }
    if all_allowed(s) {
        assert forall|i: int| 0 <= i < t2.len() implies allowed_char(#[trigger] t2[i]) by {
            assert(t2[i] == s[i + a]);
        }
    }
}

proof fn lemma_trim_identity(s: Seq<char>)
    requires
        no_edge_underscore(s),
    ensures
        trim_spec(s, CharClass::Is('_')) == s,
{
    let k = CharClass::Is('_');
    assert(lead_len(s, k, true) == 0);
    assert(s.skip(0) =~= s);
    assert(trail_len(s, k) == 0);
    assert(s.take(s.len() as int) =~= s);
}

proof fn made_safe_shape(s: Seq<char>)
    ensures
        all_allowed(made_safe(s)),
        no_edge_underscore(made_safe(s)),
        no_double_underscore(made_safe(s)),
{
    let m = s.map_values(|c: char| safe_char(c));
    assert forall|i: int| 0 <= i < m.len() implies allowed_char(#[trigger] m[i]) by {}
    let t = trim_spec(m, CharClass::Is('_'));
    lemma_trim_underscores(m);
    lemma_collapse(t);
}

/// A sanitised title holds only letters, digits, `_` and `.`; it neither
/// starts nor ends with `_`; it never holds two `_` in a row; and it is never
/// `.` or `..`, so it never names a folder itself or its parent.
pub proof fn sanitised_shape(s: Seq<char>)
    ensures
        all_allowed(sanitised(s)),
        no_edge_underscore(sanitised(s)),
        no_double_underscore(sanitised(s)),
        !is_dot_name(sanitised(s)),
{
    made_safe_shape(s);
}

/// Sanitising a sanitised title changes nothing.
pub proof fn sanitise_idempotent(s: Seq<char>)
    ensures
        sanitised(sanitised(s)) == sanitised(s),
{
    let r = sanitised(s);
    sanitised_shape(s);
    let m = r.map_values(|c: char| safe_char(c));
    assert(m =~= r);
    lemma_trim_identity(r);
    lemma_collapse_identity(r);
    assert(made_safe(r) == r);
}


// ───────────────────────────── data directories ────────────────────────────

/// NovaDream's data directory under the user's local data directory `base`
/// (`~/.local/share` when there is none).
pub open spec fn novadream_dir_spec(base: Option<Seq<char>>) -> Seq<char> {
    joined(or_else(base, "~/.local/share"@), "NovaDream"@)
}

/// The directory NovaDream keeps for one store (or purpose) under `base`.
pub open spec fn data_dir_spec(base: Option<Seq<char>>, store: Seq<char>) -> Seq<char> {
    joined(novadream_dir_spec(base), store)
}

/// The name of a game's Wine prefix: its sanitised title, or `prefix` when
/// nothing of the title is left.
pub open spec fn prefix_name(title: Seq<char>) -> Seq<char> {
    if sanitised(title).len() == 0 { "prefix"@ } else { sanitised(title) }
}

/// The default Wine prefix of a game with this title, under `base`.
pub open spec fn prefix_dir_spec(base: Option<Seq<char>>, title: Seq<char>) -> Seq<char> {
    joined(joined(novadream_dir_spec(base), "prefixes"@), prefix_name(title))
}

/// Where the settings file lives under the user's configuration directory
/// `base` (`~/.config` when there is none).
pub open spec fn config_path_spec(base: Option<Seq<char>>) -> Seq<char> {
    joined(joined(or_else(base, "~/.config"@), "NovaDream"@), "config.json"@)
}

fn base_or(base: &Option<String>, fallback: &str) -> (r: String)
    ensures
        r@ == or_else(opt_view(*base), fallback@),
{
    match base {
        Some(b) => b.clone(),
        None => String::from_str(fallback),
    }
}

/// NovaDream's data directory, given the user's local data directory.
pub fn novadream_dir_in(base: &Option<String>) -> (r: String)
    ensures
        r@ == novadream_dir_spec(opt_view(*base)),
{
    let b = base_or(base, "~/.local/share");
    join(b.as_str(), "NovaDream")
}

/// NovaDream's data directory (`<local data dir>/NovaDream`).
pub fn novadream_data_dir() -> (r: String)
    ensures
        exists|b: Option<Seq<char>>| r@ == novadream_dir_spec(b),
{
    let base = data_local_dir();
    let r = novadream_dir_in(&base);
    assert(r@ == novadream_dir_spec(opt_view(base)));
    r
}

/// The directory for `store` inside NovaDream's data directory, given the
/// user's local data directory.
pub fn data_dir_in(base: &Option<String>, store: &str) -> (r: String)
    ensures
        r@ == data_dir_spec(opt_view(*base), store@),
{
    let d = novadream_dir_in(base);
    join(d.as_str(), store)
}

/// The directory for `store` inside NovaDream's data directory.
pub fn data_dir(store: &str) -> (r: String)
    ensures
        exists|b: Option<Seq<char>>| r@ == data_dir_spec(b, store@),
{
    let base = data_local_dir();
    let r = data_dir_in(&base, store);
    assert(r@ == data_dir_spec(opt_view(base), store@));
    r
}

/// The default Wine prefix for a game titled `title`, given the user's local
/// data directory.
pub fn default_prefix_in(base: &Option<String>, title: &str) -> (r: String)
    ensures
        r@ == prefix_dir_spec(opt_view(*base), title@),
{
    let safe = sanitise_title(title);
    let name = if safe.as_str().is_empty() {
        proof {
            assert(safe@.len() == 0);
        }
        String::from_str("prefix")
    } else {
        safe
    };
    let d = novadream_dir_in(base);
    let prefixes = join(d.as_str(), "prefixes");
    join(prefixes.as_str(), name.as_str())
}

/// The Wine prefix of a game titled `title` under the prefix base directory
/// of the Game Defaults: a subfolder of its own, named by `prefix_name`.
pub open spec fn prefix_under_spec(prefix_base: Seq<char>, title: Seq<char>) -> Seq<char> {
    joined(prefix_base, prefix_name(title))
}

/// The Wine prefix of a game titled `title` under the prefix base directory
/// `prefix_base` ("Default prefix base" in the Game Defaults).
pub fn prefix_under(prefix_base: &str, title: &str) -> (r: String)
    ensures
        r@ == prefix_under_spec(prefix_base@, title@),
{
    let safe = sanitise_title(title);
    let name = if safe.as_str().is_empty() {
        proof {
            assert(safe@.len() == 0);
        }
        String::from_str("prefix")
    } else {
        safe
    };
    join(prefix_base, name.as_str())
}

/// Under the default prefix base, a game's prefix is the default one:
/// `<local data dir>/NovaDream/prefixes/<name>`.
pub proof fn law_default_prefix_base(base: Option<Seq<char>>, title: Seq<char>)
    ensures
        prefix_under_spec(data_dir_spec(base, "prefixes"@), title) == prefix_dir_spec(base, title),
{
}

/// The default Wine prefix for a game, named after its sanitised title
/// (`<local data dir>/NovaDream/prefixes/<title>`).
pub fn default_prefix_for(title: &str) -> (r: String)
    ensures
        exists|b: Option<Seq<char>>| r@ == prefix_dir_spec(b, title@),
{
    let base = data_local_dir();
    let r = default_prefix_in(&base, title);
    assert(r@ == prefix_dir_spec(opt_view(base), title@));
    r
}


// ───────────────────────────── settings ────────────────────────────────────

/// NovaDream's settings, as kept in `config.json`.
#[derive(Debug)]
pub struct Config {
    pub theme: String,
    pub show_tray: bool,
    pub close_to_tray: bool,
    pub epic_library: String,
    pub gog_library: String,
    pub steam_library: String,
    pub itch_library: String,
    pub local_library: String,
    /// Name of the default Wine/Proton runner.
    pub default_runner: String,
    /// Base directory for Wine prefixes.
    pub default_wine_prefix: String,
    /// Extra flags passed to every game launch.
    pub launch_flags: String,
    /// `KEY=VAL` pairs, one per line.
    pub env_vars: String,
    pub auto_fetch_cover: bool,
    pub minimize_on_launch: bool,
    pub track_playtime: bool,
    pub show_playtime_on_card: bool,
    /// Enable MangoHud for all games by default.
    pub use_mangohud: bool,
    /// Enable GameMode for all games by default.
    pub use_gamemode: bool,
    /// Use the wine-wayland driver by default.
    pub use_wine_wayland: bool,
}

/// `c` holds the default settings for the local data directory `base`.
pub open spec fn is_default_config(c: Config, base: Option<Seq<char>>) -> bool {
    &&& c.theme@ == "catppuccin-macchiato"@
    &&& c.show_tray && c.close_to_tray
    &&& c.epic_library@ == data_dir_spec(base, "epic"@)
    &&& c.gog_library@ == data_dir_spec(base, "gog"@)
    &&& c.steam_library@ == data_dir_spec(base, "steam"@)
    &&& c.itch_library@ == data_dir_spec(base, "itch"@)
    &&& c.local_library@ == data_dir_spec(base, "local"@)
    &&& c.default_runner@.len() == 0
    &&& c.default_wine_prefix@ == data_dir_spec(base, "prefixes"@)
    &&& c.launch_flags@.len() == 0
    &&& c.env_vars@.len() == 0
    &&& c.auto_fetch_cover && c.minimize_on_launch && c.track_playtime
    &&& c.show_playtime_on_card
    &&& !c.use_mangohud && !c.use_gamemode && !c.use_wine_wayland
}

/// The default theme's name.
pub fn default_theme() -> (r: String)
    ensures
        r@ == "catppuccin-macchiato"@,
{
    String::from_str("catppuccin-macchiato")
}

/// The default of the switches that start out on.
pub fn default_true() -> (r: bool)
    ensures
        r,
{
    true
}

/// The default Epic library directory.
pub fn default_epic_path() -> (r: String)
    ensures
        exists|b: Option<Seq<char>>| r@ == data_dir_spec(b, "epic"@),
{
    data_dir("epic")
}

/// The default GOG library directory.
pub fn default_gog_path() -> (r: String)
    ensures
        exists|b: Option<Seq<char>>| r@ == data_dir_spec(b, "gog"@),
{
    data_dir("gog")
}

/// The default Steam library directory.
pub fn default_steam_path() -> (r: String)
    ensures
        exists|b: Option<Seq<char>>| r@ == data_dir_spec(b, "steam"@),
{
    data_dir("steam")
}

/// The default Itch.io library directory.
pub fn default_itch_path() -> (r: String)
    ensures
        exists|b: Option<Seq<char>>| r@ == data_dir_spec(b, "itch"@),
{
    data_dir("itch")
}

/// The default local library directory.
pub fn default_local_path() -> (r: String)
    ensures
        exists|b: Option<Seq<char>>| r@ == data_dir_spec(b, "local"@),
{
    data_dir("local")
}

/// The default base directory of Wine prefixes.
pub fn default_prefix_base() -> (r: String)
    ensures
        exists|b: Option<Seq<char>>| r@ == data_dir_spec(b, "prefixes"@),
{
    data_dir("prefixes")
}

impl Config {
    /// The default settings for the given local data directory.
    pub fn defaults_in(base: &Option<String>) -> (r: Config)
        ensures
            is_default_config(r, opt_view(*base)),
    {
        Config {
            theme: default_theme(),
            show_tray: true,
            close_to_tray: true,
            epic_library: data_dir_in(base, "epic"),
            gog_library: data_dir_in(base, "gog"),
            steam_library: data_dir_in(base, "steam"),
            itch_library: data_dir_in(base, "itch"),
            local_library: data_dir_in(base, "local"),
            default_runner: String::new(),
            default_wine_prefix: data_dir_in(base, "prefixes"),
            launch_flags: String::new(),
            env_vars: String::new(),
            auto_fetch_cover: true,
            minimize_on_launch: true,
            track_playtime: true,
            show_playtime_on_card: true,
            use_mangohud: false,
            use_gamemode: false,
            use_wine_wayland: false,
        }
    }

    /// Where the settings file lives, given the user's configuration directory.
    pub fn config_path_in(base: &Option<String>) -> (r: String)
        ensures
            r@ == config_path_spec(opt_view(*base)),
    {
        let b = base_or(base, "~/.config");
        let d = join(b.as_str(), "NovaDream");
        join(d.as_str(), "config.json")
    }

    /// Where the settings file lives (`<config dir>/NovaDream/config.json`).
    pub fn config_path() -> (r: String)
        ensures
            exists|b: Option<Seq<char>>| r@ == config_path_spec(b),
    {
        let base = config_dir();
        let r = Self::config_path_in(&base);
        assert(r@ == config_path_spec(opt_view(base)));
        r
    }
}

impl Default for Config {
    fn default() -> (r: Self)
        ensures
            exists|b: Option<Seq<char>>| is_default_config(r, b),
    {
        let base = data_local_dir();
        let r = Config::defaults_in(&base);
        assert(is_default_config(r, opt_view(base)));
        r
    }
}


/// The folders NovaDream keeps in its data directory `data_dir`: runners
/// (`proton`, `wine`), covers and Wine prefixes.
pub fn data_subdirs(data_dir: &str) -> (r: Vec<String>)
    ensures
        r@.len() == 4,
        r@[0]@ == joined(data_dir@, "proton"@),
        r@[1]@ == joined(data_dir@, "wine"@),
        r@[2]@ == joined(data_dir@, "covers"@),
        r@[3]@ == joined(data_dir@, "prefixes"@),
{
    vec![join(data_dir, "proton"), join(data_dir, "wine"), join(data_dir, "covers"), join(data_dir, "prefixes")]
}

/// A game's default prefix folder is named after its title: its name is
/// never empty and never `.` or `..`, so it stays inside the prefixes folder; when the title keeps something once sanitised, the name is
/// that safe name (only letters, digits, `_` and `.`, no `_` at either end,
/// never two in a row); and titles that sanitise alike share the folder.
pub proof fn law_prefix_named_after_title(base: Option<Seq<char>>, t1: Seq<char>, t2: Seq<char>)
    ensures
        prefix_name(t1).len() > 0,
        !is_dot_name(prefix_name(t1)),
        sanitised(t1).len() > 0 ==> prefix_name(t1) == sanitised(t1) && all_allowed(prefix_name(t1))
            && no_edge_underscore(prefix_name(t1)) && no_double_underscore(prefix_name(t1)),
        sanitised(t1) == sanitised(t2) ==> prefix_dir_spec(base, t1) == prefix_dir_spec(base, t2),
{
    sanitised_shape(t1);
    if sanitised(t1).len() == 0 {
        reveal_strlit("prefix");
        assert(prefix_name(t1) == "prefix"@);
        assert(prefix_name(t1)[0] == 'p');
    }
}
} // verus!
