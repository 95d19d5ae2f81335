//! The game model: where a game comes from, how it runs, and what NovaDream
//! remembers about it.
use vstd::prelude::*;

use crate::paths::clone_opt;
use crate::text::{decimal, push_decimal, push_str, string_of};

verus! {

/// The store a game belongs to.
#[derive(Debug, Clone, Copy, PartialEq, Eq, Structural)]
pub enum Store {
    Epic,
    Gog,
    Steam,
    Itch,
    Local,
}

/// The name shown for each store.
pub open spec fn store_label(s: Store) -> Seq<char> {
    match s {
        Store::Epic => "Epic"@,
        Store::Gog => "GOG"@,
        Store::Steam => "Steam"@,
        Store::Itch => "Itch.io"@,
        Store::Local => "Local"@,
    }
}

/// The badge colour of each store.
pub open spec fn store_badge_color(s: Store) -> Seq<char> {
    match s {
        Store::Epic => "#2563eb"@,
        Store::Gog => "#9333ea"@,
        Store::Steam => "#1e40af"@,
        Store::Itch => "#e11d48"@,
        Store::Local => "#16a34a"@,
    }
}

impl Store {
    /// The name shown for this store.
    pub fn label(&self) -> (r: &'static str)
        ensures
            r@ == store_label(*self),
    {
        match self {
            Store::Epic => "Epic",
            Store::Gog => "GOG",
            Store::Steam => "Steam",
            Store::Itch => "Itch.io",
            Store::Local => "Local",
        }
    }

    /// The badge colour of this store.
    pub fn badge_color(&self) -> (r: &'static str)
        ensures
            r@ == store_badge_color(*self),
    {
        match self {
            Store::Epic => "#2563eb",
            Store::Gog => "#9333ea",
            Store::Steam => "#1e40af",
            Store::Itch => "#e11d48",
            Store::Local => "#16a34a",
        }
    }
}

/// How a game is started.
#[derive(Debug, Clone, Copy, PartialEq, Eq, Structural)]
pub enum LaunchMode {
    /// A native Linux binary.
    Linux,
    /// A Windows program, run through Wine or Proton.
    Windows,
    /// A page opened in the web browser.
    Browser,
}

pub open spec fn launch_mode_label(m: LaunchMode) -> Seq<char> {
    match m {
        LaunchMode::Linux => "Linux"@,
        LaunchMode::Windows => "Windows (Wine/Proton)"@,
        LaunchMode::Browser => "Web Browser"@,
    }
}

impl LaunchMode {
    /// The name shown for this launch mode.
    pub fn label(&self) -> (r: &'static str)
        ensures
            r@ == launch_mode_label(*self),
    {
        match self {
            LaunchMode::Linux => "Linux",
            LaunchMode::Windows => "Windows (Wine/Proton)",
            LaunchMode::Browser => "Web Browser",
        }
    }
}

/// A game in the library, with its per-game overrides.
#[derive(Debug)]
pub struct Game {
    pub id: String,
    pub title: String,
    pub store: Store,
    pub cover_url: Option<String>,
    pub cover_path: Option<String>,
    pub install_path: Option<String>,
    pub exe_path: Option<String>,
    pub launch_mode: LaunchMode,
    /// Per-game runner override.
    pub runner: Option<String>,
    pub installed: bool,
    /// Seconds played.
    pub play_time: u64,
    /// Unix time of the last session's end.
    pub last_played: Option<i64>,
    /// Custom WINEPREFIX for this game.
    pub wine_prefix: Option<String>,
    /// Extra launch arguments.
    pub launch_args: Option<String>,
    /// `KEY=VAL` pairs, one per line.
    pub env_vars: Option<String>,
    /// Working directory override.
    pub work_dir: Option<String>,
    /// Script to run before launch.
    pub pre_launch: Option<String>,
    /// Script to run after exit.
    pub post_exit: Option<String>,
    /// User notes.
    pub notes: Option<String>,
    /// Hidden from the library.
    pub hidden: bool,
    /// Pinned to the top.
    pub favorite: bool,
    /// Wrap the launch with mangohud.
    pub use_mangohud: bool,
    /// Wrap the launch with gamemoderun.
    pub use_gamemode: bool,
    /// Use the wine-wayland driver for this game.
    pub use_wine_wayland: bool,
}

impl Clone for Game {
    fn clone(&self) -> (r: Self)
        ensures
            r == *self,
    {
        Game {
            id: self.id.clone(),
            title: self.title.clone(),
            store: self.store,
            cover_url: clone_opt(&self.cover_url),
            cover_path: clone_opt(&self.cover_path),
            install_path: clone_opt(&self.install_path),
            exe_path: clone_opt(&self.exe_path),
            launch_mode: self.launch_mode,
            runner: clone_opt(&self.runner),
            installed: self.installed,
            play_time: self.play_time,
            last_played: self.last_played,
            wine_prefix: clone_opt(&self.wine_prefix),
            launch_args: clone_opt(&self.launch_args),
            env_vars: clone_opt(&self.env_vars),
            work_dir: clone_opt(&self.work_dir),
            pre_launch: clone_opt(&self.pre_launch),
            post_exit: clone_opt(&self.post_exit),
            notes: clone_opt(&self.notes),
            hidden: self.hidden,
            favorite: self.favorite,
            use_mangohud: self.use_mangohud,
            use_gamemode: self.use_gamemode,
            use_wine_wayland: self.use_wine_wayland,
        }
    }
}

/// `g` is the blank game: empty id and title, a local Linux game with
/// nothing set, not installed, never played.
pub open spec fn is_blank_game(g: Game) -> bool {
    &&& g.id@.len() == 0 && g.title@.len() == 0
    &&& g.store == Store::Local && g.launch_mode == LaunchMode::Linux
    &&& g.cover_url is None && g.cover_path is None && g.install_path is None
    &&& g.exe_path is None && g.runner is None
    &&& !g.installed && g.play_time == 0 && g.last_played is None
    &&& g.wine_prefix is None && g.launch_args is None && g.env_vars is None
    &&& g.work_dir is None && g.pre_launch is None && g.post_exit is None && g.notes is None
    &&& !g.hidden && !g.favorite && !g.use_mangohud && !g.use_gamemode && !g.use_wine_wayland
}

impl Default for Game {
    fn default() -> (r: Self)
        ensures
            is_blank_game(r),
    {
        Game {
            id: String::new(),
            title: String::new(),
            store: Store::Local,
            cover_url: None,
            cover_path: None,
            install_path: None,
            exe_path: None,
            launch_mode: LaunchMode::Linux,
            runner: None,
            installed: false,
            play_time: 0,
            last_played: None,
            wine_prefix: None,
            launch_args: None,
            env_vars: None,
            work_dir: None,
            pre_launch: None,
            post_exit: None,
            notes: None,
            hidden: false,
            favorite: false,
            use_mangohud: false,
            use_gamemode: false,
            use_wine_wayland: false,
        }
    }
}

/// How the play time `secs` is shown: whole hours and minutes (`2h 5m`),
/// minutes alone under an hour (`5m`), and `Never played` under a minute.
pub open spec fn play_time_text(secs: nat) -> Seq<char> {
    let h = secs / 3600;
    let m = (secs % 3600) / 60;
    if h > 0 {
        decimal(h) + "h "@ + decimal(m) + "m"@
    } else if m > 0 {
        decimal(m) + "m"@
    } else {
        "Never played"@
    }
}

/// How a last-played time is shown at time `now`: `Never`, `Just now` within
/// the hour, then whole hours, days or weeks ago. Times in the future count
/// as just now.
pub open spec fn last_played_text(last: Option<i64>, now: int) -> Seq<char> {
    match last {
        None => "Never"@,
        Some(ts) => {
            let diff = now - ts;
            if diff < 3600 {
                "Just now"@
            } else if diff < 86400 {
                decimal((diff / 3600) as nat) + "h ago"@
            } else if diff < 604800 {
                decimal((diff / 86400) as nat) + "d ago"@
            } else {
                decimal((diff / 604800) as nat) + "w ago"@
            }
        },
    }
}

/// The current Unix time in whole seconds (0 when the clock reads earlier
/// than the epoch). It reads the clock, so nothing is stated of the answer.
#[verifier::external_body]
pub(crate) fn unix_now_secs() -> (r: u64) {
    std::time::SystemTime::now()
        .duration_since(std::time::UNIX_EPOCH)
        .unwrap_or_default()
        .as_secs()
}

impl Game {
    /// The play time as shown on the game's card.
    pub fn play_time_str(&self) -> (r: String)
        ensures
            r@ == play_time_text(self.play_time as nat),
    {
        let h = self.play_time / 3600;
        let m = (self.play_time % 3600) / 60;
        let mut v: Vec<char> = Vec::new();
        if h > 0 {
            push_decimal(&mut v, h as u128);
            push_str(&mut v, "h ");
            push_decimal(&mut v, m as u128);
            push_str(&mut v, "m");
        } else if m > 0 {
            push_decimal(&mut v, m as u128);
            push_str(&mut v, "m");
        } else {
            push_str(&mut v, "Never played");
        }
        assert(v@ =~= play_time_text(self.play_time as nat));
        string_of(v.as_slice())
    }

    /// The last-played time as shown on the game's card at Unix time `now`.
    pub fn last_played_str_at(&self, now: i64) -> (r: String)
        ensures
            r@ == last_played_text(self.last_played, now as int),
    {
        let mut v: Vec<char> = Vec::new();
        match self.last_played {
            None => {
                push_str(&mut v, "Never");
            },
            Some(ts) => {
                let diff: i128 = (now as i128) - (ts as i128);
                if diff < 3600 {
                    push_str(&mut v, "Just now");
                } else if diff < 86400 {
                    push_decimal(&mut v, (diff / 3600) as u128);
                    push_str(&mut v, "h ago");
                } else if diff < 604800 {
                    push_decimal(&mut v, (diff / 86400) as u128);
                    push_str(&mut v, "d ago");
                } else {
                    push_decimal(&mut v, (diff / 604800) as u128);
                    push_str(&mut v, "w ago");
                }
            },
        }
        assert(v@ =~= last_played_text(self.last_played, now as int));
        string_of(v.as_slice())
    }

    /// The last-played time as shown on the game's card now.
    pub fn last_played_str(&self) -> (r: String)
        ensures
            exists|now: i64| r@ == last_played_text(self.last_played, now as int),
    {
        let secs = unix_now_secs();
        let now = secs as i64;
        let r = self.last_played_str_at(now);
        assert(r@ == last_played_text(self.last_played, now as int));
        r
    }
}

} // verus!
