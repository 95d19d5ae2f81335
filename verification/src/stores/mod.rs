//! Store backends: what each store's command-line tool is asked, and how its
//! answers turn into games.
use vstd::prelude::*;

use crate::command::CommandSpec;
use crate::game::{Game, LaunchMode, Store};
use crate::paths::{opt_view, or_else};
use crate::text::{
    chars_of, copy_range, find_index, find_str, lemma_find_index, split_once, split_once_spec,
    string_of, trim, trim_spec, CharClass,
};

pub mod epic;
pub mod gog;
pub mod itch;
pub mod steam;

pub use epic::EpicStore;
pub use gog::GogStore;
pub use itch::ItchStore;
pub use steam::SteamStore;

verus! {

/// Why a store operation failed.
#[derive(Debug, Clone, Copy, PartialEq, Eq, Structural)]
pub enum StoreError {
    /// No login code was given: the pasted text holds no `code=` and is
    /// empty once white space is trimmed.
    NoAuthCode,
    /// The store's tool rejected the login.
    AuthFailed,
    /// The pasted API key is empty.
    EmptyApiKey,
    /// The store needs a login first.
    NotAuthenticated,
    /// The store's tool did not answer with JSON.
    InvalidJson,
}

pub open spec fn store_error_text(e: StoreError) -> Seq<char> {
    match e {
        StoreError::NoAuthCode => "No auth code in URL"@,
        StoreError::AuthFailed => "Login failed"@,
        StoreError::EmptyApiKey => "Empty API key"@,
        StoreError::NotAuthenticated => "Not authenticated"@,
        StoreError::InvalidJson => "Invalid JSON from the store tool"@,
    }
}

impl StoreError {
    /// The message shown for this error.
    pub fn message(&self) -> (r: &'static str)
        ensures
            r@ == store_error_text(*self),
    {
        match self {
            StoreError::NoAuthCode => "No auth code in URL",
            StoreError::AuthFailed => "Login failed",
            StoreError::EmptyApiKey => "Empty API key",
            StoreError::NotAuthenticated => "Not authenticated",
            StoreError::InvalidJson => "Invalid JSON from the store tool",
        }
    }
}

/// What every store backend offers without touching the system: its login
/// page and the commands that launch or install one of its games.
pub trait StoreBackend {
    fn auth_url(&self) -> Option<String>;
    fn launch_command(&self, game: &Game) -> Option<CommandSpec>;
    fn install_command(&self, game: &Game) -> Result<CommandSpec, StoreError>;
}

/// `g` is a game listed by a store: the given id, title, cover URL, install
/// path and installed flag, a Linux launch, and nothing else set.
pub open spec fn is_listed_game(
    g: Game,
    store: Store,
    id: Seq<char>,
    title: Seq<char>,
    cover: Option<Seq<char>>,
    install: Option<Seq<char>>,
    installed: bool,
) -> bool {
    &&& g.id@ == id && g.title@ == title && g.store == store
    &&& opt_view(g.cover_url) == cover && opt_view(g.install_path) == install
    &&& g.installed == installed
    &&& g.launch_mode == LaunchMode::Linux
    &&& g.cover_path is None && g.exe_path is None && g.runner is None
    &&& g.play_time == 0 && g.last_played is None
    &&& g.wine_prefix is None && g.launch_args is None && g.env_vars is None
    &&& g.work_dir is None && g.pre_launch is None && g.post_exit is None && g.notes is None
    &&& !g.hidden && !g.favorite && !g.use_mangohud && !g.use_gamemode && !g.use_wine_wayland
}

/// A game listed by a store.
pub fn listed_game(
    store: Store,
    id: String,
    title: String,
    cover: Option<String>,
    install: Option<String>,
    installed: bool,
) -> (g: Game)
    ensures
        is_listed_game(g, store, id@, title@, opt_view(cover), opt_view(install), installed),
{
    Game {
        id,
        title,
        store,
        cover_url: cover,
        cover_path: None,
        install_path: install,
        exe_path: None,
        launch_mode: LaunchMode::Linux,
        runner: None,
        installed,
        play_time: 0,
        last_played: None,
        wine_prefix: None,
        launch_args: None,
        env_vars: None,
        work_dir: None,
        pre_launch: None,
        post_exit: None,
        notes: None,
        hidden: false,
        favorite: false,
        use_mangohud: false,
        use_gamemode: false,
        use_wine_wayland: false,
    }
}

/// The text a JSON string holds, or `default`.
pub fn str_or(v: Option<&String>, default: &str) -> (r: String)
    ensures
        r@ == or_else(match v { Some(s) => Some(s@), None => None }, default@),
{
    match v {
        Some(s) => s.clone(),
        None => String::from_str(default),
    }
}

/// The text a JSON string holds, if it is one.
pub fn str_opt(v: Option<&String>) -> (r: Option<String>)
    ensures
        opt_view(r) == match v { Some(s) => Some(s@), None => None },
{
    match v {
        Some(s) => Some(s.clone()),
        None => None,
    }
}

/// The login code in what the user pasted: in a redirect URL, what follows
/// the first `code=`, up to the next `code=` or `&`; otherwise the pasted
/// code itself, without surrounding white space (none when that is empty).
pub open spec fn auth_code_spec(url: Seq<char>) -> Option<Seq<char>> {
    let i = find_index(url, "code="@);
    if i < 0 {
        let t = trim_spec(url, CharClass::Whitespace);
        if t.len() == 0 { None } else { Some(t) }
    } else {
        let rest = url.skip(i + "code="@.len());
        let j = find_index(rest, "code="@);
        let piece = if j < 0 { rest } else { rest.take(j) };
        Some(split_once_spec(piece, '&').0)
    }
}

/// Takes the login code out of what the user pasted: a redirect URL
/// (`url.split("code=").nth(1)`, up to the first `&`) or the bare code.
pub fn auth_code(url: &str) -> (r: Result<String, StoreError>)
    ensures
        match r {
            Ok(code) => auth_code_spec(url@) == Some(code@),
            Err(e) => auth_code_spec(url@) is None && e == StoreError::NoAuthCode,
        },
{
    let v = chars_of(url);
    let p = chars_of("code=");
    let n = v.len();
    match find_str(v.as_slice(), p.as_slice()) {
        None => {
            let t = trim(v.as_slice(), CharClass::Whitespace);
            if t.len() == 0 {
                Err(StoreError::NoAuthCode)
            } else {
                Ok(string_of(t.as_slice()))
            }
        },
        Some(i) => {
            proof {
                lemma_find_index(v@, p@);
            }
            let rest = copy_range(v.as_slice(), i + p.len(), n);
            assert(rest@ =~= v@.skip(i + p@.len()));
            let piece = match find_str(rest.as_slice(), p.as_slice()) {
                None => rest,
                Some(j) => {
                    proof {
                        lemma_find_index(rest@, p@);
                    }
                    let t = copy_range(rest.as_slice(), 0, j);
                    assert(t@ =~= rest@.take(j as int));
                    t
                },
            };
            let (code, _) = split_once(piece.as_slice(), '&');
            Ok(string_of(code.as_slice()))
        },
    }
}

/// One command-line argument.
pub fn arg(s: &str) -> (r: String)
    ensures
        r@ == s@,
{
    String::from_str(s)
}

} // verus!
