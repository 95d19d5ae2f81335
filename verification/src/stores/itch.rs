//! Itch.io, through the `butler` command-line tool and an API key.
use vstd::prelude::*;

use crate::command::{command_text, plain_command, CommandSpec};
use crate::game::{Game, Store};
use crate::json::{
    array_value, as_array, as_str, display_json, field, get, json_display, or_null, parse_json,
    parsed_json, str_value, Json,
};
use crate::paths::{clone_opt, config_dir, data_local_dir, join, joined, opt_view, or_else};
use crate::stores::{arg, is_listed_game, listed_game, str_opt, str_or, StoreBackend, StoreError};
use crate::text::{chars_of, lemma_trim_idempotent, string_of, string_views, trim, trim_spec, CharClass};

verus! {

/// The Itch.io backend.
pub struct ItchStore {
    authenticated: bool,
    api_key: Option<String>,
}

/// The API key kept in the key file with contents `contents`: the contents
/// without surrounding white space, when anything is left.
pub open spec fn stored_key(contents: Option<Seq<char>>) -> Option<Seq<char>> {
    match contents {
        Some(c) => if trim_spec(c, CharClass::Whitespace).len() > 0 {
            Some(trim_spec(c, CharClass::Whitespace))
        } else {
            None
        },
        None => None,
    }
}

/// The games a `butler status --json` document lists: the `owned_keys` items.
pub open spec fn owned_items(doc: Json) -> Seq<Json> {
    match array_value(field(Some(doc), "owned_keys"@)) {
        Some(a) => a,
        None => seq![],
    }
}

/// `g` is the game that the owned-key item `item` describes: the id is the
/// JSON text of `game.id` (`null` when it is missing).
pub open spec fn itch_game(item: Json, g: Game) -> bool {
    let game = field(Some(item), "game"@);
    is_listed_game(
        g,
        Store::Itch,
        json_display(or_null(field(game, "id"@))),
        or_else(str_value(field(game, "title"@)), "Unknown"@),
        str_value(field(game, "cover_url"@)),
        None,
        false,
    )
}

/// Where a game is installed: `<base>/NovaDream/itch/<id>`, `base` being the
/// local data directory (empty when there is none).
pub open spec fn itch_install_dir(base: Option<Seq<char>>, id: Seq<char>) -> Seq<char> {
    joined(joined(or_else(base, ""@), "NovaDream/itch"@), id)
}

/// Where the API key is kept: `<base>/NovaDream/itch_key`, `base` being the
/// configuration directory (empty when there is none).
pub open spec fn itch_key_path(base: Option<Seq<char>>) -> Seq<char> {
    joined(or_else(base, ""@), "NovaDream/itch_key"@)
}

fn base_or_empty(base: &Option<String>) -> (r: String)
    ensures
        r@ == or_else(opt_view(*base), ""@),
{
    match base {
        Some(b) => b.clone(),
        None => String::from_str(""),
    }
}

impl ItchStore {
    /// The backend, given the contents of the key file (`None` when it could
    /// not be read).
    pub fn new(key_file: Option<String>) -> (r: ItchStore)
        ensures
            r.key() == stored_key(opt_view(key_file)),
            r.logged_in() == (r.key() is Some),
    {
        let api_key = match key_file {
            Some(c) => {
                let t = trim(chars_of(c.as_str()).as_slice(), CharClass::Whitespace);
                if t.len() > 0 {
                    Some(string_of(t.as_slice()))
                } else {
                    None
                }
            },
            None => None,
        };
        let authenticated = match &api_key {
            Some(_) => true,
            None => false,
        };
        ItchStore { authenticated, api_key }
    }

    pub closed spec fn logged_in(&self) -> bool {
        self.authenticated
    }

    pub closed spec fn key(&self) -> Option<Seq<char>> {
        opt_view(self.api_key)
    }

    pub fn is_authenticated(&self) -> (r: bool)
        ensures
            r == self.logged_in(),
    {
        self.authenticated
    }

    /// Where the API key is kept, given the configuration directory.
    pub fn key_path_in(base: &Option<String>) -> (r: String)
        ensures
            r@ == itch_key_path(opt_view(*base)),
    {
        let b = base_or_empty(base);
        join(b.as_str(), "NovaDream/itch_key")
    }

    /// Where the API key is kept.
    pub fn key_path() -> (r: String)
        ensures
            exists|b: Option<Seq<char>>| r@ == itch_key_path(b),
    {
        let base = config_dir();
        let r = Self::key_path_in(&base);
        assert(r@ == itch_key_path(opt_view(base)));
        r
    }

    /// The API key in what the user pasted: the text without surrounding
    /// white space, refused when nothing is left.
    pub fn api_key_from(input: &str) -> (r: Result<String, StoreError>)
        ensures
            match r {
                Ok(k) => k@ == trim_spec(input@, CharClass::Whitespace) && k@.len() > 0,
                Err(e) => trim_spec(input@, CharClass::Whitespace).len() == 0 && e == StoreError::EmptyApiKey,
            },
    {
        let t = trim(chars_of(input).as_slice(), CharClass::Whitespace);
        if t.len() == 0 {
            Err(StoreError::EmptyApiKey)
        } else {
            Ok(string_of(t.as_slice()))
        }
    }

    /// Keeps a saved API key: the backend is logged in with it.
    pub fn store_key(&mut self, key: String)
        ensures
            final(self).key() == Some(key@),
            final(self).logged_in(),
    {
        self.api_key = Some(key);
        self.authenticated = true;
    }

    /// `butler status --json <key>`, whose output lists the owned games.
    pub fn library_command(&self) -> (r: Result<CommandSpec, StoreError>)
        ensures
            match r {
                Ok(c) => self.key() is Some && command_text(c) == plain_command(
                    "butler"@, seq!["status"@, "--json"@, self.key().unwrap()]),
                Err(e) => self.key() is None && e == StoreError::NotAuthenticated,
            },
    {
        match &self.api_key {
            None => Err(StoreError::NotAuthenticated),
            Some(k) => {
                let args = vec![arg("status"), arg("--json"), k.clone()];
                assert(string_views(args@) =~= seq!["status"@, "--json"@, k@]);
                Ok(CommandSpec::new(arg("butler"), args))
            },
        }
    }

    /// The games that a `butler status --json` document lists, in order.
    pub fn games_from_json(doc: &Json) -> (r: Vec<Game>)
        ensures
            r@.len() == owned_items(*doc).len(),
            forall|i: int| 0 <= i < r@.len() ==> itch_game(owned_items(*doc)[i], #[trigger] r@[i]),
    {
        let mut r: Vec<Game> = Vec::new();
        match as_array(get(Some(doc), "owned_keys")) {
            None => r,
            Some(items) => {
                let n = items.len();
                let mut i: usize = 0;
                while i < n
                    invariant
                        i <= n,
                        n == items@.len(),
                        items@ == owned_items(*doc),
                        r@.len() == i,
                        forall|k: int| 0 <= k < i ==> itch_game(items@[k], #[trigger] r@[k]),
                    decreases n - i,
                {
                    let game = get(Some(&items[i]), "game");
                    let id = match get(game, "id") {
                        Some(j) => display_json(j),
                        None => display_json(&Json::Null),
                    };
                    let title = str_or(as_str(get(game, "title")), "Unknown");
                    let cover = str_opt(as_str(get(game, "cover_url")));
                    r.push(listed_game(Store::Itch, id, title, cover, None, false));
                    i = i + 1;
                }
                r
            },
        }
    }

    /// The library in the output of `butler status --json`.
    pub fn games_from_output(stdout: &[u8]) -> (r: Result<Vec<Game>, StoreError>)
        ensures
            match r {
                Ok(games) => parsed_json(stdout@) matches Some(doc) && games@.len() == owned_items(doc).len()
                    && forall|i: int| 0 <= i < games@.len() ==> itch_game(owned_items(doc)[i], #[trigger] games@[i]),
                Err(e) => parsed_json(stdout@) is None && e == StoreError::InvalidJson,
            },
    {
        match parse_json(stdout) {
            None => Err(StoreError::InvalidJson),
            Some(doc) => Ok(Self::games_from_json(&doc)),
        }
    }

    /// `butler install <id> <install dir> <key>`, given the local data
    /// directory.
    pub fn install_command_in(&self, game: &Game, base: &Option<String>) -> (r: Result<CommandSpec, StoreError>)
        ensures
            match r {
                Ok(c) => self.key() is Some && command_text(c) == plain_command("butler"@,
                    seq!["install"@, game.id@, itch_install_dir(opt_view(*base), game.id@), self.key().unwrap()]),
                Err(e) => self.key() is None && e == StoreError::NotAuthenticated,
            },
    {
        match &self.api_key {
            None => Err(StoreError::NotAuthenticated),
            Some(k) => {
                let b = base_or_empty(base);
                let d = join(b.as_str(), "NovaDream/itch");
                let dir = join(d.as_str(), game.id.as_str());
                let args = vec![arg("install"), game.id.clone(), dir, k.clone()];
                assert(string_views(args@) =~= seq!["install"@, game.id@,
                    itch_install_dir(opt_view(*base), game.id@), k@]);
                Ok(CommandSpec::new(arg("butler"), args))
            },
        }
    }
}

impl StoreBackend for ItchStore {
    /// Itch.io has no OAuth login: this is the page where API keys are made.
    fn auth_url(&self) -> (r: Option<String>)
        ensures
            r matches Some(u) && u@ == "https://itch.io/user/settings/api-keys"@,
    {
        Some(String::from_str("https://itch.io/user/settings/api-keys"))
    }

    /// `butler run <install path>`, when the game has an install path.
    fn launch_command(&self, game: &Game) -> (r: Option<CommandSpec>)
        ensures
            match game.install_path {
                Some(p) => r matches Some(c) && command_text(c) == plain_command("butler"@, seq!["run"@, p@]),
                None => r is None,
            },
    {
        match &game.install_path {
            None => None,
            Some(p) => {
                let args = vec![arg("run"), p.clone()];
                assert(string_views(args@) =~= seq!["run"@, p@]);
                Some(CommandSpec::new(arg("butler"), args))
            },
        }
    }

    /// `butler install <id> <install dir> <key>`.
    fn install_command(&self, game: &Game) -> (r: Result<CommandSpec, StoreError>)
        ensures
            match r {
                Ok(c) => self.key() is Some && exists|b: Option<Seq<char>>| command_text(c) == plain_command("butler"@,
                    seq!["install"@, game.id@, itch_install_dir(b, game.id@), self.key().unwrap()]),
                Err(e) => self.key() is None && e == StoreError::NotAuthenticated,
            },
    {
        let base = data_local_dir();
        let r = self.install_command_in(game, &base);
        assert(r matches Ok(c) ==> command_text(c) == plain_command("butler"@,
            seq!["install"@, game.id@, itch_install_dir(opt_view(base), game.id@), self.key().unwrap()]));
        r
    }
}


/// A key given at log-in is the key read back from the key file it is
/// saved to: the key the user pasted, without surrounding white space.
pub proof fn law_key_read_back(input: Seq<char>)
    requires
        trim_spec(input, CharClass::Whitespace).len() > 0,
    ensures
        stored_key(Some(trim_spec(input, CharClass::Whitespace))) == Some(trim_spec(input, CharClass::Whitespace)),
{
    lemma_trim_idempotent(input, CharClass::Whitespace);
}
} // verus!
