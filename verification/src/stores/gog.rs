//! GOG, through the `gogdl` command-line tool.
use vstd::prelude::*;

use crate::command::{command_text, plain_command, CommandSpec};
use crate::game::{Game, Store};
use crate::json::{as_array, as_bool, as_str, bool_value, field, get, parse_json, parsed_json, str_value, Json};
use crate::paths::{opt_view, or_else};
use crate::stores::epic::listed_items;
use crate::stores::{arg, auth_code, auth_code_spec, is_listed_game, listed_game, str_opt, str_or, StoreBackend, StoreError};
use crate::text::{chars_of, push_chars, string_of, string_views};

verus! {

/// The GOG backend.
pub struct GogStore {
    authenticated: bool,
}

/// The cover URL of a GOG library item: its protocol-relative `image`, with
/// `https:` put in front.
pub open spec fn gog_cover(item: Json) -> Option<Seq<char>> {
    match str_value(field(Some(item), "image"@)) {
        Some(s) => Some("https:"@ + s),
        None => None,
    }
}

/// `g` is the game that the `gogdl games --json` item `item` describes.
pub open spec fn gog_game(item: Json, g: Game) -> bool {
    is_listed_game(
        g,
        Store::Gog,
        or_else(str_value(field(Some(item), "id"@)), ""@),
        or_else(str_value(field(Some(item), "title"@)), "Unknown"@),
        gog_cover(item),
        str_value(field(Some(item), "path"@)),
        match bool_value(field(Some(item), "installed"@)) {
            Some(b) => b,
            None => false,
        },
    )
}

fn gog_cover_of(item: &Json) -> (r: Option<String>)
    ensures
        opt_view(r) == gog_cover(*item),
{
    match as_str(get(Some(item), "image")) {
        None => None,
        Some(s) => {
            let mut v = chars_of("https:");
            push_chars(&mut v, chars_of(s.as_str()).as_slice());
            Some(string_of(v.as_slice()))
        },
    }
}

impl GogStore {
    /// The backend, logged in when `gogdl auth --check` succeeded.
    pub fn new(logged_in: bool) -> (r: GogStore)
        ensures
            r.logged_in() == logged_in,
    {
        GogStore { authenticated: logged_in }
    }

    pub closed spec fn logged_in(&self) -> bool {
        self.authenticated
    }

    pub fn is_authenticated(&self) -> (r: bool)
        ensures
            r == self.logged_in(),
    {
        self.authenticated
    }

    /// `gogdl auth --check`, whose success means a login.
    pub fn status_command() -> (r: CommandSpec)
        ensures
            command_text(r) == plain_command("gogdl"@, seq!["auth"@, "--check"@]),
    {
        let args = vec![arg("auth"), arg("--check")];
        assert(string_views(args@) =~= seq!["auth"@, "--check"@]);
        CommandSpec::new(arg("gogdl"), args)
    }

    /// The command that hands the login code in the redirect URL to gogdl
    /// (`gogdl auth --code <code>`).
    pub fn login_command(url: &str) -> (r: Result<CommandSpec, StoreError>)
        ensures
            match r {
                Ok(c) => auth_code_spec(url@) is Some && command_text(c) == plain_command(
                    "gogdl"@, seq!["auth"@, "--code"@, auth_code_spec(url@).unwrap()]),
                Err(e) => auth_code_spec(url@) is None && e == StoreError::NoAuthCode,
            },
    {
        let code = auth_code(url)?;
        let args = vec![arg("auth"), arg("--code"), code];
        assert(string_views(args@) =~= seq!["auth"@, "--code"@, auth_code_spec(url@).unwrap()]);
        Ok(CommandSpec::new(arg("gogdl"), args))
    }

    /// Records how the login command ended: logged in on success.
    pub fn finish_login(&mut self, succeeded: bool) -> (r: Result<(), StoreError>)
        ensures
            succeeded ==> r is Ok && final(self).logged_in(),
            !succeeded ==> r == Err::<(), StoreError>(StoreError::AuthFailed)
                && final(self).logged_in() == old(self).logged_in(),
    {
        if succeeded {
            self.authenticated = true;
            Ok(())
        } else {
            Err(StoreError::AuthFailed)
        }
    }

    /// `gogdl games --json`, whose output lists the library.
    pub fn library_command() -> (r: CommandSpec)
        ensures
            command_text(r) == plain_command("gogdl"@, seq!["games"@, "--json"@]),
    {
        let args = vec![arg("games"), arg("--json")];
        assert(string_views(args@) =~= seq!["games"@, "--json"@]);
        CommandSpec::new(arg("gogdl"), args)
    }

    /// The games that a `gogdl games --json` document lists, in order.
    pub fn games_from_json(doc: &Json) -> (r: Vec<Game>)
        ensures
            r@.len() == listed_items(*doc).len(),
            forall|i: int| 0 <= i < r@.len() ==> gog_game(listed_items(*doc)[i], #[trigger] r@[i]),
    {
        let mut r: Vec<Game> = Vec::new();
        match as_array(Some(doc)) {
            None => r,
            Some(items) => {
                let n = items.len();
                let mut i: usize = 0;
                while i < n
                    invariant
                        i <= n,
                        n == items@.len(),
                        items@ == listed_items(*doc),
                        r@.len() == i,
                        forall|k: int| 0 <= k < i ==> gog_game(items@[k], #[trigger] r@[k]),
                    decreases n - i,
                {
                    let item = &items[i];
                    let id = str_or(as_str(get(Some(item), "id")), "");
                    let title = str_or(as_str(get(Some(item), "title")), "Unknown");
                    let cover = gog_cover_of(item);
                    let install = str_opt(as_str(get(Some(item), "path")));
                    let installed = match as_bool(get(Some(item), "installed")) {
                        Some(b) => b,
                        None => false,
                    };
                    r.push(listed_game(Store::Gog, id, title, cover, install, installed));
                    i = i + 1;
                }
                r
            },
        }
    }

    /// The library in the output of `gogdl games --json`.
    pub fn games_from_output(stdout: &[u8]) -> (r: Result<Vec<Game>, StoreError>)
        ensures
            match r {
                Ok(games) => parsed_json(stdout@) matches Some(doc) && games@.len() == listed_items(doc).len()
                    && forall|i: int| 0 <= i < games@.len() ==> gog_game(listed_items(doc)[i], #[trigger] games@[i]),
                Err(e) => parsed_json(stdout@) is None && e == StoreError::InvalidJson,
            },
    {
        match parse_json(stdout) {
            None => Err(StoreError::InvalidJson),
            Some(doc) => Ok(Self::games_from_json(&doc)),
        }
    }
}

impl StoreBackend for GogStore {
    fn auth_url(&self) -> (r: Option<String>)
        ensures
            r matches Some(u) && u@ == "https://login.gog.com/auth?client_id=46899977096215655&redirect_uri=https://embed.gog.com/on_login_success?origin=client&response_type=code&layout=client2"@,
    {
        Some(String::from_str("https://login.gog.com/auth?client_id=46899977096215655&redirect_uri=https://embed.gog.com/on_login_success?origin=client&response_type=code&layout=client2"))
    }

    /// `gogdl launch <id>`.
    fn launch_command(&self, game: &Game) -> (r: Option<CommandSpec>)
        ensures
            r matches Some(c) && command_text(c) == plain_command("gogdl"@, seq!["launch"@, game.id@]),
    {
        let args = vec![arg("launch"), game.id.clone()];
        assert(string_views(args@) =~= seq!["launch"@, game.id@]);
        Some(CommandSpec::new(arg("gogdl"), args))
    }

    /// `gogdl download <id>`.
    fn install_command(&self, game: &Game) -> (r: Result<CommandSpec, StoreError>)
        ensures
            r matches Ok(c) && command_text(c) == plain_command("gogdl"@, seq!["download"@, game.id@]),
    {
        let args = vec![arg("download"), game.id.clone()];
        assert(string_views(args@) =~= seq!["download"@, game.id@]);
        Ok(CommandSpec::new(arg("gogdl"), args))
    }
}

} // verus!
