//! Epic Games, through the `legendary` command-line tool.
use vstd::prelude::*;

use crate::command::{command_text, plain_command, CommandSpec};
use crate::game::{Game, Store};
use crate::json::{array_value, as_array, as_bool, as_str, bool_value, field, get, parse_json, parsed_json, str_value, Json};
use crate::paths::{opt_view, or_else};
use crate::stores::{arg, auth_code, auth_code_spec, is_listed_game, listed_game, str_opt, str_or, StoreBackend, StoreError};
use crate::text::{chars_of, same_chars, string_views};

verus! {

/// The Epic Games backend.
pub struct EpicStore {
    authenticated: bool,
}

/// The items of a JSON array (none when the document is not an array).
pub open spec fn listed_items(doc: Json) -> Seq<Json> {
    match array_value(Some(doc)) {
        Some(a) => a,
        None => seq![],
    }
}

/// The first image among `imgs` whose `type` is `t`.
pub open spec fn first_image_of_type(imgs: Seq<Json>, t: Seq<char>) -> Option<Json>
    decreases imgs.len(),
{
    if imgs.len() == 0 {
        None
    } else if str_value(field(Some(imgs[0]), "type"@)) == Some(t) {
        Some(imgs[0])
    } else {
        first_image_of_type(imgs.drop_first(), t)
    }
}

/// The cover URL of an Epic library item: the `url` of the first of its
/// `metadata.keyImages` whose `type` is `DieselGameBoxTall`.
pub open spec fn epic_cover(item: Json) -> Option<Seq<char>> {
    match array_value(field(field(Some(item), "metadata"@), "keyImages"@)) {
        None => None,
        Some(imgs) => match first_image_of_type(imgs, "DieselGameBoxTall"@) {
            None => None,
            Some(img) => str_value(field(Some(img), "url"@)),
        },
    }
}

/// `g` is the game that the `legendary list --json` item `item` describes.
pub open spec fn epic_game(item: Json, g: Game) -> bool {
    is_listed_game(
        g,
        Store::Epic,
        or_else(str_value(field(Some(item), "app_name"@)), ""@),
        or_else(str_value(field(Some(item), "title"@)), "Unknown"@),
        epic_cover(item),
        str_value(field(Some(item), "install_path"@)),
        match bool_value(field(Some(item), "is_installed"@)) {
            Some(b) => b,
            None => false,
        },
    )
}

fn epic_cover_of(item: &Json) -> (r: Option<String>)
    ensures
        crate::paths::opt_view(r) == epic_cover(*item),
{
    let imgs = as_array(get(get(Some(item), "metadata"), "keyImages"));
    match imgs {
        None => None,
        Some(a) => {
            let n = a.len();
            let want = chars_of("DieselGameBoxTall");
            let mut i: usize = 0;
            assert(a@.skip(0) =~= a@);
            while i < n
                invariant
                    i <= n,
                    n == a@.len(),
                    want@ == "DieselGameBoxTall"@,
                    array_value(field(field(Some(*item), "metadata"@), "keyImages"@)) == Some(a@),
                    first_image_of_type(a@, "DieselGameBoxTall"@)
                        == first_image_of_type(a@.skip(i as int), "DieselGameBoxTall"@),
                decreases n - i,
            {
                assert(a@.skip(i as int).drop_first() =~= a@.skip(i + 1));
                assert(a@.skip(i as int)[0] == a@[i as int]);
                let t = as_str(get(Some(&a[i]), "type"));
                let is_box = match t {
                    Some(s) => same_chars(chars_of(s.as_str()).as_slice(), want.as_slice()),
                    None => false,
                };
                if is_box {
                    return str_opt(as_str(get(Some(&a[i]), "url")));
                }
                i = i + 1;
            }
            None
        },
    }
}

impl EpicStore {
    /// The backend, logged in when `legendary status --json` succeeded.
    pub fn new(logged_in: bool) -> (r: EpicStore)
        ensures
            r.logged_in() == logged_in,
    {
        EpicStore { authenticated: logged_in }
    }

    pub closed spec fn logged_in(&self) -> bool {
        self.authenticated
    }

    pub fn is_authenticated(&self) -> (r: bool)
        ensures
            r == self.logged_in(),
    {
        self.authenticated
    }

    /// `legendary status --json`, whose success means a login.
    pub fn status_command() -> (r: CommandSpec)
        ensures
            command_text(r) == plain_command("legendary"@, seq!["status"@, "--json"@]),
    {
        let args = vec![arg("status"), arg("--json")];
        assert(string_views(args@) =~= seq!["status"@, "--json"@]);
        CommandSpec::new(arg("legendary"), args)
    }

    /// The command that hands the login code in the redirect URL to
    /// legendary (`legendary auth --code <code>`).
    pub fn login_command(url: &str) -> (r: Result<CommandSpec, StoreError>)
        ensures
            match r {
                Ok(c) => auth_code_spec(url@) is Some && command_text(c) == plain_command(
                    "legendary"@, seq!["auth"@, "--code"@, auth_code_spec(url@).unwrap()]),
                Err(e) => auth_code_spec(url@) is None && e == StoreError::NoAuthCode,
            },
    {
        let code = auth_code(url)?;
        let args = vec![arg("auth"), arg("--code"), code];
        assert(string_views(args@) =~= seq!["auth"@, "--code"@, auth_code_spec(url@).unwrap()]);
        Ok(CommandSpec::new(arg("legendary"), args))
    }

    /// Records how the login command ended: logged in on success.
    pub fn finish_login(&mut self, succeeded: bool) -> (r: Result<(), StoreError>)
        ensures
            succeeded ==> r is Ok && final(self).logged_in(),
            !succeeded ==> r == Err::<(), StoreError>(StoreError::AuthFailed)
                && final(self).logged_in() == old(self).logged_in(),
    {
        if succeeded {
            self.authenticated = true;
            Ok(())
        } else {
            Err(StoreError::AuthFailed)
        }
    }

    /// `legendary list --json`, whose output lists the library.
    pub fn library_command() -> (r: CommandSpec)
        ensures
            command_text(r) == plain_command("legendary"@, seq!["list"@, "--json"@]),
    {
        let args = vec![arg("list"), arg("--json")];
        assert(string_views(args@) =~= seq!["list"@, "--json"@]);
        CommandSpec::new(arg("legendary"), args)
    }

    /// The games that a `legendary list --json` document lists, in order.
    pub fn games_from_json(doc: &Json) -> (r: Vec<Game>)
        ensures
            r@.len() == listed_items(*doc).len(),
            forall|i: int| 0 <= i < r@.len() ==> epic_game(listed_items(*doc)[i], #[trigger] r@[i]),
    {
        let mut r: Vec<Game> = Vec::new();
        match as_array(Some(doc)) {
            None => r,
            Some(items) => {
                let n = items.len();
                let mut i: usize = 0;
                while i < n
                    invariant
                        i <= n,
                        n == items@.len(),
                        items@ == listed_items(*doc),
                        r@.len() == i,
                        forall|k: int| 0 <= k < i ==> epic_game(items@[k], #[trigger] r@[k]),
                    decreases n - i,
                {
                    let item = &items[i];
                    let id = str_or(as_str(get(Some(item), "app_name")), "");
                    let title = str_or(as_str(get(Some(item), "title")), "Unknown");
                    let cover = epic_cover_of(item);
                    let install = str_opt(as_str(get(Some(item), "install_path")));
                    let installed = match as_bool(get(Some(item), "is_installed")) {
                        Some(b) => b,
                        None => false,
                    };
                    r.push(listed_game(Store::Epic, id, title, cover, install, installed));
                    i = i + 1;
                }
                r
            },
        }
    }

    /// The library in the output of `legendary list --json`.
    pub fn games_from_output(stdout: &[u8]) -> (r: Result<Vec<Game>, StoreError>)
        ensures
            match r {
                Ok(games) => parsed_json(stdout@) matches Some(doc) && games@.len() == listed_items(doc).len()
                    && forall|i: int| 0 <= i < games@.len() ==> epic_game(listed_items(doc)[i], #[trigger] games@[i]),
                Err(e) => parsed_json(stdout@) is None && e == StoreError::InvalidJson,
            },
    {
        match parse_json(stdout) {
            None => Err(StoreError::InvalidJson),
            Some(doc) => Ok(Self::games_from_json(&doc)),
        }
    }
}

impl StoreBackend for EpicStore {
    fn auth_url(&self) -> (r: Option<String>)
        ensures
            r matches Some(u) && u@ == "https://www.epicgames.com/id/login?redirectUrl=https://www.epicgames.com/id/api/redirect?clientId=34a02cf8f4414e29b15921876da36f9a&responseType=code"@,
    {
        Some(String::from_str("https://www.epicgames.com/id/login?redirectUrl=https://www.epicgames.com/id/api/redirect?clientId=34a02cf8f4414e29b15921876da36f9a&responseType=code"))
    }

    /// `legendary launch <id>`.
    fn launch_command(&self, game: &Game) -> (r: Option<CommandSpec>)
        ensures
            r matches Some(c) && command_text(c) == plain_command("legendary"@, seq!["launch"@, game.id@]),
    {
        let args = vec![arg("launch"), game.id.clone()];
        assert(string_views(args@) =~= seq!["launch"@, game.id@]);
        Some(CommandSpec::new(arg("legendary"), args))
    }

    /// `legendary install <id> --yes`.
    fn install_command(&self, game: &Game) -> (r: Result<CommandSpec, StoreError>)
        ensures
            r matches Ok(c) && command_text(c) == plain_command("legendary"@, seq!["install"@, game.id@, "--yes"@]),
    {
        let args = vec![arg("install"), game.id.clone(), arg("--yes")];
        assert(string_views(args@) =~= seq!["install"@, game.id@, "--yes"@]);
        Ok(CommandSpec::new(arg("legendary"), args))
    }
}


/// The key images of an Epic library item (`metadata.keyImages`).
pub open spec fn key_images(item: Json) -> Option<Seq<Json>> {
    array_value(field(field(Some(item), "metadata"@), "keyImages"@))
}

/// Image `k` of `imgs` is the first whose `type` is `DieselGameBoxTall`.
pub open spec fn first_box_image(imgs: Seq<Json>, k: int) -> bool {
    &&& 0 <= k < imgs.len()
    &&& str_value(field(Some(imgs[k]), "type"@)) == Some("DieselGameBoxTall"@)
    &&& forall|j: int| 0 <= j < k ==> str_value(field(Some(#[trigger] imgs[j]), "type"@)) != Some("DieselGameBoxTall"@)
}

proof fn lemma_first_image_at(imgs: Seq<Json>, k: int)
    requires
        first_box_image(imgs, k),
    ensures
        first_image_of_type(imgs, "DieselGameBoxTall"@) == Some(imgs[k]),
    decreases k,
{
    if k > 0 {
        let rest = imgs.drop_first();
        assert(str_value(field(Some(imgs[0]), "type"@)) != Some("DieselGameBoxTall"@));
        assert forall|j: int| 0 <= j < k - 1 implies str_value(field(Some(#[trigger] rest[j]), "type"@))
            != Some("DieselGameBoxTall"@) by {
            assert(rest[j] == imgs[j + 1]);
        }
        assert(rest[k - 1] == imgs[k]);
        lemma_first_image_at(rest, k - 1);
    }
}

proof fn lemma_no_box_image(imgs: Seq<Json>)
    requires
        forall|j: int| 0 <= j < imgs.len() ==> str_value(field(Some(#[trigger] imgs[j]), "type"@)) != Some("DieselGameBoxTall"@),
    ensures
        first_image_of_type(imgs, "DieselGameBoxTall"@) is None,
    decreases imgs.len(),
{
    if imgs.len() > 0 {
        let rest = imgs.drop_first();
        assert(str_value(field(Some(imgs[0]), "type"@)) != Some("DieselGameBoxTall"@));
        assert forall|j: int| 0 <= j < rest.len() implies str_value(field(Some(#[trigger] rest[j]), "type"@))
            != Some("DieselGameBoxTall"@) by {
            assert(rest[j] == imgs[j + 1]);
        }
        lemma_no_box_image(rest);
    }
}

/// A game read from Epic's library takes its cover from the item's first
/// key image of type `DieselGameBoxTall` (the tall box art), whatever images
/// come before or after it; an item without such an image has no cover.
pub proof fn law_epic_cover_is_box_art(item: Json, g: Game, k: int)
    requires
        epic_game(item, g),
    ensures
        key_images(item) matches Some(imgs) ==> (first_box_image(imgs, k) ==>
            opt_view(g.cover_url) == str_value(field(Some(imgs[k]), "url"@))),
        (key_images(item) is None || (key_images(item) matches Some(imgs) && forall|j: int| 0 <= j < imgs.len()
            ==> str_value(field(Some(#[trigger] imgs[j]), "type"@)) != Some("DieselGameBoxTall"@))) ==> g.cover_url is None,
{
    if let Some(imgs) = key_images(item) {
        if first_box_image(imgs, k) {
            lemma_first_image_at(imgs, k);
        }
        if forall|j: int| 0 <= j < imgs.len() ==> str_value(field(Some(#[trigger] imgs[j]), "type"@)) != Some("DieselGameBoxTall"@) {
            lemma_no_box_image(imgs);
        }
    }
}
} // verus!
