//! The library's state: the games shown, the store filter and the view mode,
//! and what each action on the library does to them. Drawing the cards is
//! the caller's.
use vstd::prelude::*;

use crate::game::{store_label, Game, Store};
use crate::paths::{clone_opt, opt_view};
use crate::text::{chars_of, same_chars};

verus! {

/// How the library lays out its games.
#[derive(Debug, Clone, Copy, PartialEq, Eq, Structural)]
pub enum ViewMode {
    Grid,
    List,
}

/// The games in the library, the store they are filtered by, and the layout.
#[derive(Debug)]
pub struct LibraryView {
    pub games: Vec<Game>,
    /// The store label the library is filtered by (`None`: all games).
    pub active_store: Option<String>,
    pub view_mode: ViewMode,
}

/// The filter label that shows every game.
pub open spec fn all_games_label() -> Seq<char> {
    "All Games"@
}

/// Whether `g` passes the store filter `filter`: every game passes no
/// filter or `All Games`; otherwise the game's store label must be the
/// filter.
pub open spec fn passes_filter(g: Game, filter: Option<Seq<char>>) -> bool {
    match filter {
        None => true,
        Some(f) => f == all_games_label() || store_label(g.store) == f,
    }
}

/// The games that pass the filter, are not hidden, and are (`fav`) or are
/// not favourites.
pub open spec fn shown_pred(filter: Option<Seq<char>>, fav: bool) -> spec_fn(Game) -> bool {
    |g: Game| passes_filter(g, filter) && !g.hidden && g.favorite == fav
}

/// The games a filter shows: hidden games left out, favourites pinned to
/// the top, each group in library order.
pub open spec fn shown(gs: Seq<Game>, filter: Option<Seq<char>>) -> Seq<Game> {
    gs.filter(shown_pred(filter, true)) + gs.filter(shown_pred(filter, false))
}

pub open spec fn local_pred() -> spec_fn(Game) -> bool {
    |g: Game| g.store == Store::Local
}

pub open spec fn other_id_pred(id: Seq<char>) -> spec_fn(Game) -> bool {
    |g: Game| g.id@ != id
}

/// The locally added games, in library order.
pub open spec fn local_only(gs: Seq<Game>) -> Seq<Game> {
    gs.filter(local_pred())
}

/// The library without the games whose id is `id`.
pub open spec fn without_id(gs: Seq<Game>, id: Seq<char>) -> Seq<Game> {
    gs.filter(other_id_pred(id))
}

/// `i` is the first game with id `id`.
pub open spec fn is_first_with_id(gs: Seq<Game>, id: Seq<char>, i: int) -> bool {
    &&& 0 <= i < gs.len()
    &&& gs[i].id@ == id
    &&& forall|j: int| 0 <= j < i ==> gs[j].id@ != id
}

/// Some game has id `id`.
pub open spec fn has_id(gs: Seq<Game>, id: Seq<char>) -> bool {
    exists|i: int| 0 <= i < gs.len() && gs[i].id@ == id
}

/// The game with its cover set to `path`.
pub open spec fn with_cover(g: Game, path: String) -> Game {
    Game { cover_path: Some(path), ..g }
}

/// The game after a session of `secs` seconds that ended at `now`.
pub open spec fn after_session(g: Game, secs: u64, now: i64) -> Game {
    Game { play_time: (g.play_time + secs) as u64, last_played: Some(now), ..g }
}

/// The library after changing the first game with id `id` by `f` (unchanged
/// when no game has that id).
pub open spec fn change_first(gs: Seq<Game>, id: Seq<char>, f: spec_fn(Game) -> Game) -> Seq<Game> {
    if has_id(gs, id) {
        let i = choose|i: int| is_first_with_id(gs, id, i);
        gs.update(i, f(gs[i]))
    } else {
        gs
    }
}

/// A session can be added to the game it is for without the play time
/// overflowing.
pub open spec fn session_fits(gs: Seq<Game>, id: Seq<char>, secs: u64) -> bool {
    forall|i: int| is_first_with_id(gs, id, i) ==> gs[i].play_time + secs <= u64::MAX
}

pub proof fn lemma_first_unique(gs: Seq<Game>, id: Seq<char>, i: int, k: int)
    requires
        is_first_with_id(gs, id, i),
        is_first_with_id(gs, id, k),
    ensures
        i == k,
{
}

/// The position of the first game with id `id`.
pub fn find_game(games: &Vec<Game>, id: &str) -> (r: Option<usize>)
    ensures
        match r {
            Some(i) => is_first_with_id(games@, id@, i as int),
            None => !has_id(games@, id@),
        },
{
    let key = String::from_str(id);
    let mut i: usize = 0;
    while i < games.len()
        invariant
            i <= games@.len(),
            key@ == id@,
            forall|j: int| 0 <= j < i ==> games@[j].id@ != id@,
        decreases games@.len() - i,
    {
        if games[i].id == key {
            return Some(i);
        }
        i = i + 1;
    }
    None
}

fn store_matches(g: &Game, filter: &Option<String>) -> (r: bool)
    ensures
        r == passes_filter(*g, opt_view(*filter)),
{
    match filter {
        None => true,
        Some(f) => {
            let fv = chars_of(f.as_str());
            same_chars(fv.as_slice(), chars_of("All Games").as_slice())
                || same_chars(chars_of(g.store.label()).as_slice(), fv.as_slice())
        },
    }
}

/// Which games a pass over the library keeps.
enum Keep {
    Local,
    /// Shown under the filter, and a favourite or not.
    Shown(Option<String>, bool),
    OtherThan(String),
}

spec fn keeps(k: Keep, g: Game) -> bool {
    match k {
        Keep::Local => g.store == Store::Local,
        Keep::Shown(f, fav) => passes_filter(g, opt_view(f)) && !g.hidden && g.favorite == fav,
        Keep::OtherThan(id) => g.id@ != id@,
    }
}

spec fn keep_pred(k: Keep) -> spec_fn(Game) -> bool {
    |g: Game| keeps(k, g)
}

fn keep_one(k: &Keep, g: &Game) -> (r: bool)
    ensures
        r == keeps(*k, *g),
{
    match k {
        Keep::Local => g.store == Store::Local,
        Keep::Shown(f, fav) => store_matches(g, f) && !g.hidden && g.favorite == *fav,
        Keep::OtherThan(id) => !(g.id == *id),
    }
}

fn filter_games(games: &Vec<Game>, k: &Keep) -> (r: Vec<Game>)
    ensures
        r@ == games@.filter(keep_pred(*k)),
{
    let mut r: Vec<Game> = Vec::new();
    let mut i: usize = 0;
    assert(games@.take(0) =~= Seq::<Game>::empty());
    assert(games@.take(0).filter(keep_pred(*k)) =~= Seq::<Game>::empty()) by {
        reveal(Seq::filter);
    }
    while i < games.len()
        invariant
            i <= games@.len(),
            r@ == games@.take(i as int).filter(keep_pred(*k)),
        decreases games@.len() - i,
    {
        assert(games@.take(i + 1).drop_last() =~= games@.take(i as int));
        assert(games@.take(i + 1).last() == games@[i as int]);
        let b = keep_one(k, &games[i]);
        let ghost p = keep_pred(*k);
        assert(p(games@[i as int]) == b);
        let ghost before = r@;
        proof {
            reveal(Seq::filter);
        }
        if b {
            r.push(games[i].clone());
            assert(games@.take(i + 1).filter(p) == games@.take(i as int).filter(p).push(games@[i as int]));
            assert(r@ == before.push(games@[i as int]));
        } else {
            assert(games@.take(i + 1).filter(p) == games@.take(i as int).filter(p));
        }
        i = i + 1;
    }
    assert(games@.take(games@.len() as int) =~= games@);
    r
}

impl LibraryView {
    /// An empty library shown as a grid, with no filter.
    pub fn new() -> (r: LibraryView)
        ensures
            r.games@.len() == 0,
            r.active_store is None,
            r.view_mode == ViewMode::Grid,
    {
        LibraryView { games: Vec::new(), active_store: None, view_mode: ViewMode::Grid }
    }

    /// Replaces the games.
    pub fn set_games(&mut self, games: Vec<Game>)
        ensures
            final(self).games@ == games@,
            final(self).active_store == old(self).active_store,
            final(self).view_mode == old(self).view_mode,
    {
        self.games = games;
    }

    /// Adds a game at the end.
    pub fn add_game(&mut self, game: Game)
        ensures
            final(self).games@ == old(self).games@.push(game),
            final(self).active_store == old(self).active_store,
            final(self).view_mode == old(self).view_mode,
    {
        self.games.push(game);
    }

    /// Sets the cover of the first game with id `game_id`.
    pub fn update_cover(&mut self, game_id: &str, cover_path: String)
        ensures
            final(self).games@ == change_first(old(self).games@, game_id@, |g: Game| with_cover(g, cover_path)),
            final(self).active_store == old(self).active_store,
            final(self).view_mode == old(self).view_mode,
    {
        match find_game(&self.games, game_id) {
            Some(i) => {
                let ghost gs = self.games@;
                let mut g = self.games[i].clone();
                g.cover_path = Some(cover_path);
                self.games.set(i, g);
                proof {
                    let k = choose|k: int| is_first_with_id(gs, game_id@, k);
                    lemma_first_unique(gs, game_id@, i as int, k);
                }
            },
            None => {},
        }
    }

    /// Puts an edited game in place of the first game with its id.
    pub fn replace_game(&mut self, game: Game)
        ensures
            final(self).games@ == change_first(old(self).games@, game.id@, |g: Game| game),
            final(self).active_store == old(self).active_store,
            final(self).view_mode == old(self).view_mode,
    {
        match find_game(&self.games, game.id.as_str()) {
            Some(i) => {
                let ghost gs = self.games@;
                let ghost id = game.id@;
                self.games.set(i, game);
                proof {
                    let k = choose|k: int| is_first_with_id(gs, id, k);
                    lemma_first_unique(gs, id, i as int, k);
                }
            },
            None => {},
        }
    }

    /// The locally added games, in library order.
    pub fn local_games(&self) -> (r: Vec<Game>)
        ensures
            r@ == local_only(self.games@),
    {
        let r = filter_games(&self.games, &Keep::Local);
        assert(keep_pred(Keep::Local) =~= local_pred());
        r
    }

    /// Filters the library by a store label (`None` or `All Games`: all).
    pub fn set_store_filter(&mut self, store: Option<String>)
        ensures
            final(self).active_store == store,
            final(self).games@ == old(self).games@,
            final(self).view_mode == old(self).view_mode,
    {
        self.active_store = store;
    }

    /// The games the current filter shows: hidden games left out, the
    /// favourites first, each group in library order.
    pub fn visible_games(&self) -> (r: Vec<Game>)
        ensures
            r@ == shown(self.games@, opt_view(self.active_store)),
    {
        let kf = Keep::Shown(clone_opt(&self.active_store), true);
        let mut r = filter_games(&self.games, &kf);
        assert(keep_pred(kf) =~= shown_pred(opt_view(self.active_store), true));
        let ko = Keep::Shown(clone_opt(&self.active_store), false);
        let mut rest = filter_games(&self.games, &ko);
        assert(keep_pred(ko) =~= shown_pred(opt_view(self.active_store), false));
        r.append(&mut rest);
        r
    }

    /// Removes every game with id `id`.
    pub fn remove_game(&mut self, id: &str)
        ensures
            final(self).games@ == without_id(old(self).games@, id@),
            final(self).active_store == old(self).active_store,
            final(self).view_mode == old(self).view_mode,
    {
        let k = Keep::OtherThan(String::from_str(id));
        let r = filter_games(&self.games, &k);
        assert(keep_pred(k) =~= other_id_pred(id@));
        self.games = r;
    }

    /// Whether a session of `secs` seconds can be added to the first game
    /// with id `id` without its play time overflowing.
    pub fn can_record_session(&self, id: &str, secs: u64) -> (r: bool)
        ensures
            r == session_fits(self.games@, id@, secs),
    {
        match find_game(&self.games, id) {
            Some(i) => {
                proof {
                    assert forall|k: int| is_first_with_id(self.games@, id@, k) implies self.games@[k].play_time + secs <= u64::MAX
                        <==> self.games@[i as int].play_time + secs <= u64::MAX by {
                        lemma_first_unique(self.games@, id@, i as int, k);
                    }
                }
                secs <= u64::MAX - self.games[i].play_time
            },
            None => true,
        }
    }

    /// Records a finished session of the first game with id `id`: `secs`
    /// more seconds played, last played at `now`.
    pub fn record_session(&mut self, id: &str, secs: u64, now: i64)
        requires
            session_fits(old(self).games@, id@, secs),
        ensures
            final(self).games@ == change_first(old(self).games@, id@, |g: Game| after_session(g, secs, now)),
            final(self).active_store == old(self).active_store,
            final(self).view_mode == old(self).view_mode,
    {
        match find_game(&self.games, id) {
            Some(i) => {
                let ghost gs = self.games@;
                let mut g = self.games[i].clone();
                g.play_time = g.play_time + secs;
                g.last_played = Some(now);
                self.games.set(i, g);
                proof {
                    let k = choose|k: int| is_first_with_id(gs, id@, k);
                    lemma_first_unique(gs, id@, i as int, k);
                }
            },
            None => {},
        }
    }

    /// Switches between grid and list.
    pub fn set_view_mode(&mut self, mode: ViewMode)
        ensures
            final(self).view_mode == mode,
            final(self).games@ == old(self).games@,
            final(self).active_store == old(self).active_store,
    {
        self.view_mode = mode;
    }
}

// ───────────────────────────── laws ────────────────────────────────────────

/// Removing a game leaves no game with its id, and keeps every other game,
/// in order.
pub proof fn law_remove_game(gs: Seq<Game>, id: Seq<char>)
    ensures
        !has_id(without_id(gs, id), id),
        without_id(gs, id).len() <= gs.len(),
        forall|g: Game| gs.contains(g) && g.id@ != id ==> #[trigger] without_id(gs, id).contains(g),
        !has_id(gs, id) ==> without_id(gs, id) == gs,
{
    let p = other_id_pred(id);
    gs.lemma_filter_len(p);
    assert forall|i: int| 0 <= i < without_id(gs, id).len() implies without_id(gs, id)[i].id@ != id by {
        gs.lemma_filter_pred(p, i);
    }
    assert forall|g: Game| gs.contains(g) && g.id@ != id implies #[trigger] without_id(gs, id).contains(g) by {
        let i = choose|i: int| 0 <= i < gs.len() && gs[i] == g;
        gs.lemma_filter_contains(p, i);
    }
    if !has_id(gs, id) {
        lemma_filter_all(gs, p);
    }
}

proof fn lemma_filter_all(gs: Seq<Game>, p: spec_fn(Game) -> bool)
    requires
        forall|i: int| 0 <= i < gs.len() ==> p(gs[i]),
    ensures
        gs.filter(p) == gs,
    decreases gs.len(),
{
    reveal(Seq::filter);
    if gs.len() > 0 {
        lemma_filter_all(gs.drop_last(), p);
        assert(gs.drop_last().push(gs.last()) =~= gs);
    }
}

proof fn lemma_shown_parts(gs: Seq<Game>, filter: Option<Seq<char>>)
    ensures
        forall|i: int| 0 <= i < gs.filter(shown_pred(filter, true)).len() ==>
            shown_pred(filter, true)(#[trigger] gs.filter(shown_pred(filter, true))[i]),
        forall|i: int| 0 <= i < gs.filter(shown_pred(filter, false)).len() ==>
            shown_pred(filter, false)(#[trigger] gs.filter(shown_pred(filter, false))[i]),
{
    assert forall|i: int| 0 <= i < gs.filter(shown_pred(filter, true)).len() implies
        shown_pred(filter, true)(#[trigger] gs.filter(shown_pred(filter, true))[i]) by {
        gs.lemma_filter_pred(shown_pred(filter, true), i);
    }
    assert forall|i: int| 0 <= i < gs.filter(shown_pred(filter, false)).len() implies
        shown_pred(filter, false)(#[trigger] gs.filter(shown_pred(filter, false))[i]) by {
        gs.lemma_filter_pred(shown_pred(filter, false), i);
    }
}

/// The library never shows a hidden game; it shows every other game that
/// passes the filter; and it shows nothing that does not pass.
pub proof fn law_hidden_games_not_shown(gs: Seq<Game>, filter: Option<Seq<char>>)
    ensures
        forall|i: int| 0 <= i < shown(gs, filter).len() ==>
            !(#[trigger] shown(gs, filter)[i]).hidden && passes_filter(shown(gs, filter)[i], filter),
        forall|g: Game| gs.contains(g) && !g.hidden && passes_filter(g, filter) ==> #[trigger] shown(gs, filter).contains(g),
{
    let a = gs.filter(shown_pred(filter, true));
    let b = gs.filter(shown_pred(filter, false));
    lemma_shown_parts(gs, filter);
    assert forall|i: int| 0 <= i < shown(gs, filter).len() implies
        !(#[trigger] shown(gs, filter)[i]).hidden && passes_filter(shown(gs, filter)[i], filter) by {
        if i < a.len() {
            assert(shown(gs, filter)[i] == a[i]);
            assert(shown_pred(filter, true)(a[i]));
        } else {
            assert(shown(gs, filter)[i] == b[i - a.len()]);
            assert(shown_pred(filter, false)(b[i - a.len()]));
        }
    }
    assert forall|g: Game| gs.contains(g) && !g.hidden && passes_filter(g, filter) implies #[trigger] shown(gs, filter).contains(g) by {
        let i = choose|i: int| 0 <= i < gs.len() && gs[i] == g;
        if g.favorite {
            gs.lemma_filter_contains(shown_pred(filter, true), i);
            let k = choose|k: int| 0 <= k < a.len() && a[k] == g;
            assert(shown(gs, filter)[k] == g);
        } else {
            gs.lemma_filter_contains(shown_pred(filter, false), i);
            let k = choose|k: int| 0 <= k < b.len() && b[k] == g;
            assert(shown(gs, filter)[a.len() + k] == g);
        }
    }
}

/// Favourites are pinned to the top: no favourite is shown after a game
/// that is not one.
pub proof fn law_favorites_first(gs: Seq<Game>, filter: Option<Seq<char>>)
    ensures
        forall|i: int, j: int| 0 <= i < j < shown(gs, filter).len() && (#[trigger] shown(gs, filter)[j]).favorite
            ==> (#[trigger] shown(gs, filter)[i]).favorite,
{
    let a = gs.filter(shown_pred(filter, true));
    let b = gs.filter(shown_pred(filter, false));
    lemma_shown_parts(gs, filter);
    assert forall|i: int, j: int| 0 <= i < j < shown(gs, filter).len() && (#[trigger] shown(gs, filter)[j]).favorite
        implies (#[trigger] shown(gs, filter)[i]).favorite by {
        if j >= a.len() {
            assert(shown(gs, filter)[j] == b[j - a.len()]);
            assert(shown_pred(filter, false)(b[j - a.len()]));
        }
        assert(shown(gs, filter)[i] == a[i]);
        assert(shown_pred(filter, true)(a[i]));
    }
}

/// With no filter, or the `All Games` filter, the library shows every game
/// that is not hidden.
pub proof fn law_all_games_shown(gs: Seq<Game>, filter: Option<Seq<char>>)
    requires
        filter is None || filter == Some(all_games_label()),
    ensures
        forall|g: Game| gs.contains(g) && !g.hidden ==> #[trigger] shown(gs, filter).contains(g),
{
    law_hidden_games_not_shown(gs, filter);
    assert forall|g: Game| gs.contains(g) && !g.hidden implies #[trigger] shown(gs, filter).contains(g) by {
        assert(passes_filter(g, filter));
    }
}

/// Under a store filter other than `All Games`, every game shown belongs to
/// that store, and every game of that store that is not hidden is shown.
pub proof fn law_store_filter(gs: Seq<Game>, f: Seq<char>)
    requires
        f != all_games_label(),
    ensures
        forall|i: int| 0 <= i < shown(gs, Some(f)).len() ==> store_label(#[trigger] shown(gs, Some(f))[i].store) == f,
        forall|g: Game| gs.contains(g) && !g.hidden && store_label(g.store) == f ==> #[trigger] shown(gs, Some(f)).contains(g),
{
    law_hidden_games_not_shown(gs, Some(f));
    assert forall|i: int| 0 <= i < shown(gs, Some(f)).len() implies store_label(#[trigger] shown(gs, Some(f))[i].store) == f by {
        assert(passes_filter(shown(gs, Some(f))[i], Some(f)));
    }
    assert forall|g: Game| gs.contains(g) && !g.hidden && store_label(g.store) == f implies #[trigger] shown(gs, Some(f)).contains(g) by {
        assert(passes_filter(g, Some(f)));
    }
}

/// The local games are exactly the library's games from the Local store.
pub proof fn law_local_games(gs: Seq<Game>)
    ensures
        forall|i: int| 0 <= i < local_only(gs).len() ==> (#[trigger] local_only(gs)[i]).store == Store::Local,
        forall|g: Game| gs.contains(g) && g.store == Store::Local ==> #[trigger] local_only(gs).contains(g),
{
    let p = local_pred();
    assert forall|i: int| 0 <= i < local_only(gs).len() implies (#[trigger] local_only(gs)[i]).store == Store::Local by {
        gs.lemma_filter_pred(p, i);
    }
    assert forall|g: Game| gs.contains(g) && g.store == Store::Local implies #[trigger] local_only(gs).contains(g) by {
        let i = choose|i: int| 0 <= i < gs.len() && gs[i] == g;
        gs.lemma_filter_contains(p, i);
    }
}

/// A finished session adds its seconds to the game's play time and sets its
/// last-played time; every other game, and the game's other fields, stay
/// as they were.
pub proof fn law_record_session(gs: Seq<Game>, id: Seq<char>, secs: u64, now: i64, i: int)
    requires
        is_first_with_id(gs, id, i),
        gs[i].play_time + secs <= u64::MAX,
    ensures
        change_first(gs, id, |g: Game| after_session(g, secs, now)).len() == gs.len(),
        change_first(gs, id, |g: Game| after_session(g, secs, now))[i].play_time == gs[i].play_time + secs,
        change_first(gs, id, |g: Game| after_session(g, secs, now))[i].last_played == Some(now),
        change_first(gs, id, |g: Game| after_session(g, secs, now))[i].id == gs[i].id,
        forall|j: int| 0 <= j < gs.len() && j != i ==> change_first(gs, id, |g: Game| after_session(g, secs, now))[j] == gs[j],
{
    let k = choose|k: int| is_first_with_id(gs, id, k);
    lemma_first_unique(gs, id, i, k);
}

/// Setting a cover changes only that game's cover.
pub proof fn law_update_cover(gs: Seq<Game>, id: Seq<char>, path: String, i: int)
    requires
        is_first_with_id(gs, id, i),
    ensures
        change_first(gs, id, |g: Game| with_cover(g, path)).len() == gs.len(),
        change_first(gs, id, |g: Game| with_cover(g, path))[i] == (Game { cover_path: Some(path), ..gs[i] }),
        forall|j: int| 0 <= j < gs.len() && j != i ==> change_first(gs, id, |g: Game| with_cover(g, path))[j] == gs[j],
{
    let k = choose|k: int| is_first_with_id(gs, id, k);
    lemma_first_unique(gs, id, i, k);
}

} // verus!
