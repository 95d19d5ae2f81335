use novadream::game::{Game, Store};
use novadream::library::{find_game, LibraryView, ViewMode};

fn game(id: &str, store: Store) -> Game {
    let mut g = Game::default();
    g.id = id.to_string();
    g.title = format!("Title {}", id);
    g.store = store;
    g
}

fn ids(gs: &[Game]) -> Vec<String> {
    gs.iter().map(|g| g.id.clone()).collect()
}

fn sample() -> LibraryView {
    let mut l = LibraryView::new();
    l.set_games(vec![game("a", Store::Local), game("b", Store::Steam), game("c", Store::Local), game("d", Store::Epic)]);
    l
}

#[test]
fn new_library_is_empty_grid() {
    let l = LibraryView::new();
    assert!(l.games.is_empty());
    assert!(l.active_store.is_none());
    assert_eq!(l.view_mode, ViewMode::Grid);
}

#[test]
fn all_games_shown_without_filter() {
    let mut l = sample();
    assert_eq!(ids(&l.visible_games()), vec!["a", "b", "c", "d"]);
    l.set_store_filter(Some("All Games".to_string()));
    assert_eq!(ids(&l.visible_games()), vec!["a", "b", "c", "d"]);
}

#[test]
fn store_filter_shows_that_store() {
    let mut l = sample();
    l.set_store_filter(Some("Local".to_string()));
    assert_eq!(ids(&l.visible_games()), vec!["a", "c"]);
    l.set_store_filter(Some("Steam".to_string()));
    assert_eq!(ids(&l.visible_games()), vec!["b"]);
    l.set_store_filter(Some("GOG".to_string()));
    assert!(l.visible_games().is_empty());
}

#[test]
fn local_games_in_order() {
    let l = sample();
    assert_eq!(ids(&l.local_games()), vec!["a", "c"]);
}

#[test]
fn add_game_appends() {
    let mut l = sample();
    l.add_game(game("e", Store::Local));
    assert_eq!(ids(&l.games), vec!["a", "b", "c", "d", "e"]);
}

#[test]
fn remove_game_removes_every_copy() {
    let mut l = sample();
    l.add_game(game("a", Store::Gog));
    l.remove_game("a");
    assert_eq!(ids(&l.games), vec!["b", "c", "d"]);
    l.remove_game("zzz");
    assert_eq!(ids(&l.games), vec!["b", "c", "d"]);
}

#[test]
fn record_session_adds_time() {
    let mut l = sample();
    l.record_session("c", 120, 1_700_000_000);
    l.record_session("c", 30, 1_700_000_500);
    let c = &l.games[2];
    assert_eq!(c.play_time, 150);
    assert_eq!(c.last_played, Some(1_700_000_500));
    assert_eq!(l.games[0].play_time, 0);
    l.record_session("missing", 10, 1);
    assert_eq!(ids(&l.games), vec!["a", "b", "c", "d"]);
}

#[test]
fn update_cover_sets_first_match() {
    let mut l = sample();
    l.add_game(game("b", Store::Local));
    l.update_cover("b", "/covers/b.jpg".to_string());
    assert_eq!(l.games[1].cover_path.as_deref(), Some("/covers/b.jpg"));
    assert_eq!(l.games[4].cover_path, None);
    assert_eq!(find_game(&l.games, "b"), Some(1));
    assert_eq!(find_game(&l.games, "q"), None);
}

#[test]
fn view_mode_switch() {
    let mut l = sample();
    l.set_view_mode(ViewMode::List);
    assert_eq!(l.view_mode, ViewMode::List);
    assert_eq!(l.games.len(), 4);
}

#[test]
fn hidden_games_are_not_shown() {
    let mut l = sample();
    l.games[1].hidden = true;
    assert_eq!(ids(&l.visible_games()), vec!["a", "c", "d"]);
    l.set_store_filter(Some("Steam".to_string()));
    assert!(l.visible_games().is_empty());
    assert_eq!(ids(&l.games), vec!["a", "b", "c", "d"]);
}

#[test]
fn favorites_are_pinned_to_the_top() {
    let mut l = sample();
    l.games[2].favorite = true;
    l.games[3].favorite = true;
    assert_eq!(ids(&l.visible_games()), vec!["c", "d", "a", "b"]);
    l.set_store_filter(Some("Local".to_string()));
    assert_eq!(ids(&l.visible_games()), vec!["c", "a"]);
}

#[test]
fn hidden_favorite_is_not_shown() {
    let mut l = sample();
    l.games[0].favorite = true;
    l.games[0].hidden = true;
    l.games[3].favorite = true;
    assert_eq!(ids(&l.visible_games()), vec!["d", "b", "c"]);
}
