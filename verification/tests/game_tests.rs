use novadream::game::{Game, LaunchMode, Store};

fn game_with_time(play_time: u64, last_played: Option<i64>) -> Game {
    let mut g = Game::default();
    g.play_time = play_time;
    g.last_played = last_played;
    g
}

#[test]
fn store_labels_and_colours() {
    assert_eq!(Store::Epic.label(), "Epic");
    assert_eq!(Store::Gog.label(), "GOG");
    assert_eq!(Store::Steam.label(), "Steam");
    assert_eq!(Store::Itch.label(), "Itch.io");
    assert_eq!(Store::Local.label(), "Local");
    assert_eq!(Store::Epic.badge_color(), "#2563eb");
    assert_eq!(Store::Local.badge_color(), "#16a34a");
    assert_eq!(Store::Itch.badge_color(), "#e11d48");
}

#[test]
fn launch_mode_labels() {
    assert_eq!(LaunchMode::Linux.label(), "Linux");
    assert_eq!(LaunchMode::Windows.label(), "Windows (Wine/Proton)");
    assert_eq!(LaunchMode::Browser.label(), "Web Browser");
}

#[test]
fn play_time_strings() {
    assert_eq!(game_with_time(0, None).play_time_str(), "Never played");
    assert_eq!(game_with_time(59, None).play_time_str(), "Never played");
    assert_eq!(game_with_time(300, None).play_time_str(), "5m");
    assert_eq!(game_with_time(3600, None).play_time_str(), "1h 0m");
    assert_eq!(game_with_time(2 * 3600 + 5 * 60 + 7, None).play_time_str(), "2h 5m");
}

#[test]
fn last_played_strings() {
    let now = 1_000_000_000i64;
    assert_eq!(game_with_time(0, None).last_played_str_at(now), "Never");
    assert_eq!(game_with_time(0, Some(now - 10)).last_played_str_at(now), "Just now");
    assert_eq!(game_with_time(0, Some(now + 5000)).last_played_str_at(now), "Just now");
    assert_eq!(game_with_time(0, Some(now - 7200)).last_played_str_at(now), "2h ago");
    assert_eq!(game_with_time(0, Some(now - 3 * 86400)).last_played_str_at(now), "3d ago");
    assert_eq!(game_with_time(0, Some(now - 15 * 86400)).last_played_str_at(now), "2w ago");
}

#[test]
fn last_played_extreme_times() {
    let g = game_with_time(0, Some(i64::MIN));
    assert_eq!(g.last_played_str_at(i64::MAX), format!("{}w ago", ((i64::MAX as i128) - (i64::MIN as i128)) / 604800));
    assert_eq!(game_with_time(0, None).last_played_str(), "Never");
}

#[test]
fn default_game_is_blank_local_linux() {
    let g = Game::default();
    assert_eq!(g.id, "");
    assert_eq!(g.title, "");
    assert_eq!(g.store, Store::Local);
    assert_eq!(g.launch_mode, LaunchMode::Linux);
    assert!(g.exe_path.is_none() && g.runner.is_none() && !g.installed);
    assert_eq!(g.play_time, 0);
}

#[test]
fn clone_keeps_every_field() {
    let mut g = Game::default();
    g.id = "x".into();
    g.notes = Some("n".into());
    g.use_gamemode = true;
    let c = g.clone();
    assert_eq!(c.id, "x");
    assert_eq!(c.notes.as_deref(), Some("n"));
    assert!(c.use_gamemode);
}
