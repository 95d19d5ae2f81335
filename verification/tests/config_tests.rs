use novadream::config::{
    data_dir_in, data_subdirs, default_prefix_in, prefix_under, default_theme, default_true, novadream_dir_in, sanitise_title,
    Config,
};
use novadream::ui::settings::{LibraryFolder, SettingChange};

#[test]
fn sanitise_title_replaces_and_collapses() {
    assert_eq!(sanitise_title("Half-Life 2: Episode One"), "Half_Life_2_Episode_One");
    assert_eq!(sanitise_title("  __Doom  Eternal__ "), "Doom_Eternal");
    assert_eq!(sanitise_title("a--b"), "a_b");
    assert_eq!(sanitise_title("v1.2_final"), "v1.2_final");
}

#[test]
fn sanitise_title_empty_and_symbols() {
    assert_eq!(sanitise_title(""), "");
    assert_eq!(sanitise_title("!!!"), "");
    assert_eq!(sanitise_title("MiSide"), "MiSide");
}

#[test]
fn sanitise_title_never_names_a_dot_directory() {
    assert_eq!(sanitise_title(".."), "");
    assert_eq!(sanitise_title("."), "");
    assert_eq!(sanitise_title(" .. "), "");
    assert_eq!(sanitise_title("_.._"), "");
    assert_eq!(sanitise_title("..."), "...");
    assert_eq!(sanitise_title(".hidden"), ".hidden");
}

#[test]
fn sanitise_title_is_idempotent() {
    for t in ["Half-Life 2: Episode One", "  x  y ", "___", "Élan vital", "a.b-c d"] {
        let once = sanitise_title(t);
        assert_eq!(sanitise_title(&once), once);
    }
}

#[test]
fn prefix_named_after_title() {
    let base = Some("/home/u/.local/share".to_string());
    assert_eq!(default_prefix_in(&base, "MiSide"), "/home/u/.local/share/NovaDream/prefixes/MiSide");
    assert_eq!(default_prefix_in(&base, "???"), "/home/u/.local/share/NovaDream/prefixes/prefix");
    assert_eq!(default_prefix_in(&base, ".."), "/home/u/.local/share/NovaDream/prefixes/prefix");
    assert_eq!(default_prefix_in(&base, "Two  Words"), default_prefix_in(&base, "Two Words"));
}

#[test]
fn prefix_without_data_dir() {
    assert_eq!(default_prefix_in(&None, "Game"), "~/.local/share/NovaDream/prefixes/Game");
}

#[test]
fn data_dirs() {
    let base = Some("/d".to_string());
    assert_eq!(novadream_dir_in(&base), "/d/NovaDream");
    assert_eq!(data_dir_in(&base, "epic"), "/d/NovaDream/epic");
    assert_eq!(novadream_dir_in(&None), "~/.local/share/NovaDream");
    assert_eq!(data_subdirs("/d/NovaDream"), vec![
        "/d/NovaDream/proton".to_string(),
        "/d/NovaDream/wine".to_string(),
        "/d/NovaDream/covers".to_string(),
        "/d/NovaDream/prefixes".to_string(),
    ]);
}

#[test]
fn config_defaults_match_readme() {
    let c = Config::defaults_in(&Some("/home/u/.local/share".to_string()));
    assert_eq!(c.theme, "catppuccin-macchiato");
    assert!(c.show_tray);
    assert!(c.close_to_tray);
    assert_eq!(c.epic_library, "/home/u/.local/share/NovaDream/epic");
    assert_eq!(c.gog_library, "/home/u/.local/share/NovaDream/gog");
    assert_eq!(c.itch_library, "/home/u/.local/share/NovaDream/itch");
    assert_eq!(c.steam_library, "/home/u/.local/share/NovaDream/steam");
    assert_eq!(c.local_library, "/home/u/.local/share/NovaDream/local");
    assert_eq!(c.default_wine_prefix, "/home/u/.local/share/NovaDream/prefixes");
    assert_eq!(c.default_runner, "");
    assert_eq!(c.launch_flags, "");
    assert_eq!(c.env_vars, "");
    assert!(c.auto_fetch_cover && c.minimize_on_launch && c.track_playtime && c.show_playtime_on_card);
    assert!(!c.use_mangohud && !c.use_gamemode && !c.use_wine_wayland);
    assert_eq!(default_theme(), "catppuccin-macchiato");
    assert!(default_true());
}

#[test]
fn config_default_trait() {
    let c = Config::default();
    assert_eq!(c.theme, "catppuccin-macchiato");
    assert!(c.epic_library.ends_with("NovaDream/epic"));
}

#[test]
fn config_path_location() {
    assert_eq!(Config::config_path_in(&Some("/home/u/.config".to_string())), "/home/u/.config/NovaDream/config.json");
    assert_eq!(Config::config_path_in(&None), "~/.config/NovaDream/config.json");
    assert!(Config::config_path().ends_with("NovaDream/config.json"));
}

#[test]
fn library_path_reads_back() {
    let mut c = Config::defaults_in(&Some("/d".to_string()));
    c.apply_change(SettingChange::LibraryPath(LibraryFolder::Gog, "/games/gog".to_string()));
    assert_eq!(c.library_path(LibraryFolder::Gog), "/games/gog");
    assert_eq!(c.library_path(LibraryFolder::Epic), "/d/NovaDream/epic");
    assert_eq!(c.library_path(LibraryFolder::Local), "/d/NovaDream/local");
}

#[test]
fn each_change_sets_one_setting() {
    let mut c = Config::defaults_in(&Some("/d".to_string()));
    c.apply_change(SettingChange::Theme("nord".to_string()));
    c.apply_change(SettingChange::UseMangohud(true));
    c.apply_change(SettingChange::DefaultRunner("GE-Proton9".to_string()));
    c.apply_change(SettingChange::CloseToTray(false));
    c.apply_change(SettingChange::EnvVars("A=1".to_string()));
    assert_eq!(c.theme, "nord");
    assert!(c.use_mangohud);
    assert!(!c.use_gamemode);
    assert_eq!(c.default_runner, "GE-Proton9");
    assert!(c.show_tray);
    assert!(!c.close_to_tray);
    assert_eq!(c.env_vars, "A=1");
    assert_eq!(c.epic_library, "/d/NovaDream/epic");
}

#[test]
fn prefix_under_the_prefix_base() {
    assert_eq!(prefix_under("/mnt/prefixes", "Half-Life 2: Episode One"), "/mnt/prefixes/Half_Life_2_Episode_One");
    assert_eq!(prefix_under("/mnt/prefixes/", "MiSide"), "/mnt/prefixes/MiSide");
    assert_eq!(prefix_under("/mnt/prefixes", ".."), "/mnt/prefixes/prefix");
    let base = Some("/home/u/.local/share".to_string());
    assert_eq!(prefix_under(&data_dir_in(&base, "prefixes"), "MiSide"), default_prefix_in(&base, "MiSide"));
}
