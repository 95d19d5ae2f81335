use novadream::game::{Game, LaunchMode, Store};
use novadream::proton::{Runner, RunnerKind};
use novadream::ui::add_game::{
    browse_allowed, exe_field_label, local_id, mode_for_index, new_local_game, runner_list, runner_row_visible,
    uuid_simple,
};
use novadream::ui::game_settings::{
    apply_game_settings, initial_prefix, opt_str, runner_binaries, runner_names, selected_runner, GameSettingsForm,
};
use novadream::ui::login::{entered_text, login_title, oauth_first_step};
use novadream::ui::settings::{
    default_runner_choice, library_path_rows, runner_position, theme_display_name, theme_groups, theme_palette,
    uses_theme_css, LibraryFolder, SettingChange,
};
use novadream::ui::sidebar::{account_label, filter_buttons};
use novadream::ui::store::{open_label, open_store_command, stores};

fn runners() -> Vec<Runner> {
    vec![
        Runner { name: "wine-9.0".to_string(), kind: RunnerKind::System, path: "/usr".to_string() },
        Runner { name: "GE-Proton9".to_string(), kind: RunnerKind::Proton, path: "/d/proton/GE-Proton9".to_string() },
        Runner { name: "wine-ge".to_string(), kind: RunnerKind::Wine, path: "/d/proton/wine-ge".to_string() },
    ]
}

fn form() -> GameSettingsForm {
    GameSettingsForm {
        runner_index: 2,
        wine_prefix: String::new(),
        launch_args: "-novid".to_string(),
        work_dir: String::new(),
        pre_launch: String::new(),
        post_exit: "/bin/true".to_string(),
        env_vars: "A=1".to_string(),
        notes: String::new(),
        favorite: true,
        hidden: false,
        use_mangohud: true,
        use_gamemode: false,
        use_wine_wayland: true,
    }
}

#[test]
fn runner_choices_for_settings() {
    let rs = runners();
    assert_eq!(runner_names(&rs), vec!["(Use global default)", "System Wine (wine-9.0)", "GE-Proton9", "wine-ge"]);
    assert_eq!(runner_binaries(&rs), vec![
        None,
        Some("wine".to_string()),
        Some("/d/proton/GE-Proton9/proton".to_string()),
        Some("/d/proton/wine-ge/bin/wine".to_string()),
    ]);
}

#[test]
fn selected_runner_matches_binary() {
    let bins = runner_binaries(&runners());
    assert_eq!(selected_runner(&bins, &Some("/d/proton/GE-Proton9/proton".to_string())), Some(2));
    assert_eq!(selected_runner(&bins, &Some("/elsewhere/proton".to_string())), None);
    assert_eq!(selected_runner(&bins, &None), None);
}

#[test]
fn settings_form_applied() {
    let mut g = Game::default();
    g.id = "local-1".to_string();
    g.title = "Game".to_string();
    g.play_time = 99;
    g.wine_prefix = Some("/old".to_string());
    let bins = runner_binaries(&runners());
    let out = apply_game_settings(&g, &bins, form());
    assert_eq!(out.id, "local-1");
    assert_eq!(out.play_time, 99);
    assert_eq!(out.runner.as_deref(), Some("/d/proton/GE-Proton9/proton"));
    assert_eq!(out.wine_prefix, None);
    assert_eq!(out.launch_args.as_deref(), Some("-novid"));
    assert_eq!(out.post_exit.as_deref(), Some("/bin/true"));
    assert_eq!(out.notes, None);
    assert!(out.favorite && out.use_mangohud && out.use_wine_wayland && !out.use_gamemode);
    let mut f = form();
    f.runner_index = 0;
    assert_eq!(apply_game_settings(&g, &bins, f).runner, None);
    let mut f = form();
    f.runner_index = 99;
    assert_eq!(apply_game_settings(&g, &bins, f).runner, None);
}

#[test]
fn empty_fields_become_unset() {
    assert_eq!(opt_str(String::new()), None);
    assert_eq!(opt_str("x".to_string()), Some("x".to_string()));
}

#[test]
fn initial_prefix_text() {
    let mut g = Game::default();
    g.title = "Some Game".to_string();
    assert!(initial_prefix(&g).ends_with("NovaDream/prefixes/Some_Game"));
    g.wine_prefix = Some("/mine".to_string());
    assert_eq!(initial_prefix(&g), "/mine");
}

#[test]
fn add_game_dialog() {
    assert_eq!(mode_for_index(0), LaunchMode::Linux);
    assert_eq!(mode_for_index(1), LaunchMode::Windows);
    assert_eq!(mode_for_index(2), LaunchMode::Browser);
    assert_eq!(mode_for_index(7), LaunchMode::Linux);
    assert_eq!(exe_field_label(2), "URL");
    assert_eq!(exe_field_label(1), "Executable Path");
    assert!(runner_row_visible(1) && !runner_row_visible(0));
    assert!(!browse_allowed(2) && browse_allowed(0));
    assert_eq!(runner_list(&vec![]), vec!["No runners found — add one to NovaDream/proton/"]);
    assert_eq!(runner_list(&runners()).len(), 3);
}

#[test]
fn new_local_game_from_form() {
    let rs = runners();
    let g = new_local_game("local-5".into(), "Doom".into(), "/g/doom.exe".into(), 1, &rs, 1).unwrap();
    assert_eq!(g.id, "local-5");
    assert_eq!(g.store, Store::Local);
    assert_eq!(g.launch_mode, LaunchMode::Windows);
    assert_eq!(g.runner.as_deref(), Some("/d/proton/GE-Proton9/proton"));
    assert_eq!(g.exe_path.as_deref(), Some("/g/doom.exe"));
    assert_eq!(g.install_path.as_deref(), Some("/g/doom.exe"));
    assert!(g.installed);
    let l = new_local_game("id".into(), "Doom".into(), "/g/doom".into(), 0, &rs, 1).unwrap();
    assert_eq!(l.runner, None);
    assert!(new_local_game("id".into(), String::new(), "/g".into(), 0, &rs, 0).is_none());
    assert!(new_local_game("id".into(), "T".into(), String::new(), 0, &rs, 0).is_none());
    let n = new_local_game("id".into(), "T".into(), "/g".into(), 1, &vec![], 0).unwrap();
    assert_eq!(n.runner, None);
}

#[test]
fn local_ids() {
    assert_eq!(local_id(1_700_000_000_123_456_789), "local-1700000000123456789");
    assert_eq!(local_id(0), "local-0");
    assert!(uuid_simple().starts_with("local-"));
}

#[test]
fn theme_names() {
    assert_eq!(theme_display_name("system"), "System Theme");
    assert_eq!(theme_display_name("catppuccin-frappe"), "Frappé");
    assert_eq!(theme_display_name("rose-pine-dawn"), "Rosé Pine Dawn (Light)");
    assert_eq!(theme_display_name("dracula"), "Dracula");
    assert_eq!(theme_display_name("gruvbox"), "Gruvbox");
    assert_eq!(theme_display_name("kanagawa"), "Kanagawa");
    assert_eq!(theme_display_name("my-own-theme"), "My own theme");
}

#[test]
fn every_offered_theme_has_a_name() {
    for (_, ids) in theme_groups() {
        for id in ids {
            assert!(!theme_display_name(&id).is_empty());
        }
    }
    let groups = theme_groups();
    assert_eq!(groups.len(), 7);
    assert_eq!(groups[0].0, "System");
    assert_eq!(groups[1].1.len(), 4);
    assert_eq!(groups[2].1[0], "dracula");
}

#[test]
fn palettes() {
    let p = theme_palette("nord");
    assert_eq!(p.base, "#2e3440");
    assert_eq!(p.accent, "#88c0d0");
    let d = theme_palette("no-such-theme");
    let m = theme_palette("catppuccin-macchiato");
    assert_eq!(d.base, m.base);
    assert_eq!(d.green, "#a6da95");
    assert!(uses_theme_css("nord"));
    assert!(!uses_theme_css("system"));
}

#[test]
fn library_rows_and_runner_defaults() {
    let rows = library_path_rows();
    assert_eq!(rows.len(), 5);
    assert_eq!(rows[0], ("Epic Games library", "Where Epic games are installed", LibraryFolder::Epic));
    assert_eq!(rows[4].2, LibraryFolder::Local);
    let names = vec!["A".to_string(), "B".to_string(), "B".to_string()];
    assert_eq!(runner_position(&names, &"B".to_string()), Some(1));
    assert_eq!(runner_position(&names, &"C".to_string()), None);
    match default_runner_choice(&names, 0) {
        Some(SettingChange::DefaultRunner(n)) => assert_eq!(n, "A"),
        _ => panic!("expected a runner change"),
    }
    assert!(default_runner_choice(&names, 3).is_none());
}

#[test]
fn login_texts() {
    assert_eq!(entered_text(String::new()), None);
    assert_eq!(entered_text("https://r?code=1".to_string()), Some("https://r?code=1".to_string()));
    assert_eq!(login_title("GOG"), "Log in to GOG");
    assert_eq!(oauth_first_step("Epic Games"), "1. Open this URL in your browser and log in to Epic Games:");
}

#[test]
fn sidebar_texts() {
    assert_eq!(account_label("GOG", true), "✓ GOG");
    assert_eq!(account_label("Itch.io", false), "Log in to Itch.io");
    let b = filter_buttons();
    assert_eq!(b.len(), 6);
    assert_eq!(b[0], ("🎮  All Games", None));
    assert_eq!(b[4], ("🔴  Itch.io", Some("Itch.io")));
    for (_, store) in b.iter().skip(1) {
        let s = store.unwrap();
        assert!([Store::Epic, Store::Gog, Store::Steam, Store::Itch, Store::Local].iter().any(|x| x.label() == s));
    }
}

#[test]
fn store_tab() {
    let s = stores();
    assert_eq!(s.len(), 4);
    assert_eq!(s[0].name, "Steam");
    assert_eq!(s[3].url, "https://itch.io");
    assert_eq!(open_label("GOG"), "Open GOG");
    let c = open_store_command("https://www.gog.com");
    assert_eq!(c.program, "xdg-open");
    assert_eq!(c.args, vec!["https://www.gog.com"]);
}
