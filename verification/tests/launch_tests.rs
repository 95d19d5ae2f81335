use novadream::command::{CommandSpec, EnvOp};
use novadream::game::{Game, LaunchMode};
use novadream::config::Config;
use novadream::launch::{
    apply_defaults, default_runner_binary, first_existing, launch_defaults, launch_umu_in, needs_umu_download,
    parse_env_pairs, parse_launch_args, plan_launch, steam_home_in, tool_candidates, LaunchDefaults, LaunchFacts,
    LaunchPlan,
};
use novadream::proton::{Runner, RunnerKind};

fn facts() -> LaunchFacts {
    LaunchFacts {
        defaults: no_defaults(),
        default_prefix: "/data/NovaDream/prefixes/Game".to_string(),
        umu_path: None,
        prefix_empty: false,
        wine_bin: "/opt/wine/bin/wine".to_string(),
        wineboot: "/opt/wine/bin/wineboot".to_string(),
        steam_home: "/home/u/.steam/steam".to_string(),
        wayland_display: Some("wayland-1".to_string()),
        screen_width: 2560,
        screen_height: 1440,
    }
}

fn no_defaults() -> LaunchDefaults {
    LaunchDefaults {
        runner: None,
        env_vars: String::new(),
        launch_flags: String::new(),
        use_mangohud: false,
        use_gamemode: false,
        use_wine_wayland: false,
    }
}

fn windows_game(runner: &str) -> Game {
    let mut g = Game::default();
    g.id = "local-7".to_string();
    g.title = "Game".to_string();
    g.exe_path = Some("/games/game/game.exe".to_string());
    g.launch_mode = LaunchMode::Windows;
    g.runner = Some(runner.to_string());
    g
}

fn assigns(c: &CommandSpec) -> Vec<(String, String)> {
    c.env.iter().filter_map(|e| match e {
        EnvOp::Assign(k, v) => Some((k.clone(), v.clone())),
        EnvOp::Remove(_) => None,
    }).collect()
}

fn value_of(c: &CommandSpec, key: &str) -> Option<String> {
    assigns(c).into_iter().rev().find(|(k, _)| k == key).map(|(_, v)| v)
}

fn removes(c: &CommandSpec, key: &str) -> bool {
    c.env.iter().any(|e| matches!(e, EnvOp::Remove(k) if k == key))
}

fn plan(g: &Game, f: &LaunchFacts) -> LaunchPlan {
    plan_launch(g, f).expect("a plan")
}

#[test]
fn env_pairs_parse_lines() {
    let p = parse_env_pairs(Some("DXVK_HUD=1\n  FOO = bar baz \nnot a pair\nA=b=c\r\n"));
    assert_eq!(p, vec![
        ("DXVK_HUD".to_string(), "1".to_string()),
        ("FOO".to_string(), "bar baz".to_string()),
        ("A".to_string(), "b=c".to_string()),
    ]);
    assert!(parse_env_pairs(None).is_empty());
    assert!(parse_env_pairs(Some("")).is_empty());
}

#[test]
fn launch_args_split_on_whitespace() {
    assert_eq!(parse_launch_args(Some("  --windowed\t-novid  ")), vec!["--windowed".to_string(), "-novid".to_string()]);
    assert!(parse_launch_args(None).is_empty());
}

#[test]
fn no_executable_no_plan() {
    let g = Game::default();
    assert!(plan_launch(&g, &facts()).is_none());
}

#[test]
fn linux_game_plan() {
    let mut g = Game::default();
    g.exe_path = Some("/games/foo/run.sh".to_string());
    g.launch_args = Some("--fast".to_string());
    g.env_vars = Some("A=1".to_string());
    let p = plan(&g, &facts());
    assert!(p.create_dirs.is_empty() && p.init_prefix.is_none() && p.prepare.is_empty() && p.registry.is_empty());
    assert_eq!(p.game.program, "/games/foo/run.sh");
    assert_eq!(p.game.args, vec!["--fast".to_string()]);
    assert_eq!(p.game.cwd.as_deref(), Some("/games/foo"));
    assert!(p.game.new_process_group);
    assert_eq!(assigns(&p.game), vec![("A".to_string(), "1".to_string())]);
}

#[test]
fn linux_game_work_dir_override() {
    let mut g = Game::default();
    g.exe_path = Some("/games/foo/run.sh".to_string());
    g.work_dir = Some("/tmp/wd".to_string());
    let p = plan(&g, &facts());
    assert_eq!(p.game.cwd.as_deref(), Some("/tmp/wd"));
}

#[test]
fn wrappers_mangohud_and_gamemode() {
    let mut g = Game::default();
    g.exe_path = Some("/games/foo/run.sh".to_string());
    g.use_mangohud = true;
    g.use_gamemode = true;
    let p = plan(&g, &facts());
    assert_eq!(p.game.program, "mangohud");
    assert_eq!(p.game.args, vec!["gamemoderun".to_string(), "/games/foo/run.sh".to_string()]);
    g.use_mangohud = false;
    let p = plan(&g, &facts());
    assert_eq!(p.game.program, "gamemoderun");
    assert_eq!(p.game.args, vec!["/games/foo/run.sh".to_string()]);
}

#[test]
fn browser_game_opens_xdg_open() {
    let mut g = Game::default();
    g.exe_path = Some("https://example.org/game".to_string());
    g.launch_mode = LaunchMode::Browser;
    let p = plan(&g, &facts());
    assert_eq!(p.game.program, "xdg-open");
    assert_eq!(p.game.args, vec!["https://example.org/game".to_string()]);
    assert!(p.game.env.is_empty() && p.game.cwd.is_none());
}

#[test]
fn plain_wine_new_prefix_gets_wineboot_and_registry() {
    let g = windows_game("/opt/wine/bin/wine");
    let mut f = facts();
    f.prefix_empty = true;
    let p = plan(&g, &f);
    assert_eq!(p.create_dirs, vec!["/data/NovaDream/prefixes/Game".to_string()]);
    let w = p.init_prefix.expect("wineboot");
    assert_eq!(w.program, "/opt/wine/bin/wineboot");
    assert_eq!(w.args, vec!["--init".to_string()]);
    assert_eq!(value_of(&w, "WINEPREFIX").as_deref(), Some("/data/NovaDream/prefixes/Game"));
    assert_eq!(p.prepare.len(), 1);
    assert_eq!(p.prepare[0].args, vec!["reg", "delete", "HKCU\\Software\\Wine\\Explorer", "/v", "Desktop", "/f"]);
    assert_eq!(p.registry.len(), 3);
    assert_eq!(p.registry[0].args, vec!["reg", "delete", "HKCU\\Software\\Wine\\Drivers", "/v", "Graphics", "/f"]);
    assert_eq!(p.registry[1].args, vec!["reg", "add", "HKCU\\Software\\Wine\\X11 Driver", "/v", "ScreenResolution", "/t", "REG_SZ", "/d", "2560x1440", "/f"]);
    assert_eq!(p.game.program, "/opt/wine/bin/wine");
    assert_eq!(p.game.args, vec!["/games/game/game.exe".to_string()]);
    assert_eq!(value_of(&p.game, "WINEPREFIX").as_deref(), Some("/data/NovaDream/prefixes/Game"));
    assert_eq!(value_of(&p.game, "WINEDLLOVERRIDES").as_deref(), Some("winemenubuilder.exe=d"));
    assert_eq!(p.game.cwd.as_deref(), Some("/games/game"));
}

#[test]
fn existing_prefix_no_wineboot() {
    let g = windows_game("/opt/wine/bin/wine");
    let p = plan(&g, &facts());
    assert!(p.init_prefix.is_none());
}

#[test]
fn wine_wayland_plain_wine() {
    let mut g = windows_game("/opt/wine/bin/wine");
    g.use_wine_wayland = true;
    let p = plan(&g, &facts());
    assert_eq!(p.registry.len(), 4);
    assert_eq!(p.registry[0].args, vec!["reg", "add", "HKCU\\Software\\Wine\\Drivers", "/v", "Graphics", "/t", "REG_SZ", "/d", "wayland", "/f"]);
    assert_eq!(p.registry[1].args[2], "HKCU\\Software\\Wine\\Wayland Driver");
    assert!(removes(&p.registry[0], "DISPLAY"));
    assert!(removes(&p.game, "DISPLAY"));
    assert_eq!(value_of(&p.game, "WAYLAND_DISPLAY").as_deref(), Some("wayland-1"));
    assert_eq!(value_of(&p.game, "PROTON_WAYLAND"), None);
}

#[test]
fn proton_through_umu() {
    let mut g = windows_game("/data/NovaDream/proton/GE-Proton9/proton");
    g.use_wine_wayland = true;
    g.env_vars = Some("DXVK_HUD=fps".to_string());
    let mut f = facts();
    f.umu_path = Some("umu-run".to_string());
    f.prefix_empty = true;
    let p = plan(&g, &f);
    assert_eq!(p.create_dirs, vec!["/data/NovaDream/prefixes/Game".to_string()]);
    assert!(p.init_prefix.is_none() && p.prepare.is_empty() && p.registry.is_empty());
    assert_eq!(p.game.program, "umu-run");
    assert_eq!(p.game.args, vec!["/games/game/game.exe".to_string()]);
    assert_eq!(value_of(&p.game, "PROTONPATH").as_deref(), Some("/data/NovaDream/proton/GE-Proton9"));
    assert_eq!(value_of(&p.game, "GAMEID").as_deref(), Some("0"));
    assert_eq!(value_of(&p.game, "SteamGameId").as_deref(), Some("novadream-local-7"));
    assert_eq!(value_of(&p.game, "STEAM_COMPAT_INSTALL_PATH").as_deref(), Some("/games/game"));
    assert_eq!(value_of(&p.game, "PROTON_WAYLAND").as_deref(), Some("1"));
    assert_eq!(value_of(&p.game, "PROTON_FORCE_LARGE_ADDRESS_AWARE").as_deref(), Some("1"));
    assert!(removes(&p.game, "DISPLAY"));
    let last = assigns(&p.game).pop().unwrap();
    assert_eq!(last, ("DXVK_HUD".to_string(), "fps".to_string()));
}

#[test]
fn proton_called_directly_without_umu() {
    let g = windows_game("/data/NovaDream/proton/GE-Proton9/proton");
    let p = plan(&g, &facts());
    assert_eq!(p.create_dirs, vec!["/data/NovaDream/prefixes/Game".to_string(), "/home/u/.steam/steam".to_string()]);
    assert_eq!(p.game.program, "/data/NovaDream/proton/GE-Proton9/proton");
    assert_eq!(p.game.args, vec!["waitforexitandrun".to_string(), "/games/game/game.exe".to_string()]);
    assert_eq!(value_of(&p.game, "WINEPREFIX").as_deref(), Some("/data/NovaDream/prefixes/Game/pfx"));
    assert_eq!(value_of(&p.game, "STEAM_COMPAT_CLIENT_INSTALL_PATH").as_deref(), Some("/home/u/.steam/steam"));
    assert_eq!(value_of(&p.game, "PROTON_FORCE_LARGE_ADDRESS_AWARE"), None);
}

#[test]
fn own_prefix_wins_over_default() {
    let mut g = windows_game("/opt/wine/bin/wine");
    g.wine_prefix = Some("/pfx/mine".to_string());
    let p = plan(&g, &facts());
    assert_eq!(p.create_dirs[0], "/pfx/mine");
    g.wine_prefix = Some(String::new());
    let p = plan(&g, &facts());
    assert_eq!(p.create_dirs[0], "/data/NovaDream/prefixes/Game");
}

#[test]
fn no_runner_means_wine() {
    let mut g = windows_game("x");
    g.runner = None;
    let p = plan(&g, &facts());
    assert_eq!(p.game.program, "wine");
}

#[test]
fn tool_lookup() {
    assert_eq!(tool_candidates("/opt/wine-ge/bin/wine", "wineboot"), vec![
        "/opt/wine-ge/bin/wineboot".to_string(),
        "/opt/wine-ge/bin/wineboot".to_string(),
    ]);
    assert_eq!(tool_candidates("/opt/runner/files/proton", "wine"), vec![
        "/opt/runner/files/wine".to_string(),
        "/opt/runner/bin/wine".to_string(),
    ]);
    assert_eq!(tool_candidates("wine", "wine"), vec!["wine".to_string()]);
    let c = vec![("/a".to_string(), false), ("/b".to_string(), true), ("/c".to_string(), true)];
    assert_eq!(first_existing(&c, "fallback"), "/b");
    assert_eq!(first_existing(&vec![("/a".to_string(), false)], "wineboot"), "wineboot");
}

#[test]
fn steam_home_and_umu_paths() {
    assert_eq!(steam_home_in(&Some("/home/u".to_string())), "/home/u/.steam/steam");
    assert_eq!(steam_home_in(&None), ".steam/steam");
    assert_eq!(launch_umu_in(&Some("/d".to_string())), "/d/NovaDream/runtimes/umu/umu-run");
}

#[test]
fn umu_download_needed_only_for_proton() {
    let g = windows_game("/p/GE-Proton9/proton");
    assert!(needs_umu_download(&g, false));
    assert!(!needs_umu_download(&g, true));
    let w = windows_game("/opt/wine/bin/wine");
    assert!(!needs_umu_download(&w, false));
    let mut l = windows_game("/p/GE-Proton9/proton");
    l.launch_mode = LaunchMode::Linux;
    assert!(!needs_umu_download(&l, false));
}

fn runners() -> Vec<Runner> {
    vec![
        Runner { name: "GE-Proton9".to_string(), kind: RunnerKind::Proton, path: "/data/NovaDream/proton/GE-Proton9".to_string() },
        Runner { name: "wine-9".to_string(), kind: RunnerKind::Wine, path: "/opt/wine-9".to_string() },
        Runner { name: "9.0".to_string(), kind: RunnerKind::System, path: "/usr/bin".to_string() },
    ]
}

#[test]
fn default_runner_found_by_label() {
    let rs = runners();
    assert_eq!(default_runner_binary(&rs, "GE-Proton9").as_deref(), Some("/data/NovaDream/proton/GE-Proton9/proton"));
    assert_eq!(default_runner_binary(&rs, "wine-9").as_deref(), Some("/opt/wine-9/bin/wine"));
    assert_eq!(default_runner_binary(&rs, "System Wine (9.0)").as_deref(), Some("wine"));
    assert_eq!(default_runner_binary(&rs, "missing"), None);
    assert_eq!(default_runner_binary(&rs, ""), None);
}

#[test]
fn launch_defaults_from_config() {
    let mut cfg = Config::default();
    cfg.default_runner = "wine-9".to_string();
    cfg.env_vars = "DXVK_HUD=1".to_string();
    cfg.launch_flags = "--windowed".to_string();
    cfg.use_mangohud = true;
    cfg.use_gamemode = false;
    cfg.use_wine_wayland = true;
    let d = launch_defaults(&cfg, &runners());
    assert_eq!(d.runner.as_deref(), Some("/opt/wine-9/bin/wine"));
    assert_eq!(d.env_vars, "DXVK_HUD=1");
    assert_eq!(d.launch_flags, "--windowed");
    assert!(d.use_mangohud && !d.use_gamemode && d.use_wine_wayland);
}

#[test]
fn global_env_and_flags_apply_to_native_games() {
    let mut g = Game::default();
    g.exe_path = Some("/games/foo/run.sh".to_string());
    let mut f = facts();
    f.defaults.env_vars = "DXVK_HUD=1".to_string();
    f.defaults.launch_flags = "--windowed".to_string();
    let p = plan(&g, &f);
    assert_eq!(p.game.program, "/games/foo/run.sh");
    assert_eq!(p.game.args, vec!["--windowed".to_string()]);
    assert_eq!(assigns(&p.game), vec![("DXVK_HUD".to_string(), "1".to_string())]);
}

#[test]
fn game_settings_win_over_defaults() {
    let mut g = Game::default();
    g.exe_path = Some("/games/foo/run.sh".to_string());
    g.launch_args = Some("--fast".to_string());
    g.env_vars = Some("DXVK_HUD=0\nB=2".to_string());
    let mut f = facts();
    f.defaults.env_vars = "DXVK_HUD=1\nA=1".to_string();
    f.defaults.launch_flags = "--windowed".to_string();
    let p = plan(&g, &f);
    assert_eq!(p.game.args, vec!["--fast".to_string()]);
    assert_eq!(assigns(&p.game), vec![
        ("DXVK_HUD".to_string(), "1".to_string()),
        ("A".to_string(), "1".to_string()),
        ("DXVK_HUD".to_string(), "0".to_string()),
        ("B".to_string(), "2".to_string()),
    ]);
    assert_eq!(value_of(&p.game, "DXVK_HUD").as_deref(), Some("0"));
}

#[test]
fn default_runner_for_windows_game_without_one() {
    let mut g = windows_game("x");
    g.runner = None;
    let mut f = facts();
    f.defaults.runner = Some("/opt/wine-9/bin/wine".to_string());
    let p = plan(&g, &f);
    assert_eq!(p.game.program, "/opt/wine-9/bin/wine");
    assert_eq!(p.game.args, vec!["/games/game/game.exe".to_string()]);
    let own = windows_game("/opt/other/bin/wine");
    assert_eq!(plan(&own, &f).game.program, "/opt/other/bin/wine");
    f.defaults.runner = None;
    assert_eq!(plan(&g, &f).game.program, "wine");
}

#[test]
fn default_proton_runner_goes_through_umu() {
    let mut g = windows_game("x");
    g.runner = None;
    let mut f = facts();
    f.defaults.runner = Some("/data/NovaDream/proton/GE-Proton9/proton".to_string());
    f.umu_path = Some("umu-run".to_string());
    let p = plan(&g, &f);
    assert_eq!(p.game.program, "umu-run");
    assert_eq!(value_of(&p.game, "PROTONPATH").as_deref(), Some("/data/NovaDream/proton/GE-Proton9"));
    let eff = apply_defaults(&g, &f.defaults);
    assert!(needs_umu_download(&eff, false));
    assert!(!needs_umu_download(&g, false));
}

#[test]
fn global_wrappers_and_wayland() {
    let mut g = windows_game("/opt/wine/bin/wine");
    g.env_vars = None;
    let mut f = facts();
    f.defaults.use_mangohud = true;
    f.defaults.use_gamemode = true;
    f.defaults.use_wine_wayland = true;
    let p = plan(&g, &f);
    assert_eq!(p.game.program, "mangohud");
    assert_eq!(p.game.args, vec!["gamemoderun".to_string(), "/opt/wine/bin/wine".to_string(), "/games/game/game.exe".to_string()]);
    assert_eq!(p.registry.len(), 4);
    assert!(removes(&p.game, "DISPLAY"));
}

#[test]
fn apply_defaults_keeps_own_settings() {
    let mut g = windows_game("/opt/wine/bin/wine");
    g.launch_args = Some("-dx11".to_string());
    let d = LaunchDefaults {
        runner: Some("/x/proton".to_string()),
        env_vars: "A=1".to_string(),
        launch_flags: "--windowed".to_string(),
        use_mangohud: true,
        use_gamemode: false,
        use_wine_wayland: false,
    };
    let e = apply_defaults(&g, &d);
    assert_eq!(e.runner.as_deref(), Some("/opt/wine/bin/wine"));
    assert_eq!(e.launch_args.as_deref(), Some("-dx11"));
    assert!(e.use_mangohud && !e.use_gamemode && !e.use_wine_wayland);
    g.runner = None;
    g.launch_args = None;
    let e = apply_defaults(&g, &d);
    assert_eq!(e.runner.as_deref(), Some("/x/proton"));
    assert_eq!(e.launch_args.as_deref(), Some("--windowed"));
    assert_eq!(e.env_vars, g.env_vars);
}
