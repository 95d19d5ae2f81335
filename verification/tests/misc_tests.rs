use novadream::local_library::{
    cover_key, cover_missing, cover_path_in, cover_url_from_search, covers_dir_in, extract_steam_appid,
    image_big_enough, library_path_in, steam_search_url, urlencoding,
};
use novadream::play::{button_look, card_button_label, play_next, PlayAction, PlayEvent, PlayState};
use novadream::proton::{detect_runners, runner_from_entry, system_wine_version, Runner, RunnerDirEntry, RunnerKind};
use novadream::tray::{activate_event, on_close_request, on_tray_event, tray_menu, TrayEvent, TrayMenuEntry, WindowAction};
use novadream::json::Json;
use novadream::umu::{
    bundled_umu_path_in, is_umu_entry, progress_percent, resolve_umu, zipapp_download_url, zipapp_url_from_release,
};

#[test]
fn cover_keys_by_title() {
    assert_eq!(cover_key("Hollow Knight", "local-1"), "Hollow_Knight");
    assert_eq!(cover_key("Hollow Knight", "local-2"), cover_key("Hollow  Knight", "local-9"));
    assert_eq!(cover_key("???", "local-3"), "local-3");
    let base = Some("/d".to_string());
    assert_eq!(cover_path_in(&base, "Hollow_Knight"), "/d/NovaDream/covers/Hollow_Knight.jpg");
    assert_eq!(covers_dir_in(&base), "/d/NovaDream/covers");
    assert_eq!(library_path_in(&base), "/d/NovaDream/local_games.json");
}

#[test]
fn url_encoding() {
    assert_eq!(urlencoding("Half-Life 2: Ep_1.~"), "Half-Life+2%3A+Ep_1.~");
    assert_eq!(urlencoding("é"), "%E9");
    assert_eq!(urlencoding("\u{1F600}"), "%1F600");
    assert_eq!(steam_search_url("a b"), "https://store.steampowered.com/search/suggest?term=a+b&f=games&cc=US&l=en");
}

#[test]
fn steam_app_ids() {
    let html = "<a class=\"match\" data-ds-appid=\"367520\" href=\"x\">Hollow Knight</a>";
    assert_eq!(extract_steam_appid(html).as_deref(), Some("367520"));
    assert_eq!(extract_steam_appid("data-ds-appid=\"\""), None);
    assert_eq!(extract_steam_appid("<a>nothing</a>"), None);
    assert_eq!(cover_url_from_search(html).as_deref(),
        Some("https://cdn.cloudflare.steamstatic.com/steam/apps/367520/library_600x900.jpg"));
    assert!(image_big_enough(1024) && !image_big_enough(1023));
}

#[test]
fn covers_needed_at_start() {
    assert!(!cover_missing(true, None));
    assert!(cover_missing(false, None));
    assert!(cover_missing(false, Some(false)));
    assert!(!cover_missing(false, Some(true)));
}

#[test]
fn play_button_flow() {
    let (s, a) = play_next(PlayState::Idle, PlayEvent::Pressed(true));
    assert_eq!((s, a), (PlayState::Downloading(None), PlayAction::DownloadUmu));
    assert_eq!(button_look(s).label, "⬇  Downloading UMU…");
    let (s, _) = play_next(s, PlayEvent::Progress(47));
    assert_eq!(button_look(s).label, "⬇  UMU 47%");
    let (s, a) = play_next(s, PlayEvent::UmuReady);
    assert_eq!(a, PlayAction::Launch);
    assert_eq!(button_look(s).label, "⏳  Launching…");
    let (s, _) = play_next(s, PlayEvent::Spawned);
    assert_eq!(s, PlayState::Launching);
    assert!(!button_look(s).sensitive);
    let (s, _) = play_next(s, PlayEvent::GameReady);
    let look = button_look(s);
    assert_eq!(look.label, "■  Stop");
    assert!(look.sensitive && look.stop_style);
    let (s, a) = play_next(s, PlayEvent::Pressed(false));
    assert_eq!((s, a), (PlayState::Idle, PlayAction::StopGame));
    let (s, a) = play_next(s, PlayEvent::GameExited(3600));
    assert_eq!((s, a), (PlayState::Idle, PlayAction::RecordSession(3600)));
    let look = button_look(s);
    assert_eq!(look.label, "▶  Play");
    assert!(look.sensitive && !look.stop_style);
}

#[test]
fn play_button_failures() {
    assert_eq!(play_next(PlayState::Downloading(Some(3)), PlayEvent::UmuFailed), (PlayState::Idle, PlayAction::Nothing));
    assert_eq!(play_next(PlayState::Starting(false), PlayEvent::SpawnFailed), (PlayState::Idle, PlayAction::Nothing));
    assert_eq!(play_next(PlayState::Idle, PlayEvent::Pressed(false)), (PlayState::Starting(false), PlayAction::Launch));
    assert_eq!(card_button_label(true), "▶  Play");
    assert_eq!(card_button_label(false), "⬇  Install");
}

#[test]
fn runner_detection() {
    let entries = vec![
        RunnerDirEntry { path: "/d/proton/GE-Proton9".into(), is_dir: true, has_proton: true, has_wine: false },
        RunnerDirEntry { path: "/d/proton/notes.txt".into(), is_dir: false, has_proton: false, has_wine: false },
        RunnerDirEntry { path: "/d/proton/empty".into(), is_dir: true, has_proton: false, has_wine: false },
        RunnerDirEntry { path: "/d/proton/wine-ge".into(), is_dir: true, has_proton: false, has_wine: true },
    ];
    let rs = detect_runners(Some("wine-9.0".into()), &entries);
    assert_eq!(rs.len(), 3);
    assert_eq!(rs[0].kind, RunnerKind::System);
    assert_eq!(rs[0].label(), "System Wine (wine-9.0)");
    assert_eq!(rs[0].binary(), "wine");
    assert_eq!(rs[1].name, "GE-Proton9");
    assert_eq!(rs[1].binary(), "/d/proton/GE-Proton9/proton");
    assert_eq!(rs[2].kind, RunnerKind::Wine);
    assert_eq!(rs[2].binary(), "/d/proton/wine-ge/bin/wine");
    assert_eq!(detect_runners(None, &entries).len(), 2);
    assert!(runner_from_entry(&entries[2]).is_none());
    assert_eq!(system_wine_version(Some(" wine-9.0 (Staging)\n".into())), "wine-9.0 (Staging)");
    assert_eq!(system_wine_version(None), "Wine");
    let r = Runner { name: "x".into(), kind: RunnerKind::Proton, path: "/p".into() };
    assert_eq!(r.duplicate().path, "/p");
}

#[test]
fn tray_decisions() {
    let m = tray_menu();
    assert_eq!(m.len(), 3);
    assert!(matches!(m[0], TrayMenuEntry::Item("Show NovaDream", TrayEvent::Show)));
    assert!(matches!(m[1], TrayMenuEntry::Separator));
    assert!(matches!(m[2], TrayMenuEntry::Item("Quit", TrayEvent::Quit)));
    assert_eq!(activate_event(), TrayEvent::Show);
    assert_eq!(on_tray_event(TrayEvent::Quit), WindowAction::CloseAndQuit);
    assert_eq!(on_tray_event(TrayEvent::Show), WindowAction::Present);
    assert_eq!(on_close_request(true, true), WindowAction::Hide);
    assert_eq!(on_close_request(true, false), WindowAction::Close);
    assert_eq!(on_close_request(false, true), WindowAction::Close);
}

#[test]
fn umu_choices() {
    assert_eq!(resolve_umu(true, true, "/b/umu-run").as_deref(), Some("umu-run"));
    assert_eq!(resolve_umu(false, true, "/b/umu-run").as_deref(), Some("/b/umu-run"));
    assert_eq!(resolve_umu(false, false, "/b/umu-run"), None);
    assert_eq!(bundled_umu_path_in(&Some("/d".to_string())), "/d/NovaDream/runtimes/umu/umu-run");
    assert_eq!(bundled_umu_path_in(&None), "~/.local/share/NovaDream/runtimes/umu/umu-run");
    assert!(is_umu_entry("umu/umu-run"));
    assert!(is_umu_entry("umu-run"));
    assert!(!is_umu_entry("umu-run.py"));
    assert_eq!(progress_percent(47, 100), 47);
    assert_eq!(progress_percent(1, 3), 33);
    assert_eq!(progress_percent(300, 100), 44);
}

fn asset(name: &str, url: &str) -> Json {
    Json::Object(vec![
        ("name".to_string(), Json::Str(name.to_string())),
        ("browser_download_url".to_string(), Json::Str(url.to_string())),
    ])
}

#[test]
fn zipapp_asset_lookup() {
    let doc = Json::Object(vec![("assets".to_string(), Json::Array(vec![
        asset("umu-launcher-1.3.0.tar.gz", "a"),
        asset("umu-launcher-1.3.0-zipapp.tar", "https://gh/zipapp.tar"),
        asset("other-zipapp.tar", "https://gh/second.tar"),
    ]))]);
    assert_eq!(zipapp_download_url(&doc).as_deref(), Some("https://gh/zipapp.tar"));
    let none = Json::Object(vec![("assets".to_string(), Json::Array(vec![asset("zipapp.zip", "z")]))]);
    assert_eq!(zipapp_download_url(&none), None);
    assert_eq!(zipapp_download_url(&Json::Null), None);
}

#[test]
fn zipapp_from_release_bytes() {
    let bytes = br#"{"assets":[{"name":"umu-launcher-1.3.0.tar.gz","browser_download_url":"a"},
        {"name":"umu-launcher-1.3.0-zipapp.tar","browser_download_url":"https://gh/zipapp.tar"}]}"#;
    assert_eq!(zipapp_url_from_release(bytes).as_deref(), Some("https://gh/zipapp.tar"));
    assert_eq!(zipapp_url_from_release(br#"{"assets":[]}"#), None);
    assert_eq!(zipapp_url_from_release(b"<html>"), None);
}

fn form_decode(s: &str) -> String {
    let b = s.as_bytes();
    let mut out = Vec::new();
    let mut i = 0;
    while i < b.len() {
        if b[i] == b'+' {
            out.push(b' ');
            i += 1;
        } else if b[i] == b'%' && i + 2 < b.len() {
            let v = u8::from_str_radix(&s[i + 1..i + 3], 16).unwrap();
            out.push(v);
            i += 3;
        } else {
            out.push(b[i]);
            i += 1;
        }
    }
    String::from_utf8(out).unwrap()
}

#[test]
fn url_round_trip_ascii() {
    for t in ["Half-Life 2: Episode One", "a+b=c&d?e/f", "100% (really)", "tab\there", ""] {
        let e = urlencoding(t);
        assert!(e.chars().all(|c| c.is_ascii_alphanumeric() || "-_.~+%".contains(c)));
        assert_eq!(form_decode(&e), t);
    }
    assert_eq!(urlencoding("Half-Life 2: Episode One"), "Half-Life+2%3A+Episode+One");
}
