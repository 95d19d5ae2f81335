use novadream::game::{Game, Store};
use novadream::json::Json;
use novadream::stores::epic::EpicStore;
use novadream::stores::gog::GogStore;
use novadream::stores::itch::ItchStore;
use novadream::stores::steam::{parse_vdf_value, SteamStore};
use novadream::stores::{auth_code, StoreBackend, StoreError};

fn game_id(id: &str) -> Game {
    let mut g = Game::default();
    g.id = id.to_string();
    g
}

#[test]
fn auth_code_from_redirect() {
    assert_eq!(auth_code("https://x/redirect?code=abc123&state=1").unwrap(), "abc123");
    assert_eq!(auth_code("code=xyz").unwrap(), "xyz");
    assert_eq!(auth_code("a?code=one&code=two").unwrap(), "one");
}

#[test]
fn auth_code_bare_code() {
    assert_eq!(auth_code("ABC123").unwrap(), "ABC123");
    assert_eq!(auth_code("  ABC123 \n").unwrap(), "ABC123");
    assert_eq!(auth_code("https://x/redirect?state=1").unwrap(), "https://x/redirect?state=1");
    assert_eq!(auth_code("").unwrap_err(), StoreError::NoAuthCode);
    assert_eq!(auth_code("   \n").unwrap_err(), StoreError::NoAuthCode);
}

#[test]
fn store_error_messages() {
    assert_eq!(StoreError::NoAuthCode.message(), "No auth code in URL");
    assert_eq!(StoreError::EmptyApiKey.message(), "Empty API key");
    assert_eq!(StoreError::NotAuthenticated.message(), "Not authenticated");
}

#[test]
fn epic_commands() {
    let e = EpicStore::new(false);
    assert!(!e.is_authenticated());
    let c = EpicStore::login_command("https://r?code=CODE").unwrap();
    assert_eq!(c.program, "legendary");
    assert_eq!(c.args, vec!["auth", "--code", "CODE"]);
    assert_eq!(EpicStore::login_command("ABC123").unwrap().args, vec!["auth", "--code", "ABC123"]);
    assert_eq!(EpicStore::login_command("  ").unwrap_err(), StoreError::NoAuthCode);
    let l = e.launch_command(&game_id("Fortnite")).unwrap();
    assert_eq!(l.args, vec!["launch", "Fortnite"]);
    let i = e.install_command(&game_id("Fortnite")).unwrap();
    assert_eq!(i.args, vec!["install", "Fortnite", "--yes"]);
    assert_eq!(EpicStore::library_command().args, vec!["list", "--json"]);
    assert!(e.auth_url().unwrap().starts_with("https://www.epicgames.com/id/login"));
}

#[test]
fn epic_login_result() {
    let mut e = EpicStore::new(false);
    assert_eq!(e.finish_login(false), Err(StoreError::AuthFailed));
    assert!(e.finish_login(true).is_ok());
    assert!(e.is_authenticated());
}

#[test]
fn epic_library_json() {
    let doc = br#"[{"app_name":"Sugar","title":"Sugar Rush","is_installed":true,"install_path":"/g/sugar",
        "metadata":{"keyImages":[{"type":"Thumb","url":"t"},{"type":"DieselGameBoxTall","url":"tall.jpg"}]}},
        {"app_name":"X"}]"#;
    let games = EpicStore::games_from_output(doc).unwrap();
    assert_eq!(games.len(), 2);
    assert_eq!(games[0].id, "Sugar");
    assert_eq!(games[0].title, "Sugar Rush");
    assert_eq!(games[0].store, Store::Epic);
    assert!(games[0].installed);
    assert_eq!(games[0].install_path.as_deref(), Some("/g/sugar"));
    assert_eq!(games[0].cover_url.as_deref(), Some("tall.jpg"));
    assert_eq!(games[1].title, "Unknown");
    assert!(!games[1].installed);
    assert_eq!(EpicStore::games_from_output(b"not json").unwrap_err(), StoreError::InvalidJson);
}

#[test]
fn gog_library_json() {
    let doc = br#"[{"id":"1207658924","title":"Witcher","image":"//images.gog.com/w.jpg","installed":true,"path":"/g/w"}]"#;
    let games = GogStore::games_from_output(doc).unwrap();
    assert_eq!(games.len(), 1);
    assert_eq!(games[0].id, "1207658924");
    assert_eq!(games[0].cover_url.as_deref(), Some("https://images.gog.com/w.jpg"));
    assert_eq!(games[0].store, Store::Gog);
    let g = GogStore::new(true);
    assert!(g.is_authenticated());
    assert_eq!(g.launch_command(&game_id("1")).unwrap().program, "gogdl");
}

#[test]
fn itch_key_and_library() {
    let none = ItchStore::new(None);
    assert!(!none.is_authenticated());
    assert_eq!(none.library_command().unwrap_err(), StoreError::NotAuthenticated);
    let blank = ItchStore::new(Some("  \n".to_string()));
    assert!(!blank.is_authenticated());
    let s = ItchStore::new(Some("  KEY123 \n".to_string()));
    assert!(s.is_authenticated());
    assert_eq!(s.library_command().unwrap().args, vec!["status", "--json", "KEY123"]);
    assert_eq!(ItchStore::api_key_from("   ").unwrap_err(), StoreError::EmptyApiKey);
    assert_eq!(ItchStore::api_key_from(" k ").unwrap(), "k");
    let doc = br#"{"owned_keys":[{"game":{"id":42,"title":"Celeste","cover_url":"c.png"}},{"game":{}}]}"#;
    let games = ItchStore::games_from_output(doc).unwrap();
    assert_eq!(games[0].id, "42");
    assert_eq!(games[0].title, "Celeste");
    assert_eq!(games[1].id, "null");
    assert_eq!(games[1].title, "Unknown");
}

#[test]
fn itch_key_read_back() {
    let key = ItchStore::api_key_from("  abc  ").unwrap();
    let again = ItchStore::new(Some(key.clone()));
    assert!(again.is_authenticated());
    assert_eq!(again.library_command().unwrap().args[2], key);
    let mut s = ItchStore::new(None);
    s.store_key("zz".to_string());
    assert!(s.is_authenticated());
}

#[test]
fn itch_install_and_launch() {
    let s = ItchStore::new(Some("K".to_string()));
    let c = s.install_command_in(&game_id("42"), &Some("/d".to_string())).unwrap();
    assert_eq!(c.args, vec!["install", "42", "/d/NovaDream/itch/42", "K"]);
    let mut g = game_id("42");
    assert!(s.launch_command(&g).is_none());
    g.install_path = Some("/d/NovaDream/itch/42".to_string());
    assert_eq!(s.launch_command(&g).unwrap().args, vec!["run", "/d/NovaDream/itch/42"]);
    assert_eq!(ItchStore::key_path_in(&Some("/c".to_string())), "/c/NovaDream/itch_key");
}

#[test]
fn vdf_values() {
    assert_eq!(parse_vdf_value("\t\"appid\"\t\t\"440\""), "440");
    assert_eq!(parse_vdf_value("\"name\"  \"Team Fortress 2\""), "Team Fortress 2");
    assert_eq!(parse_vdf_value("\"key\""), "");
    assert_eq!(parse_vdf_value(""), "");
}

#[test]
fn steam_manifest_to_game() {
    let acf = "\"AppState\"\n{\n\t\"appid\"\t\t\"440\"\n\t\"name\"\t\t\"Team Fortress 2\"\n\t\"StateFlags\"\t\t\"4\"\n}\n";
    let g = SteamStore::game_from_manifest("/s/steamapps", acf).unwrap();
    assert_eq!(g.id, "440");
    assert_eq!(g.title, "Team Fortress 2");
    assert_eq!(g.store, Store::Steam);
    assert!(g.installed);
    assert_eq!(g.cover_url.as_deref(), Some("https://cdn.cloudflare.steamstatic.com/steam/apps/440/library_600x900.jpg"));
    assert!(SteamStore::game_from_manifest("/s", "\"appid\" \"1\"\n").is_none());
    assert!(SteamStore::is_manifest("/s/steamapps/appmanifest_440.acf"));
    assert!(!SteamStore::is_manifest("/s/steamapps/libraryfolders.vdf"));
}

#[test]
fn steam_library_folders() {
    let vdf = "\"libraryfolders\"\n{\n\t\"0\"\n\t{\n\t\t\"path\"\t\t\"/home/u/.local/share/Steam\"\n\t}\n\t\"1\"\n\t{\n\t\t\"path\"\t\t\"/mnt/games/Steam\"\n\t}\n}\n";
    let paths = SteamStore::library_paths_in("/home/u/.steam/steam", Some(vdf));
    assert_eq!(paths, vec![
        "/home/u/.steam/steam/steamapps".to_string(),
        "/home/u/.local/share/Steam/steamapps".to_string(),
        "/mnt/games/Steam/steamapps".to_string(),
    ]);
    assert_eq!(SteamStore::library_paths_in("/r", None), vec!["/r/steamapps".to_string()]);
    assert_eq!(SteamStore::steam_root_in(&Some("/home/u".to_string())), "/home/u/.steam/steam");
}

#[test]
fn steam_commands() {
    let s = SteamStore::new();
    assert!(s.auth_url().is_none());
    assert_eq!(s.launch_command(&game_id("440")).unwrap().args, vec!["steam://rungameid/440"]);
    assert_eq!(s.install_command(&game_id("440")).unwrap().args, vec!["steam://install/440"]);
}

#[test]
fn epic_games_from_document() {
    let item = Json::Object(vec![
        ("app_name".to_string(), Json::Str("Sugar".to_string())),
        ("title".to_string(), Json::Number("7".to_string())),
        ("is_installed".to_string(), Json::Bool(true)),
    ]);
    let games = EpicStore::games_from_json(&Json::Array(vec![item, Json::Null]));
    assert_eq!(games.len(), 2);
    assert_eq!(games[0].id, "Sugar");
    assert_eq!(games[0].title, "Unknown");
    assert!(games[0].installed);
    assert_eq!(games[1].id, "");
    assert!(EpicStore::games_from_json(&Json::Object(vec![])).is_empty());
}

#[test]
fn json_numbers_keep_their_text() {
    let doc = br#"{"owned_keys":[{"game":{"id":1.5e3,"title":"T"}},{"game":{"id":"abc","title":"U"}}]}"#;
    let games = ItchStore::games_from_output(doc).unwrap();
    assert_eq!(games[0].id, "1500.0");
    assert_eq!(games[1].id, "\"abc\"");
}
