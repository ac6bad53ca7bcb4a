use steam_game_manager::catalog::Catalog;
use steam_game_manager::config::ServiceConfig;
use steam_game_manager::dispatcher::{Action, Dispatcher, RefreshError};
use steam_game_manager::launcher::launch_uri;

fn sample() -> Catalog {
    Catalog::from_records(vec![
        (10, "Portal 2".to_string()),
        (20, "Portal".to_string()),
        (30, "Half-Life".to_string()),
    ])
}

fn launched(action: Action) -> Option<(u32, String, String)> {
    match action {
        Action::Launch { appid, name, uri } => Some((appid, name, uri)),
        _ => None,
    }
}

#[test]
fn bare_launch_asks_for_a_name() {
    let mut d = Dispatcher::new(sample());
    assert!(matches!(d.handle_line("launch"), Action::Usage));
    assert!(!d.is_terminated());
    assert_eq!(d.catalog().len(), 3);
}

#[test]
fn show_games_lists_names_in_order() {
    let mut d = Dispatcher::new(sample());
    match d.handle_line("  ShOw GaMeS  ") {
        Action::ShowNames(names) => {
            assert_eq!(names, vec!["Portal 2".to_string(), "Portal".to_string(), "Half-Life".to_string()]);
        }
        _ => panic!("expected the list of games"),
    }
}

#[test]
fn failed_refresh_keeps_catalog() {
    let mut d = Dispatcher::new(sample());
    assert!(matches!(d.handle_line("refresh"), Action::Refresh));
    assert_eq!(d.finish_refresh(Err(RefreshError::Network)), Err(RefreshError::Network));
    assert_eq!(d.catalog().len(), 3);
    assert_eq!(
        launched(d.handle_line("launch portal")),
        Some((20, "Portal".to_string(), "steam://run/20".to_string()))
    );
}

#[test]
fn refresh_errors_are_returned_as_given() {
    let mut d = Dispatcher::new(sample());
    assert_eq!(d.finish_refresh(Err(RefreshError::Parse)), Err(RefreshError::Parse));
    assert_eq!(d.finish_refresh(Err(RefreshError::Io)), Err(RefreshError::Io));
    assert_eq!(d.catalog().to_records(), sample().to_records());
}

#[test]
fn successful_refresh_replaces_catalog() {
    let mut d = Dispatcher::new(sample());
    let fresh = Catalog::from_records(vec![(99, "Celeste".to_string())]);
    assert_eq!(d.finish_refresh(Ok(fresh)), Ok(1));
    assert_eq!(d.catalog().names(), vec!["Celeste".to_string()]);
    assert_eq!(
        launched(d.handle_line("launch portal")),
        Some((99, "Celeste".to_string(), "steam://run/99".to_string()))
    );
}

#[test]
fn launch_resolves_and_builds_uri() {
    let mut d = Dispatcher::new(sample());
    assert_eq!(
        launched(d.handle_line("launch Half-Life")),
        Some((30, "Half-Life".to_string(), "steam://run/30".to_string()))
    );
}

#[test]
fn launch_on_empty_catalog_finds_nothing() {
    let mut d = Dispatcher::new(Catalog::empty());
    assert!(matches!(d.handle_line("launch portal"), Action::NotFound));
}

#[test]
fn exit_ends_session() {
    let mut d = Dispatcher::new(sample());
    assert!(matches!(d.handle_line("help"), Action::ShowHelp));
    assert!(matches!(d.handle_line("dance"), Action::Ignore));
    assert!(!d.is_terminated());
    assert!(matches!(d.handle_line(" Exit "), Action::Exit));
    assert!(d.is_terminated());
    assert!(matches!(d.handle_line("help"), Action::Exit));
    assert!(d.is_terminated());
}

#[test]
fn launch_uri_is_decimal() {
    assert_eq!(launch_uri(0), "steam://run/0");
    assert_eq!(launch_uri(620), "steam://run/620");
    assert_eq!(launch_uri(u32::MAX), "steam://run/4294967295");
}

#[test]
fn owned_games_url_carries_key_and_account() {
    let config = ServiceConfig { api_key: "KEY".to_string(), steam_id: "765".to_string() };
    assert_eq!(
        config.owned_games_url(),
        "https://api.steampowered.com/IPlayerService/GetOwnedGames/v0001/?key=KEY&steamid=765&include_appinfo=true&format=json"
    );
}
