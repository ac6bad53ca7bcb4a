use steam_game_manager::catalog::Catalog;

fn records() -> Vec<(u32, String)> {
    vec![(10, "Portal 2".to_string()), (20, "Portal".to_string()), (30, "Half-Life".to_string())]
}

#[test]
fn records_round_trip_in_order() {
    let catalog = Catalog::from_records(records());
    assert_eq!(catalog.to_records(), records());
    let again = Catalog::from_records(catalog.to_records());
    assert_eq!(again.to_records(), records());
}

#[test]
fn duplicates_are_kept() {
    let input = vec![(5, "A".to_string()), (5, "A".to_string()), (1, "B".to_string())];
    let catalog = Catalog::from_records(input.clone());
    assert_eq!(catalog.len(), 3);
    assert_eq!(catalog.to_records(), input);
}

#[test]
fn names_follow_catalog_order() {
    let catalog = Catalog::from_records(records());
    assert_eq!(catalog.names(), vec!["Portal 2".to_string(), "Portal".to_string(), "Half-Life".to_string()]);
    let games = catalog.games();
    assert_eq!(games.len(), 3);
    assert_eq!(games[1].appid, 20);
    assert_eq!(games[1].name, "Portal");
}

#[test]
fn empty_catalog_has_nothing() {
    let catalog = Catalog::empty();
    assert_eq!(catalog.len(), 0);
    assert!(catalog.names().is_empty());
    assert!(catalog.to_records().is_empty());
    assert!(Catalog::from_records(Vec::new()).to_records().is_empty());
}
