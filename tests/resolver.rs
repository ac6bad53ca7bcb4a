use steam_game_manager::catalog::{Catalog, Game};
use steam_game_manager::resolver::find_closest_match;

fn game(appid: u32, name: &str) -> Game {
    Game { appid, name: name.to_string() }
}

fn sample() -> Vec<Game> {
    vec![game(10, "Portal 2"), game(20, "Portal"), game(30, "Half-Life")]
}

#[test]
fn lowercase_query_picks_nearest_case_sensitive_name() {
    assert_eq!(strsim::levenshtein("portal", "Portal 2"), 3);
    assert_eq!(strsim::levenshtein("portal", "Portal"), 1);
    assert_eq!(strsim::levenshtein("portal", "Half-Life"), 9);
    let games = sample();
    assert_eq!(find_closest_match("portal", &games), Some((20, "Portal".to_string())));
}

#[test]
fn exact_name_is_chosen() {
    let games = sample();
    assert_eq!(find_closest_match("Half-Life", &games), Some((30, "Half-Life".to_string())));
    assert_eq!(find_closest_match("Portal 2", &games), Some((10, "Portal 2".to_string())));
}

#[test]
fn equal_names_resolve_to_the_first() {
    let games = vec![game(1, "Doom"), game(2, "Quake"), game(3, "Quake")];
    assert_eq!(find_closest_match("Quake", &games), Some((2, "Quake".to_string())));
}

#[test]
fn equal_distances_resolve_to_the_first() {
    let games = vec![game(7, "ab"), game(8, "ba")];
    assert_eq!(strsim::levenshtein("aa", "ab"), 1);
    assert_eq!(strsim::levenshtein("aa", "ba"), 1);
    assert_eq!(find_closest_match("aa", &games), Some((7, "ab".to_string())));
}

#[test]
fn dissimilar_query_still_matches() {
    let games = sample();
    assert_eq!(strsim::levenshtein("zzz", "Portal 2"), 8);
    assert_eq!(strsim::levenshtein("zzz", "Portal"), 6);
    assert_eq!(find_closest_match("zzz", &games), Some((20, "Portal".to_string())));
}

#[test]
fn empty_catalog_has_no_match() {
    let games: Vec<Game> = Vec::new();
    assert_eq!(find_closest_match("portal", &games), None);
    assert_eq!(find_closest_match("", &games), None);
    let empty = Catalog::empty();
    assert_eq!(find_closest_match("x", empty.games()), None);
}

#[test]
fn single_entry_always_matches() {
    let games = vec![game(5, "Celeste")];
    assert_eq!(find_closest_match("", &games), Some((5, "Celeste".to_string())));
}

#[test]
fn distance_counts_characters_not_bytes() {
    let games = vec![game(1, "Ökö"), game(2, "abcd")];
    assert_eq!(find_closest_match("oko", &games), Some((1, "Ökö".to_string())));
}

#[test]
fn later_entry_wins_when_strictly_nearer() {
    let games = vec![game(1, "Terraria"), game(2, "Stardew Valley"), game(3, "Stardew")];
    assert_eq!(find_closest_match("Stardew", &games), Some((3, "Stardew".to_string())));
}
