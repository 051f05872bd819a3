use beer_tally::outcome::RegisterPlayerResult;
use beer_tally::storage::{format_player_list, player_name_at, BeerTally, HashMapBeerTally};
use beer_tally::tally::UserTally;

#[test]
fn player_list_names_both_players_then_the_one_who_stays() {
    let mut registry = HashMapBeerTally::new();
    assert_eq!(registry.register_player(100, 1, "alice"), RegisterPlayerResult::Registered);
    assert_eq!(registry.register_player(100, 2, "bob"), RegisterPlayerResult::Registered);
    let list = registry.player_list(100);
    assert!(list == "Players:\nalice\nbob" || list == "Players:\nbob\nalice", "{}", list);
    assert_eq!(registry.unregister_player(100, 1), Ok(()));
    assert_eq!(registry.player_list(100), "Players:\nbob");
}

#[test]
fn player_list_has_a_line_for_every_player() {
    let mut registry = HashMapBeerTally::new();
    let names = ["ann", "ben", "cat", "dan", "eve", "fay", "gus"];
    for (user_id, name) in names.iter().enumerate() {
        assert_eq!(registry.register_player(7, user_id as i64, name), RegisterPlayerResult::Registered);
    }
    let list = registry.player_list(7);
    let mut lines: Vec<&str> = list.split('\n').collect();
    assert_eq!(lines.remove(0), "Players:");
    lines.sort();
    assert_eq!(lines, names);
}

#[test]
fn get_players_vect_holds_every_player_once() {
    let mut registry = HashMapBeerTally::new();
    assert_eq!(registry.register_player(100, 1, "alice"), RegisterPlayerResult::Registered);
    assert_eq!(registry.register_player(100, 2, "bob"), RegisterPlayerResult::Registered);
    assert_eq!(registry.register_player(100, 3, "carol"), RegisterPlayerResult::Registered);
    assert_eq!(registry.register_player(200, 4, "dave"), RegisterPlayerResult::Registered);
    let mut names: Vec<String> = registry.get_players_vect(100).unwrap().into_iter().map(|p| p.name).collect();
    names.sort();
    assert_eq!(names, ["alice", "bob", "carol"]);
}

#[test]
fn format_player_list_keeps_the_order_given() {
    let players = vec![UserTally::new("bob"), UserTally::new("alice"), UserTally::new("bob")];
    assert_eq!(format_player_list(&players), "Players:\nbob\nalice\nbob");
    assert_eq!(format_player_list(&players[..1].to_vec()), "Players:\nbob");
    assert_eq!(format_player_list(&Vec::new()), "Players:");
}

#[test]
fn player_name_at_picks_by_index() {
    let players = vec![UserTally::new("alice"), UserTally::new("bob"), UserTally::new("carol")];
    assert_eq!(player_name_at(&players, 0), "alice");
    assert_eq!(player_name_at(&players, 1), "bob");
    assert_eq!(player_name_at(&players, 2), "carol");
}

#[test]
fn get_random_returns_the_only_player() {
    let mut registry = HashMapBeerTally::new();
    assert_eq!(registry.register_player(100, 1, "alice"), RegisterPlayerResult::Registered);
    for _ in 0..50 {
        assert_eq!(registry.get_random(100), "alice");
    }
}

#[test]
fn get_random_returns_registered_names_and_reaches_each() {
    let mut registry = HashMapBeerTally::new();
    let names = ["alice", "bob", "carol"];
    for (user_id, name) in names.iter().enumerate() {
        assert_eq!(registry.register_player(100, user_id as i64, name), RegisterPlayerResult::Registered);
    }
    let mut drawn = [0usize; 3];
    for _ in 0..600 {
        let name = registry.get_random(100);
        let position = names.iter().position(|n| *n == name).expect("a registered name");
        drawn[position] += 1;
    }
    assert!(drawn.iter().all(|count| *count > 0), "{:?}", drawn);
}

#[test]
fn get_random_draws_from_the_chat_asked_for() {
    let mut registry = HashMapBeerTally::new();
    assert_eq!(registry.register_player(100, 1, "alice"), RegisterPlayerResult::Registered);
    assert_eq!(registry.register_player(200, 2, "bob"), RegisterPlayerResult::Registered);
    for _ in 0..20 {
        assert_eq!(registry.get_random(200), "bob");
    }
    assert_eq!(registry.get_random(300), "No users have been registered yet");
}
