use beer_tally::outcome::RegisterPlayerResult;
use beer_tally::storage::{BeerTally, HashMapBeerTally};
use beer_tally::tally::UserTally;

const INVALID: &str = "Invalid username. Only alphanumeric characters are allowed.";

#[test]
fn a_tally_takes_any_new_name() {
    let mut tally = UserTally::new("alice");
    assert_eq!(tally.change_name("alicia"), "Username has been changed to alicia");
    assert_eq!(tally.name, "alicia");
    assert_eq!(tally.change_name("not checked here!"), "Username has been changed to not checked here!");
    assert_eq!(tally.name, "not checked here!");
    assert_eq!(tally.change_name(""), "Username has been changed to ");
    assert_eq!(tally.name, "");
}

#[test]
fn change_name_renames_the_player() {
    let mut registry = HashMapBeerTally::new();
    assert_eq!(registry.register_player(100, 1, "alice"), RegisterPlayerResult::Registered);
    assert_eq!(registry.change_name(100, 1, "carol"), "Username has been changed to carol");
    assert_eq!(registry.player_list(100), "Players:\ncarol");
    assert_eq!(
        registry.register_player(100, 1, "alice"),
        RegisterPlayerResult::AlreadyRegistered("carol".to_string())
    );
    assert_eq!(registry.register_player(100, 2, "alice"), RegisterPlayerResult::Registered);
    assert_eq!(registry.register_player(100, 3, "carol"), RegisterPlayerResult::UsernameTaken);
}

#[test]
fn change_name_rejects_an_invalid_name() {
    let mut registry = HashMapBeerTally::new();
    assert_eq!(registry.register_player(100, 1, "alice"), RegisterPlayerResult::Registered);
    assert_eq!(registry.change_name(100, 1, ""), INVALID);
    assert_eq!(registry.change_name(100, 1, "car ol"), INVALID);
    assert_eq!(registry.change_name(100, 1, "carol?"), INVALID);
    assert_eq!(registry.change_name(300, 9, "carol?"), INVALID);
    assert_eq!(registry.player_list(100), "Players:\nalice");
}

#[test]
fn change_name_says_why_the_player_was_not_found() {
    let mut registry = HashMapBeerTally::new();
    assert_eq!(registry.change_name(100, 1, "carol"), "No users have been registered yet");
    assert_eq!(registry.register_player(100, 1, "alice"), RegisterPlayerResult::Registered);
    assert_eq!(registry.change_name(100, 2, "carol"), "The user was not found");
    assert_eq!(registry.unregister_player(100, 1), Ok(()));
    assert_eq!(
        registry.change_name(100, 1, "carol"),
        "No users have been initialized in this chat, try to register some users first"
    );
}

#[test]
fn change_name_does_not_look_for_a_clash() {
    let mut registry = HashMapBeerTally::new();
    assert_eq!(registry.register_player(100, 1, "alice"), RegisterPlayerResult::Registered);
    assert_eq!(registry.register_player(100, 2, "bob"), RegisterPlayerResult::Registered);
    assert_eq!(registry.change_name(100, 2, "alice"), "Username has been changed to alice");
    assert_eq!(registry.player_list(100), "Players:\nalice\nalice");
    assert_eq!(registry.get_player(100, 1).unwrap().name, "alice");
    assert_eq!(registry.get_player(100, 2).unwrap().name, "alice");
}

#[test]
fn change_name_to_the_same_name_succeeds() {
    let mut registry = HashMapBeerTally::new();
    assert_eq!(registry.register_player(100, 1, "alice"), RegisterPlayerResult::Registered);
    assert_eq!(registry.change_name(100, 1, "alice"), "Username has been changed to alice");
    assert_eq!(registry.player_list(100), "Players:\nalice");
}
