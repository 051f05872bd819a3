use beer_tally::date::Date;
use beer_tally::dispatch::{answer, register_reply, unregister_reply, Action};
use beer_tally::outcome::RegisterPlayerResult;
use beer_tally::storage::{BeerTally, HashMapBeerTally};

fn ask(registry: &mut HashMapBeerTally, chat_id: i64, user_id: i64, action: Action) -> String {
    answer(registry, chat_id, user_id, &action, Date::new(2024, 1, 1))
}

#[test]
fn register_reply_has_a_text_for_every_result() {
    assert_eq!(
        register_reply(&RegisterPlayerResult::InvalidUsername, "bob!"),
        "Invalid username. Only alphanumeric characters are allowed."
    );
    assert_eq!(
        register_reply(&RegisterPlayerResult::Registered, "bob"),
        "Successfully registered as 'bob'."
    );
    assert_eq!(
        register_reply(&RegisterPlayerResult::AlreadyRegistered("robert".to_string()), "bob"),
        "You are already registered as 'robert'. Use command /change_name to change your username."
    );
    assert_eq!(
        register_reply(&RegisterPlayerResult::UsernameTaken, "bob"),
        "Username 'bob' is already taken."
    );
}

#[test]
fn unregister_reply_has_a_text_for_both_results() {
    assert_eq!(unregister_reply(&Ok(())), "Successfully unregistered.");
    assert_eq!(unregister_reply(&Err(())), "You were not registered.");
}

#[test]
fn answer_registers_and_reports() {
    let mut registry = HashMapBeerTally::new();
    assert_eq!(
        ask(&mut registry, 100, 1, Action::Register("alice".to_string())),
        "Successfully registered as 'alice'."
    );
    assert_eq!(
        ask(&mut registry, 100, 1, Action::Register("carol".to_string())),
        "You are already registered as 'alice'. Use command /change_name to change your username."
    );
    assert_eq!(
        ask(&mut registry, 100, 2, Action::Register("alice".to_string())),
        "Username 'alice' is already taken."
    );
    assert_eq!(
        ask(&mut registry, 100, 2, Action::Register("al ice".to_string())),
        "Invalid username. Only alphanumeric characters are allowed."
    );
    assert_eq!(registry.player_list(100), "Players:\nalice");
}

#[test]
fn answer_unregisters_and_reports() {
    let mut registry = HashMapBeerTally::new();
    assert_eq!(ask(&mut registry, 100, 1, Action::Unregister), "You were not registered.");
    ask(&mut registry, 100, 1, Action::Register("alice".to_string()));
    assert_eq!(ask(&mut registry, 100, 1, Action::Unregister), "Successfully unregistered.");
    assert_eq!(ask(&mut registry, 100, 1, Action::Unregister), "You were not registered.");
}

#[test]
fn answer_lists_and_draws() {
    let mut registry = HashMapBeerTally::new();
    assert_eq!(ask(&mut registry, 100, 1, Action::PlayerList), "No users have been registered yet");
    assert_eq!(ask(&mut registry, 100, 1, Action::GetRandom), "No users have been registered yet");
    ask(&mut registry, 100, 1, Action::Register("alice".to_string()));
    assert_eq!(ask(&mut registry, 100, 2, Action::PlayerList), "Players:\nalice");
    assert_eq!(ask(&mut registry, 100, 2, Action::GetRandom), "alice");
    ask(&mut registry, 100, 1, Action::Unregister);
    assert_eq!(
        ask(&mut registry, 100, 1, Action::PlayerList),
        "No users have been initialized in this chat, try to register some users first"
    );
    assert_eq!(
        ask(&mut registry, 100, 1, Action::GetRandom),
        "No users have been initialized in this chat, try to register some users first"
    );
}

#[test]
fn answer_records_with_the_date_given() {
    let mut registry = HashMapBeerTally::new();
    ask(&mut registry, 100, 2, Action::Register("bob".to_string()));
    let monday = Date::new(2024, 1, 1);
    let tuesday = Date::new(2024, 1, 2);
    assert_eq!(
        answer(&mut registry, 100, 2, &Action::AddRecord(12.5f32.to_bits()), monday),
        "saved new record for today"
    );
    assert_eq!(
        answer(&mut registry, 100, 2, &Action::AddRecord(9.0f32.to_bits()), monday),
        "modified existing record for today"
    );
    assert_eq!(
        answer(&mut registry, 100, 2, &Action::AddRecord(3.0f32.to_bits()), tuesday),
        "saved new record for today"
    );
    assert_eq!(
        answer(&mut registry, 100, 1, &Action::AddRecord(3.0f32.to_bits()), tuesday),
        "The user was not found"
    );
    let player = registry.get_player(100, 2).unwrap();
    assert_eq!(player.records, vec![9.0f32.to_bits(), 3.0f32.to_bits()]);
    assert_eq!(player.last_modified_date, Some(tuesday));
}

#[test]
fn answer_renames() {
    let mut registry = HashMapBeerTally::new();
    ask(&mut registry, 100, 1, Action::Register("alice".to_string()));
    assert_eq!(
        ask(&mut registry, 100, 1, Action::ChangeName("alicia".to_string())),
        "Username has been changed to alicia"
    );
    assert_eq!(
        ask(&mut registry, 100, 1, Action::ChangeName("a-b".to_string())),
        "Invalid username. Only alphanumeric characters are allowed."
    );
    assert_eq!(
        ask(&mut registry, 100, 2, Action::ChangeName("bob".to_string())),
        "The user was not found"
    );
    assert_eq!(registry.player_list(100), "Players:\nalicia");
}
