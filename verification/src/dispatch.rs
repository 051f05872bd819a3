//! From a command to its reply: what a chat member asked for, carried out
//! on the registry and put into words.

use vstd::prelude::*;
use vstd::string::*;
use crate::date::Date;
use crate::model::{
    add_record_reply, add_record_state, change_name_reply, change_name_state, is_player_list,
    is_random_draw, is_registered, register_result, register_state, unregister_state,
    RegistryView,
};
use crate::outcome::{RegisterPlayerResult, RegisterPlayerResultView};
use crate::storage::BeerTally;
use crate::username::invalid_username_text;

verus! {

/// What a chat member can ask of the registry. The member and the chat are
/// known from the message that carried the command.
#[derive(Debug)]
pub enum Action {
    /// Register under this name.
    Register(String),
    Unregister,
    PlayerList,
    GetRandom,
    /// Record this value for today.
    AddRecord(u32),
    /// Go by this name from now on.
    ChangeName(String),
}

/// The reply to a registration that was asked for under `username`.
pub open spec fn register_reply_text(result: RegisterPlayerResultView, username: Seq<char>) -> Seq<
    char,
> {
    match result {
        RegisterPlayerResultView::InvalidUsername => invalid_username_text(),
        RegisterPlayerResultView::Registered => "Successfully registered as '"@ + username + "'."@,
        RegisterPlayerResultView::AlreadyRegistered(existing_name) => {
            "You are already registered as '"@ + existing_name
                + "'. Use command /change_name to change your username."@
        },
        RegisterPlayerResultView::UsernameTaken => {
            "Username '"@ + username + "' is already taken."@
        },
    }
}

/// The reply to an unregistration, by whether there was an entry to remove.
pub open spec fn unregister_reply_text(was_registered: bool) -> Seq<char> {
    if was_registered {
        "Successfully unregistered."@
    } else {
        "You were not registered."@
    }
}

/// Puts the result of a registration into words.
pub fn register_reply(result: &RegisterPlayerResult, username: &str) -> (reply: String)
    ensures
        reply@ == register_reply_text(result@, username@),
{
    match result {
        RegisterPlayerResult::InvalidUsername => String::from_str(
            "Invalid username. Only alphanumeric characters are allowed.",
        ),
        RegisterPlayerResult::Registered => String::from_str("Successfully registered as '").concat(
            username,
        ).concat("'."),
        RegisterPlayerResult::AlreadyRegistered(existing_name) => String::from_str(
            "You are already registered as '",
        ).concat(existing_name.as_str()).concat(
            "'. Use command /change_name to change your username.",
        ),
        RegisterPlayerResult::UsernameTaken => String::from_str("Username '").concat(
            username,
        ).concat("' is already taken."),
    }
}

/// Puts the result of an unregistration into words.
pub fn unregister_reply(result: &Result<(), ()>) -> (reply: String)
    ensures
        reply@ == unregister_reply_text(result is Ok),
{
    match result {
        Ok(_) => String::from_str("Successfully unregistered."),
        Err(_) => String::from_str("You were not registered."),
    }
}

/// The registry after `action` has been carried out for `user_id` in
/// `chat_id`.
pub open spec fn answer_state(
    registry: RegistryView,
    chat_id: i64,
    user_id: i64,
    action: Action,
    today: Date,
) -> RegistryView {
    match action {
        Action::Register(username) => register_state(registry, chat_id, user_id, username@),
        Action::Unregister => unregister_state(registry, chat_id, user_id),
        Action::PlayerList => registry,
        Action::GetRandom => registry,
        Action::AddRecord(value) => add_record_state(registry, chat_id, user_id, value, today),
        Action::ChangeName(username) => change_name_state(registry, chat_id, user_id, username@),
    }
}

/// Whether `reply` answers `action`, asked by `user_id` in `chat_id` of a
/// store that held `registry`. For a list and for a draw more than one
/// reply does; for every other action exactly one.
pub open spec fn is_answer(
    registry: RegistryView,
    chat_id: i64,
    user_id: i64,
    action: Action,
    today: Date,
    reply: Seq<char>,
) -> bool {
    match action {
        Action::Register(username) => reply == register_reply_text(
            register_result(registry, chat_id, user_id, username@),
            username@,
        ),
        Action::Unregister => reply == unregister_reply_text(
            is_registered(registry, chat_id, user_id),
        ),
        Action::PlayerList => is_player_list(registry, chat_id, reply),
        Action::GetRandom => is_random_draw(registry, chat_id, reply),
        Action::AddRecord(_) => reply == add_record_reply(registry, chat_id, user_id, today),
        Action::ChangeName(username) => reply == change_name_reply(
            registry,
            chat_id,
            user_id,
            username@,
        ),
    }
}

/// Carries out `action` for `user_id` in `chat_id` and returns the text to
/// send back. `today` is the caller's one reading of the calendar for
/// this command.
pub fn answer<T: BeerTally>(
    storage: &mut T,
    chat_id: i64,
    user_id: i64,
    action: &Action,
    today: Date,
) -> (reply: String)
    ensures
        is_answer(old(storage).registry(), chat_id, user_id, *action, today, reply@),
        final(storage).registry() == answer_state(
            old(storage).registry(),
            chat_id,
            user_id,
            *action,
            today,
        ),
{
    match action {
        Action::Register(username) => {
            let result = storage.register_player(chat_id, user_id, username.as_str());
            register_reply(&result, username.as_str())
        },
        Action::Unregister => {
            let result = storage.unregister_player(chat_id, user_id);
            unregister_reply(&result)
        },
        Action::PlayerList => storage.player_list(chat_id),
        Action::GetRandom => storage.get_random(chat_id),
        Action::AddRecord(value) => storage.add_record(chat_id, user_id, *value, today),
        Action::ChangeName(username) => storage.change_name(chat_id, user_id, username.as_str()),
    }
}

} // verus!
