//! The registry as a mathematical map, and every operation on it as a
//! function of that map.

use vstd::prelude::*;
use crate::date::Date;
use crate::outcome::{lookup_error_text, LookupError, RegisterPlayerResultView};
use crate::tally::{modified_text, renamed_text, saved_text, UserTally, UserTallyView};
use crate::username::{invalid_username_text, valid_username};

verus! {

/// The players of one chat, by user id.
pub type ChatView = Map<i64, UserTallyView>;

/// All chats, by chat id.
pub type RegistryView = Map<i64, ChatView>;

/// Whether `user_id` has an entry in `chat_id`.
pub open spec fn is_registered(registry: RegistryView, chat_id: i64, user_id: i64) -> bool {
    registry.contains_key(chat_id) && registry[chat_id].contains_key(user_id)
}

/// Whether some player of the chat goes by `name`.
pub open spec fn name_in_use(chat: ChatView, name: Seq<char>) -> bool {
    exists|user_id: i64| #[trigger] chat.contains_key(user_id) && chat[user_id].name == name
}

/// Whether some player of `chat_id` goes by `name`; no one does in a chat
/// that does not exist.
pub open spec fn username_taken(registry: RegistryView, chat_id: i64, name: Seq<char>) -> bool {
    registry.contains_key(chat_id) && name_in_use(registry[chat_id], name)
}

/// The players of `chat_id`, none if the chat does not exist.
pub open spec fn chat_or_empty(registry: RegistryView, chat_id: i64) -> ChatView {
    if registry.contains_key(chat_id) {
        registry[chat_id]
    } else {
        Map::empty()
    }
}

/// The answer to a registration. The checks come in this order: the name's
/// form, an existing entry of the user, a clash with another player's name.
pub open spec fn register_result(
    registry: RegistryView,
    chat_id: i64,
    user_id: i64,
    name: Seq<char>,
) -> RegisterPlayerResultView {
    if !valid_username(name) {
        RegisterPlayerResultView::InvalidUsername
    } else if is_registered(registry, chat_id, user_id) {
        RegisterPlayerResultView::AlreadyRegistered(registry[chat_id][user_id].name)
    } else if username_taken(registry, chat_id, name) {
        RegisterPlayerResultView::UsernameTaken
    } else {
        RegisterPlayerResultView::Registered
    }
}

/// The registry after a registration: a new entry without records where
/// the answer is `Registered`, no change otherwise.
pub open spec fn register_state(
    registry: RegistryView,
    chat_id: i64,
    user_id: i64,
    name: Seq<char>,
) -> RegistryView {
    if register_result(registry, chat_id, user_id, name) is Registered {
        registry.insert(
            chat_id,
            chat_or_empty(registry, chat_id).insert(user_id, UserTallyView::new(name)),
        )
    } else {
        registry
    }
}

/// The players of `chat_id`, if it has any.
pub open spec fn lookup_chat(registry: RegistryView, chat_id: i64) -> Result<
    ChatView,
    LookupError,
> {
    if !registry.contains_key(chat_id) {
        Err(LookupError::ChatUnknown)
    } else if registry[chat_id].is_empty() {
        Err(LookupError::ChatEmpty)
    } else {
        Ok(registry[chat_id])
    }
}

/// The entry of `user_id` in `chat_id`.
pub open spec fn lookup_player(registry: RegistryView, chat_id: i64, user_id: i64) -> Result<
    UserTallyView,
    LookupError,
> {
    match lookup_chat(registry, chat_id) {
        Err(error) => Err(error),
        Ok(chat) => if chat.contains_key(user_id) {
            Ok(chat[user_id])
        } else {
            Err(LookupError::UserNotFound)
        },
    }
}

/// Whether `players` lists the chat: every player of it once, in some order.
pub open spec fn is_listing(chat: ChatView, players: Seq<UserTallyView>) -> bool {
    exists|users: Seq<i64>| lists_in_order(chat, users, players)
}

/// Whether `players` lists the chat in the order that `users` gives.
pub open spec fn lists_in_order(
    chat: ChatView,
    users: Seq<i64>,
    players: Seq<UserTallyView>,
) -> bool {
    &&& users.no_duplicates()
    &&& users.to_set() == chat.dom()
    &&& users.len() == players.len()
    &&& forall|i: int| 0 <= i < users.len() ==> #[trigger] players[i] == chat[users[i]]
}

/// What a sequence of players stands for in specifications.
pub open spec fn players_view(players: Seq<UserTally>) -> Seq<UserTallyView> {
    players.map_values(|tally: UserTally| tally@)
}

/// The registry after `user_id` has left `chat_id`. The chat itself stays,
/// even without players; where the user had no entry nothing changes.
pub open spec fn unregister_state(
    registry: RegistryView,
    chat_id: i64,
    user_id: i64,
) -> RegistryView {
    if is_registered(registry, chat_id, user_id) {
        registry.insert(chat_id, registry[chat_id].remove(user_id))
    } else {
        registry
    }
}

/// The registry with the entry of `user_id` in `chat_id` replaced.
pub open spec fn with_player(
    registry: RegistryView,
    chat_id: i64,
    user_id: i64,
    player: UserTallyView,
) -> RegistryView {
    registry.insert(chat_id, registry[chat_id].insert(user_id, player))
}

/// The registry after a write for `user_id` in `chat_id`; unchanged where
/// the lookup fails.
pub open spec fn add_record_state(
    registry: RegistryView,
    chat_id: i64,
    user_id: i64,
    value: u32,
    today: Date,
) -> RegistryView {
    match lookup_player(registry, chat_id, user_id) {
        Ok(player) => with_player(registry, chat_id, user_id, player.add_record(value, today)),
        Err(_) => registry,
    }
}

/// The reply to a write: the status of the write, or why the lookup failed.
pub open spec fn add_record_reply(
    registry: RegistryView,
    chat_id: i64,
    user_id: i64,
    today: Date,
) -> Seq<char> {
    match lookup_player(registry, chat_id, user_id) {
        Ok(player) => if player.overwrites(today) {
            modified_text()
        } else {
            saved_text()
        },
        Err(error) => lookup_error_text(error),
    }
}

/// The registry after a change of name. The new name must be well formed;
/// that another player may already go by it is not looked at.
pub open spec fn change_name_state(
    registry: RegistryView,
    chat_id: i64,
    user_id: i64,
    name: Seq<char>,
) -> RegistryView {
    if !valid_username(name) {
        registry
    } else {
        match lookup_player(registry, chat_id, user_id) {
            Ok(player) => with_player(registry, chat_id, user_id, player.change_name(name)),
            Err(_) => registry,
        }
    }
}

/// The reply to a change of name.
pub open spec fn change_name_reply(
    registry: RegistryView,
    chat_id: i64,
    user_id: i64,
    name: Seq<char>,
) -> Seq<char> {
    if !valid_username(name) {
        invalid_username_text()
    } else {
        match lookup_player(registry, chat_id, user_id) {
            Ok(_) => renamed_text(name),
            Err(error) => lookup_error_text(error),
        }
    }
}

/// The list of a chat's players as it is shown: a heading, then one name
/// to a line.
pub open spec fn player_list_text(players: Seq<UserTallyView>) -> Seq<char>
    decreases players.len(),
{
    if players.len() == 0 {
        "Players:"@
    } else {
        player_list_text(players.drop_last()) + "\n"@ + players.last().name
    }
}

/// Whether `reply` is a player list of `chat_id`: the names of its players
/// under the heading, each player once, in some order; or, for a chat
/// without players, the text of the reason.
pub open spec fn is_player_list(registry: RegistryView, chat_id: i64, reply: Seq<char>) -> bool {
    match lookup_chat(registry, chat_id) {
        Ok(chat) => exists|players: Seq<UserTallyView>|
            is_listing(chat, players) && reply == player_list_text(players),
        Err(error) => reply == lookup_error_text(error),
    }
}

/// Whether `reply` can come of a draw from `chat_id`: the name of one of
/// its players; or, for a chat without players, the text of the reason.
pub open spec fn is_random_draw(registry: RegistryView, chat_id: i64, reply: Seq<char>) -> bool {
    match lookup_chat(registry, chat_id) {
        Ok(chat) => name_in_use(chat, reply),
        Err(error) => reply == lookup_error_text(error),
    }
}

/// A listing of a chat with players is not empty, and every listed player
/// is one of the chat's.
pub proof fn lemma_listing_covers(chat: ChatView, players: Seq<UserTallyView>)
    requires
        is_listing(chat, players),
    ensures
        chat.is_empty() <==> players.len() == 0,
        forall|i: int| 0 <= i < players.len() ==> name_in_use(chat, #[trigger] players[i].name),
{
    let users = choose|users: Seq<i64>| lists_in_order(chat, users, players);
    assert forall|i: int| 0 <= i < players.len() implies name_in_use(
        chat,
        #[trigger] players[i].name,
    ) by {
        assert(users.to_set().contains(users[i]));
        assert(chat.contains_key(users[i]) && chat[users[i]].name == players[i].name);
    }
    if players.len() > 0 {
        assert(users.to_set().contains(users[0]));
    }
    if !chat.is_empty() {
        let user_id = choose|user_id: i64| chat.dom().contains(user_id);
        assert(users.to_set().contains(user_id));
    }
}

} // verus!
