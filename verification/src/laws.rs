//! What follows from the contracts, stated over the registry as a map.
//!
//! Every operation's contract gives its answer and the registry it leaves
//! as functions of the registry it found. The lemmas here are about those
//! functions, so each of them holds of every store that keeps the contracts.

use vstd::prelude::*;
use crate::date::Date;
use crate::model::{
    add_record_reply, add_record_state, change_name_state, is_listing, is_player_list,
    is_random_draw, is_registered, lists_in_order, lookup_chat, lookup_player, name_in_use,
    player_list_text, register_result, register_state, unregister_state, username_taken,
    ChatView, RegistryView,
};
use crate::outcome::{lookup_error_text, LookupError, RegisterPlayerResultView};
use crate::tally::{modified_text, saved_text, UserTallyView};
use crate::username::valid_username;

verus! {

/// No two players of the chat go by the same name.
pub open spec fn names_distinct(chat: ChatView) -> bool {
    forall|a: i64, b: i64|
        chat.contains_key(a) && chat.contains_key(b) && a != b ==> #[trigger] chat[a].name
            != #[trigger] chat[b].name
}

/// A name that is empty or holds a character that is not alphanumeric is
/// answered with `InvalidUsername`, whatever the registry holds, and the
/// registry stays as it was.
pub proof fn lemma_invalid_username_changes_nothing(
    registry: RegistryView,
    chat_id: i64,
    user_id: i64,
    name: Seq<char>,
)
    requires
        !valid_username(name),
    ensures
        register_result(registry, chat_id, user_id, name)
            == RegisterPlayerResultView::InvalidUsername,
        register_state(registry, chat_id, user_id, name) == registry,
{
}

/// A registration that does not answer `Registered` leaves the registry as
/// it was; one that does leaves the user with an entry under the name and
/// without records.
pub proof fn lemma_only_success_registers(
    registry: RegistryView,
    chat_id: i64,
    user_id: i64,
    name: Seq<char>,
)
    ensures
        !(register_result(registry, chat_id, user_id, name) is Registered) ==> register_state(
            registry,
            chat_id,
            user_id,
            name,
        ) == registry,
        register_result(registry, chat_id, user_id, name) is Registered ==> lookup_player(
            register_state(registry, chat_id, user_id, name),
            chat_id,
            user_id,
        ) == Ok::<UserTallyView, LookupError>(UserTallyView::new(name)),
{
    let after = register_state(registry, chat_id, user_id, name);
    if register_result(registry, chat_id, user_id, name) is Registered {
        assert(after[chat_id].dom().contains(user_id));
    }
}

/// After a user has registered in a chat, a second registration of the same
/// user there under any well-formed name is answered with
/// `AlreadyRegistered` and the name of the first, and changes nothing. (A
/// name that is not well formed is refused for its form before the user is
/// looked up.)
pub proof fn lemma_second_registration_keeps_first(
    registry: RegistryView,
    chat_id: i64,
    user_id: i64,
    first: Seq<char>,
    second: Seq<char>,
)
    requires
        register_result(registry, chat_id, user_id, first) is Registered,
        valid_username(second),
    ensures
        ({
            let once = register_state(registry, chat_id, user_id, first);
            &&& register_result(once, chat_id, user_id, second)
                == RegisterPlayerResultView::AlreadyRegistered(first)
            &&& register_state(once, chat_id, user_id, second) == once
        }),
{
}

/// A user who has an entry in a chat is told so, with the entry's name, on
/// every further registration there under a well-formed name, and nothing
/// changes.
pub proof fn lemma_registered_user_stays(
    registry: RegistryView,
    chat_id: i64,
    user_id: i64,
    name: Seq<char>,
)
    requires
        is_registered(registry, chat_id, user_id),
        valid_username(name),
    ensures
        register_result(registry, chat_id, user_id, name)
            == RegisterPlayerResultView::AlreadyRegistered(registry[chat_id][user_id].name),
        register_state(registry, chat_id, user_id, name) == registry,
{
}

/// When a user has registered in a chat under a name, another user who has
/// no entry there and asks for the same name is answered with
/// `UsernameTaken`; the first user's entry stays as it is.
pub proof fn lemma_duplicate_name_refused(
    registry: RegistryView,
    chat_id: i64,
    first_user: i64,
    second_user: i64,
    name: Seq<char>,
)
    requires
        first_user != second_user,
        register_result(registry, chat_id, first_user, name) is Registered,
        !is_registered(registry, chat_id, second_user),
    ensures
        ({
            let once = register_state(registry, chat_id, first_user, name);
            &&& register_result(once, chat_id, second_user, name)
                == RegisterPlayerResultView::UsernameTaken
            &&& register_state(once, chat_id, second_user, name) == once
            &&& is_registered(once, chat_id, first_user)
            &&& once[chat_id][first_user] == UserTallyView::new(name)
        }),
{
    let once = register_state(registry, chat_id, first_user, name);
    assert(once[chat_id].contains_key(first_user) && once[chat_id][first_user].name == name);
}

/// Names are compared within one chat only: a name in use in one chat is
/// free in every other.
pub proof fn lemma_names_are_per_chat(
    registry: RegistryView,
    chat_id: i64,
    other_chat: i64,
    user_id: i64,
    name: Seq<char>,
)
    requires
        chat_id != other_chat,
        register_result(registry, chat_id, user_id, name) is Registered,
    ensures
        ({
            let once = register_state(registry, chat_id, user_id, name);
            &&& username_taken(once, other_chat, name) == username_taken(registry, other_chat, name)
            &&& is_registered(once, other_chat, user_id) == is_registered(
                registry,
                other_chat,
                user_id,
            )
        }),
{
}

/// Registration keeps the names of a chat distinct.
pub proof fn lemma_register_keeps_names_distinct(
    registry: RegistryView,
    chat_id: i64,
    user_id: i64,
    name: Seq<char>,
    chat: i64,
)
    requires
        registry.contains_key(chat) ==> names_distinct(registry[chat]),
    ensures
        ({
            let after = register_state(registry, chat_id, user_id, name);
            after.contains_key(chat) ==> names_distinct(after[chat])
        }),
{
    let after = register_state(registry, chat_id, user_id, name);
    if register_result(registry, chat_id, user_id, name) is Registered && chat == chat_id {
        let players = after[chat];
        assert forall|a: i64, b: i64|
            players.contains_key(a) && players.contains_key(b) && a != b implies #[trigger]
            players[a].name != #[trigger] players[b].name by {
            if a == user_id {
                assert(registry[chat].contains_key(b));
            } else if b == user_id {
                assert(registry[chat].contains_key(a));
            }
        }
    }
}

/// Unregistering and writing records keep the names of a chat distinct; a
/// change of name does so where no other player of the chat goes by the
/// new name.
pub proof fn lemma_other_operations_keep_names_distinct(
    registry: RegistryView,
    chat_id: i64,
    user_id: i64,
    value: u32,
    today: Date,
    name: Seq<char>,
)
    requires
        registry.contains_key(chat_id),
        names_distinct(registry[chat_id]),
    ensures
        names_distinct(unregister_state(registry, chat_id, user_id)[chat_id]),
        names_distinct(add_record_state(registry, chat_id, user_id, value, today)[chat_id]),
        !name_in_use(registry[chat_id].remove(user_id), name) ==> names_distinct(
            change_name_state(registry, chat_id, user_id, name)[chat_id],
        ),
{
    let chat = registry[chat_id];
    let renamed = change_name_state(registry, chat_id, user_id, name)[chat_id];
    if !name_in_use(chat.remove(user_id), name) {
        assert forall|a: i64, b: i64|
            renamed.contains_key(a) && renamed.contains_key(b) && a != b implies #[trigger]
            renamed[a].name != #[trigger] renamed[b].name by {
            if a == user_id {
                assert(chat.remove(user_id).contains_key(b));
            } else if b == user_id {
                assert(chat.remove(user_id).contains_key(a));
            }
        }
    }
}

/// Unregistering a user who has no entry in the chat changes nothing, and a
/// user who has unregistered has no entry any more.
pub proof fn lemma_unregister_removes_entry(registry: RegistryView, chat_id: i64, user_id: i64)
    ensures
        !is_registered(registry, chat_id, user_id) ==> unregister_state(registry, chat_id, user_id)
            == registry,
        !is_registered(unregister_state(registry, chat_id, user_id), chat_id, user_id),
        forall|other: i64|
            other != user_id ==> is_registered(
                unregister_state(registry, chat_id, user_id),
                chat_id,
                other,
            ) == #[trigger] is_registered(registry, chat_id, other),
{
}

/// A chat stays known when its players leave: once the only player has
/// unregistered, the one player list and the one draw that the chat admits
/// are the text for an empty chat, not the text for an unknown one.
pub proof fn lemma_drained_chat_is_empty(
    registry: RegistryView,
    chat_id: i64,
    user_id: i64,
    reply: Seq<char>,
)
    requires
        is_registered(registry, chat_id, user_id),
        registry[chat_id].dom() == set![user_id],
    ensures
        ({
            let after = unregister_state(registry, chat_id, user_id);
            &&& lookup_chat(after, chat_id) == Err::<ChatView, LookupError>(LookupError::ChatEmpty)
            &&& is_player_list(after, chat_id, reply) <==> reply == lookup_error_text(
                LookupError::ChatEmpty,
            )
            &&& is_random_draw(after, chat_id, reply) <==> reply == lookup_error_text(
                LookupError::ChatEmpty,
            )
        }),
{
    let after = unregister_state(registry, chat_id, user_id);
    assert(after[chat_id].dom() =~= Set::<i64>::empty());
}

/// Unregistering never makes a chat unknown.
pub proof fn lemma_unregister_keeps_chat(registry: RegistryView, chat_id: i64, user_id: i64)
    ensures
        unregister_state(registry, chat_id, user_id).contains_key(chat_id) == registry.contains_key(
            chat_id,
        ),
{
}

/// In a chat with exactly one player every draw returns that player's name.
pub proof fn lemma_sole_player_is_drawn(
    registry: RegistryView,
    chat_id: i64,
    user_id: i64,
    reply: Seq<char>,
)
    requires
        registry.contains_key(chat_id),
        registry[chat_id].dom() == set![user_id],
    ensures
        is_random_draw(registry, chat_id, reply) <==> reply == registry[chat_id][user_id].name,
{
    let chat = registry[chat_id];
    assert(chat.dom().contains(user_id));
    if reply == chat[user_id].name {
        assert(chat.contains_key(user_id));
    }
}

/// In a chat with exactly one player the player list is the heading and
/// that player's name.
pub proof fn lemma_sole_player_is_listed(
    registry: RegistryView,
    chat_id: i64,
    user_id: i64,
    reply: Seq<char>,
)
    requires
        registry.contains_key(chat_id),
        registry[chat_id].dom() == set![user_id],
    ensures
        is_player_list(registry, chat_id, reply) <==> reply == player_list_text(
            seq![registry[chat_id][user_id]],
        ),
{
    let chat = registry[chat_id];
    let only = seq![chat[user_id]];
    assert(chat.dom().contains(user_id));
    assert(lists_in_order(chat, seq![user_id], only)) by {
        let users = seq![user_id];
        assert(users[0] == user_id);
        assert forall|other: i64| users.to_set().contains(other) <==> other == user_id by {
            if users.contains(other) {
                let i = choose|i: int| 0 <= i < users.len() && users[i] == other;
                assert(i == 0);
            }
        }
        assert(users.to_set() =~= set![user_id]);
    }
    if is_player_list(registry, chat_id, reply) {
        let players = choose|players: Seq<UserTallyView>|
            is_listing(chat, players) && reply == player_list_text(players);
        let users = choose|users: Seq<i64>| lists_in_order(chat, users, players);
        users.unique_seq_to_set();
        assert(users.len() == 1);
        assert(users.to_set().contains(users[0]));
        assert(players =~= only);
    }
}

/// One write: the records grow by at most one, and by none exactly when
/// today's earlier record is replaced. Everything before the newest record
/// stays as it was, and the newest record is the value written.
pub proof fn lemma_write_touches_newest_only(player: UserTallyView, value: u32, today: Date)
    ensures
        ({
            let after = player.add_record(value, today);
            &&& after.name == player.name
            &&& after.last_modified_date == Some(today)
            &&& after.records.len() > 0
            &&& after.records.last() == value
            &&& after.records.len() == if player.overwrites(today) {
                player.records.len()
            } else {
                player.records.len() + 1
            }
            &&& after.records.drop_last() == if player.overwrites(today) {
                player.records.drop_last()
            } else {
                player.records
            }
        }),
{
    let after = player.add_record(value, today);
    if player.overwrites(today) {
        assert(after.records.drop_last() =~= player.records.drop_last());
    } else {
        assert(after.records.drop_last() =~= player.records);
    }
}

/// Two writes on the same day leave what was there before the first, then
/// the second value: the second replaces the first.
pub proof fn lemma_same_day_write_replaces(
    player: UserTallyView,
    first: u32,
    second: u32,
    today: Date,
)
    ensures
        ({
            let once = player.add_record(first, today);
            let twice = once.add_record(second, today);
            &&& once.overwrites(today)
            &&& twice.records == once.records.drop_last().push(second)
            &&& twice.records.len() == once.records.len()
            &&& !player.overwrites(today) ==> once.records == player.records.push(first)
                && twice.records == player.records.push(second)
        }),
{
    let once = player.add_record(first, today);
    let twice = once.add_record(second, today);
    if !player.overwrites(today) {
        assert(once.records.drop_last() =~= player.records);
    }
}

/// A write on another day than the one before adds a record: both values
/// stay, in the order in which they were written.
pub proof fn lemma_next_day_write_appends(
    player: UserTallyView,
    first: u32,
    second: u32,
    today: Date,
    later: Date,
)
    requires
        today != later,
    ensures
        ({
            let once = player.add_record(first, today);
            let twice = once.add_record(second, later);
            &&& !once.overwrites(later)
            &&& twice.records == once.records.push(second)
            &&& twice.records == once.records.drop_last().push(first).push(second)
        }),
{
    let once = player.add_record(first, today);
    assert(once.records =~= once.records.drop_last().push(first));
}

/// The same two laws through the registry: where the user is found, two
/// writes are two writes to the user's entry, the replies tell a
/// replacement from an addition, and no other entry changes.
pub proof fn lemma_registry_writes_compose(
    registry: RegistryView,
    chat_id: i64,
    user_id: i64,
    first: u32,
    second: u32,
    today: Date,
    later: Date,
)
    requires
        lookup_player(registry, chat_id, user_id) is Ok,
    ensures
        ({
            let player = registry[chat_id][user_id];
            let once = add_record_state(registry, chat_id, user_id, first, today);
            let twice = add_record_state(once, chat_id, user_id, second, later);
            &&& lookup_player(once, chat_id, user_id) == Ok::<UserTallyView, LookupError>(
                player.add_record(first, today),
            )
            &&& lookup_player(twice, chat_id, user_id) == Ok::<UserTallyView, LookupError>(
                player.add_record(first, today).add_record(second, later),
            )
            &&& add_record_reply(once, chat_id, user_id, later) == if later == today {
                modified_text()
            } else {
                saved_text()
            }
            &&& forall|chat: i64, user: i64|
                (chat != chat_id || user != user_id) ==> (#[trigger] is_registered(
                    twice,
                    chat,
                    user,
                ) == is_registered(registry, chat, user)) && (is_registered(registry, chat, user)
                    ==> twice[chat][user] == registry[chat][user])
        }),
{
    let player = registry[chat_id][user_id];
    let once = add_record_state(registry, chat_id, user_id, first, today);
    let twice = add_record_state(once, chat_id, user_id, second, later);
    assert(once[chat_id].dom().contains(user_id));
    assert(!once[chat_id].is_empty());
    assert(twice[chat_id].dom().contains(user_id));
}

} // verus!
