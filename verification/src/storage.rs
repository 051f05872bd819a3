//! The registry in hash maps, behind the interface that any backing store
//! has to offer.

use vstd::prelude::*;
use vstd::string::*;
use vstd::std_specs::hash::spec_hash_map_iter;
use vstd::std_specs::iter::IteratorSpec;
use std::collections::HashMap;
use std::collections::hash_map::Entry;
use crate::date::Date;
use crate::model::{
    add_record_reply, add_record_state, change_name_reply, change_name_state, is_listing,
    is_player_list, is_random_draw, is_registered, lemma_listing_covers, lists_in_order,
    lookup_chat, lookup_player, name_in_use, player_list_text, players_view, register_result,
    register_state, unregister_state, with_player, ChatView, RegistryView,
};
use crate::outcome::{LookupError, RegisterPlayerResult};
use crate::random::random_index;
use crate::tally::{UserTally, UserTallyView};
use crate::username::is_valid_username;

verus! {

broadcast use vstd::std_specs::hash::group_hash_axioms;

/// What a store of players has to offer, whatever keeps the data. The
/// contracts speak of [`BeerTally::registry`], the store read as a map from
/// chat to user to player.
pub trait BeerTally {
    /// The chats and players that the store holds.
    spec fn registry(&self) -> RegistryView;

    /// Registers the user in the chat under `username`. The name's form is
    /// looked at first, then whether the user already has an entry, then
    /// whether another player of the chat goes by the name; only where all
    /// three pass does anything change.
    fn register_player(&mut self, chat_id: i64, user_id: i64, username: &str) -> (result:
        RegisterPlayerResult)
        ensures
            result@ == register_result(old(self).registry(), chat_id, user_id, username@),
            final(self).registry() == register_state(
                old(self).registry(),
                chat_id,
                user_id,
                username@,
            ),
    ;

    /// Removes the user's entry from the chat. `Err` means that there was
    /// none, and then nothing has changed.
    fn unregister_player(&mut self, chat_id: i64, user_id: i64) -> (result: Result<(), ()>)
        ensures
            result is Ok <==> is_registered(old(self).registry(), chat_id, user_id),
            final(self).registry() == unregister_state(old(self).registry(), chat_id, user_id),
    ;

    /// The names of the chat's players under a heading, one to a line and
    /// each player once, in an order that is up to the store; or the text of
    /// the reason why the chat has no players.
    fn player_list(&self, chat_id: i64) -> (reply: String)
        ensures
            is_player_list(self.registry(), chat_id, reply@),
    ;

    /// The name of one of the chat's players, drawn at random; or the text
    /// of the reason why the chat has no players.
    fn get_random(&self, chat_id: i64) -> (reply: String)
        ensures
            is_random_draw(self.registry(), chat_id, reply@),
    ;

    /// Writes `value` for the user on `today` and says whether it was added
    /// or replaced today's earlier record; or the text of the reason why
    /// the user was not found, and then nothing has changed.
    fn add_record(&mut self, chat_id: i64, user_id: i64, value: u32, today: Date) -> (reply:
        String)
        ensures
            reply@ == add_record_reply(old(self).registry(), chat_id, user_id, today),
            final(self).registry() == add_record_state(
                old(self).registry(),
                chat_id,
                user_id,
                value,
                today,
            ),
    ;

    /// Gives the user another display name. The name must be well formed;
    /// whether another player of the chat goes by it already is not looked
    /// at.
    fn change_name(&mut self, chat_id: i64, user_id: i64, username: &str) -> (reply: String)
        ensures
            reply@ == change_name_reply(old(self).registry(), chat_id, user_id, username@),
            final(self).registry() == change_name_state(
                old(self).registry(),
                chat_id,
                user_id,
                username@,
            ),
    ;
}

/// A registry kept in hash maps: chat id, then user id. The same user may
/// take part in several chats, under the same name or under different ones.
pub struct HashMapBeerTally {
    players: HashMap<i64, HashMap<i64, UserTally>>,
}

/// What a chat's map holds, entry by entry.
pub open spec fn chat_view(chat: Map<i64, UserTally>) -> ChatView {
    Map::new(|user_id: i64| chat.contains_key(user_id), |user_id: i64| chat[user_id]@)
}

/// What the map of chats holds, chat by chat.
pub open spec fn registry_view(players: Map<i64, HashMap<i64, UserTally>>) -> RegistryView {
    Map::new(
        |chat_id: i64| players.contains_key(chat_id),
        |chat_id: i64| chat_view(players[chat_id]@),
    )
}

impl View for HashMapBeerTally {
    type V = RegistryView;

    closed spec fn view(&self) -> RegistryView {
        registry_view(self.players@)
    }
}

proof fn lemma_chat_view_insert(chat: Map<i64, UserTally>, user_id: i64, tally: UserTally)
    ensures
        chat_view(chat.insert(user_id, tally)) == chat_view(chat).insert(user_id, tally@),
{
    assert(chat_view(chat.insert(user_id, tally)) =~= chat_view(chat).insert(user_id, tally@));
}

proof fn lemma_chat_view_remove(chat: Map<i64, UserTally>, user_id: i64)
    ensures
        chat_view(chat.remove(user_id)) == chat_view(chat).remove(user_id),
{
    assert(chat_view(chat.remove(user_id)) =~= chat_view(chat).remove(user_id));
}

proof fn lemma_registry_view_insert(
    players: Map<i64, HashMap<i64, UserTally>>,
    chat_id: i64,
    chat: HashMap<i64, UserTally>,
)
    ensures
        registry_view(players.insert(chat_id, chat)) == registry_view(players).insert(
            chat_id,
            chat_view(chat@),
        ),
{
    assert(registry_view(players.insert(chat_id, chat)) =~= registry_view(players).insert(
        chat_id,
        chat_view(chat@),
    ));
}

/// Replacing one player's entry inside one chat's map shows in the view as
/// [`with_player`], whatever the new entry is.
proof fn lemma_entry_replaced(
    players: Map<i64, HashMap<i64, UserTally>>,
    chat_id: i64,
    user_id: i64,
)
    requires
        players.contains_key(chat_id),
    ensures
        forall|chat: HashMap<i64, UserTally>, tally: UserTally|
            chat@ == players[chat_id]@.insert(user_id, tally) ==> #[trigger] registry_view(
                players.insert(chat_id, chat),
            ) == with_player(registry_view(players), chat_id, user_id, #[trigger] tally@),
{
    assert forall|chat: HashMap<i64, UserTally>, tally: UserTally|
        chat@ == players[chat_id]@.insert(user_id, tally) implies #[trigger] registry_view(
        players.insert(chat_id, chat),
    ) == with_player(registry_view(players), chat_id, user_id, #[trigger] tally@) by {
        lemma_chat_view_insert(players[chat_id]@, user_id, tally);
        lemma_registry_view_insert(players, chat_id, chat);
    }
}

/// Whether some entry of `chat` carries the name `username`.
fn chat_has_name(chat: &HashMap<i64, UserTally>, username: &str) -> (found: bool)
    ensures
        found == name_in_use(chat_view(chat@), username@),
{
    let wanted = String::from_str(username);
    let mut found = false;
    let ghost all = spec_hash_map_iter(chat).remaining();
    for entry in entries: chat.iter()
        invariant
            entries.seq() == all,
            wanted@ == username@,
            found == exists|i: int|
                0 <= i < entries.index() && (#[trigger] all[i]).1.name@ == username@,
    {
        if entry.1.name == wanted {
            found = true;
        }
    }
    proof {
        let players = chat_view(chat@);
        assert(found == exists|i: int|
            0 <= i < all.len() && (#[trigger] all[i]).1.name@ == username@);
        if found {
            let i = choose|i: int| 0 <= i < all.len() && (#[trigger] all[i]).1.name@ == username@;
            assert(chat@.contains_key(*all[i].0) && chat@[*all[i].0] == *all[i].1);
            assert(players.contains_key(*all[i].0));
        }
        if name_in_use(players, username@) {
            let user_id = choose|user_id: i64| #[trigger]
                players.contains_key(user_id) && players[user_id].name == username@;
            assert(chat@.contains_key(user_id));
            assert(all.contains((&user_id, &chat@[user_id])));
        }
    }
    found
}

/// Copies out every entry of `chat`, in the order in which the map hands
/// them over.
fn chat_players(chat: &HashMap<i64, UserTally>) -> (players: Vec<UserTally>)
    ensures
        is_listing(chat_view(chat@), players_view(players@)),
{
    let mut players: Vec<UserTally> = Vec::new();
    let ghost all = spec_hash_map_iter(chat).remaining();
    for entry in entries: chat.iter()
        invariant
            entries.seq() == all,
            all.no_duplicates(),
            players.len() == entries.index(),
            forall|i: int| 0 <= i < players.len() ==> (#[trigger] players[i])@ == all[i].1@,
    {
        players.push(entry.1.clone());
    }
    proof {
        let users = Seq::new(all.len(), |i: int| *all[i].0);
        let listed = players_view(players@);
        let held = chat_view(chat@);
        assert(players.len() == all.len());
        assert forall|i: int| 0 <= i < all.len() implies chat@.contains_key(*all[i].0)
            && chat@[*all[i].0] == *(#[trigger] all[i]).1 by {}
        assert forall|i: int, j: int|
            0 <= i < users.len() && 0 <= j < users.len() && i != j implies users[i]
            != users[j] by {
            if users[i] == users[j] {
                assert(all[i] == all[j]);
            }
        }
        assert forall|user_id: i64| users.to_set().contains(user_id) <==> held.dom().contains(
            user_id,
        ) by {
            if users.to_set().contains(user_id) {
                let i = choose|i: int| 0 <= i < users.len() && users[i] == user_id;
                assert(chat@.contains_key(*all[i].0));
            }
            if chat@.contains_key(user_id) {
                assert(all.contains((&user_id, &chat@[user_id])));
                let i = choose|i: int| 0 <= i < all.len() && all[i] == (&user_id, &chat@[user_id]);
                assert(users[i] == user_id);
            }
        }
        assert(users.to_set() =~= held.dom());
        assert forall|i: int| 0 <= i < users.len() implies #[trigger] listed[i]
            == held[users[i]] by {
            assert(listed[i] == players[i]@);
        }
        assert(lists_in_order(held, users, listed));
    }
    players
}

impl HashMapBeerTally {
    /// A registry that knows no chat.
    pub fn new() -> (registry: HashMapBeerTally)
        ensures
            registry@ == Map::<i64, ChatView>::empty(),
    {
        let registry = HashMapBeerTally { players: HashMap::new() };
        assert(registry@ =~= Map::<i64, ChatView>::empty());
        registry
    }

    /// All players of the chat, each once, in no particular order.
    pub fn get_players_vect(&self, chat_id: i64) -> (result: Result<Vec<UserTally>, LookupError>)
        ensures
            match result {
                Ok(players) => lookup_chat(self@, chat_id) is Ok && is_listing(
                    self@[chat_id],
                    players_view(players@),
                ),
                Err(error) => lookup_chat(self@, chat_id) == Err::<ChatView, LookupError>(error),
            },
    {
        match self.players.get(&chat_id) {
            None => Err(LookupError::ChatUnknown),
            Some(chat) => {
                assert(chat_view(chat@).dom() =~= chat@.dom());
                if chat.is_empty() {
                    // Found the chat, but its players have all unregistered.
                    Err(LookupError::ChatEmpty)
                } else {
                    Ok(chat_players(chat))
                }
            },
        }
    }

    /// The user's entry in the chat, to read or to change. What the caller
    /// leaves in it is what the registry then holds for the user.
    pub fn get_player(&mut self, chat_id: i64, user_id: i64) -> (result: Result<
        &mut UserTally,
        LookupError,
    >)
        ensures
            match result {
                Ok(player) => {
                    &&& lookup_player(old(self)@, chat_id, user_id) == Ok::<
                        UserTallyView,
                        LookupError,
                    >(player@)
                    &&& final(self)@ == with_player(old(self)@, chat_id, user_id, final(player)@)
                },
                Err(error) => {
                    &&& lookup_player(old(self)@, chat_id, user_id) == Err::<
                        UserTallyView,
                        LookupError,
                    >(error)
                    &&& final(self)@ == old(self)@
                },
            },
    {
        match self.players.entry(chat_id) {
            Entry::Vacant(_) => {
                assert(old(self).players@.remove(chat_id) =~= old(self).players@);
                Err(LookupError::ChatUnknown)
            },
            Entry::Occupied(slot) => {
                let chat = slot.into_mut();
                let ghost before = *chat;
                proof {
                    assert(old(self).players@.insert(chat_id, before) =~= old(self).players@);
                    assert(chat_view(before@).dom() =~= before@.dom());
                    lemma_entry_replaced(old(self).players@, chat_id, user_id);
                }
                if chat.is_empty() {
                    Err(LookupError::ChatEmpty)
                } else {
                    match chat.entry(user_id) {
                        Entry::Vacant(_) => {
                            assert(before@.remove(user_id) =~= before@);
                            Err(LookupError::UserNotFound)
                        },
                        Entry::Occupied(entry) => Ok(entry.into_mut()),
                    }
                }
            },
        }
    }
}

/// The text of a chat's player list: a heading, then the names in the order
/// of `players`, one to a line.
pub fn format_player_list(players: &Vec<UserTally>) -> (text: String)
    ensures
        text@ == player_list_text(players_view(players@)),
{
    let mut text = String::from_str("Players:");
    let ghost listed = players_view(players@);
    assert(listed.take(0) =~= Seq::<UserTallyView>::empty());
    for i in 0..players.len()
        invariant
            listed == players_view(players@),
            text@ == player_list_text(listed.take(i as int)),
    {
        proof {
            assert(listed.take(i + 1).drop_last() =~= listed.take(i as int));
            assert(listed.take(i + 1).last() == players[i as int]@);
        }
        text.append("\n");
        text.append(players[i].name.as_str());
    }
    assert(listed.take(players.len() as int) =~= listed);
    text
}

/// The name of the player at `index`. Which index is drawn is up to chance;
/// what is returned for it is not.
pub fn player_name_at(players: &Vec<UserTally>, index: usize) -> (name: String)
    requires
        index < players.len(),
    ensures
        name@ == players[index as int]@.name,
{
    players[index].name.clone()
}

impl BeerTally for HashMapBeerTally {
    open spec fn registry(&self) -> RegistryView {
        self@
    }

    fn register_player(&mut self, chat_id: i64, user_id: i64, username: &str) -> (result:
        RegisterPlayerResult) {
        if !is_valid_username(username) {
            return RegisterPlayerResult::InvalidUsername;
        }
        match self.players.entry(chat_id) {
            Entry::Vacant(slot) => {
                let mut usernames: HashMap<i64, UserTally> = HashMap::new();
                usernames.insert(user_id, UserTally::new(username));
                proof {
                    let none = Map::<i64, UserTally>::empty();
                    assert(chat_view(none) =~= Map::<i64, UserTallyView>::empty());
                    lemma_chat_view_insert(none, user_id, usernames@[user_id]);
                    lemma_registry_view_insert(old(self).players@, chat_id, usernames);
                }
                slot.insert(usernames);
                RegisterPlayerResult::Registered
            },
            Entry::Occupied(slot) => {
                let usernames = slot.into_mut();
                let ghost before = *usernames;
                assert(old(self).players@.insert(chat_id, before) =~= old(self).players@);
                match usernames.get(&user_id) {
                    Some(user_tally) => RegisterPlayerResult::AlreadyRegistered(
                        user_tally.name.clone(),
                    ),
                    None => {
                        if chat_has_name(usernames, username) {
                            RegisterPlayerResult::UsernameTaken
                        } else {
                            let tally = UserTally::new(username);
                            proof {
                                lemma_chat_view_insert(before@, user_id, tally);
                            }
                            usernames.insert(user_id, tally);
                            proof {
                                lemma_registry_view_insert(old(self).players@, chat_id, *usernames);
                            }
                            RegisterPlayerResult::Registered
                        }
                    },
                }
            },
        }
    }

    fn unregister_player(&mut self, chat_id: i64, user_id: i64) -> (result: Result<(), ()>) {
        match self.players.entry(chat_id) {
            Entry::Vacant(_) => {
                assert(old(self).players@.remove(chat_id) =~= old(self).players@);
                Err(())
            },
            Entry::Occupied(slot) => {
                let usernames = slot.into_mut();
                let ghost before = *usernames;
                assert(old(self).players@.insert(chat_id, before) =~= old(self).players@);
                match usernames.remove(&user_id) {
                    Some(_) => {
                        proof {
                            lemma_chat_view_remove(before@, user_id);
                            lemma_registry_view_insert(old(self).players@, chat_id, *usernames);
                        }
                        Ok(())
                    },
                    None => {
                        assert(before@.remove(user_id) =~= before@);
                        Err(())
                    },
                }
            },
        }
    }

    fn player_list(&self, chat_id: i64) -> (reply: String) {
        match self.get_players_vect(chat_id) {
            Ok(list_of_players) => format_player_list(&list_of_players),
            Err(error) => error.message(),
        }
    }

    fn get_random(&self, chat_id: i64) -> (reply: String) {
        match self.get_players_vect(chat_id) {
            Ok(list_of_players) => {
                let ghost listed = players_view(list_of_players@);
                proof {
                    lemma_listing_covers(self@[chat_id], listed);
                }
                let index = random_index(list_of_players.len());
                assert(listed[index as int] == list_of_players[index as int]@);
                player_name_at(&list_of_players, index)
            },
            Err(error) => error.message(),
        }
    }

    fn add_record(&mut self, chat_id: i64, user_id: i64, value: u32, today: Date) -> (reply:
        String) {
        match self.get_player(chat_id, user_id) {
            Ok(user) => user.add_record(value, today),
            Err(error) => error.message(),
        }
    }

    fn change_name(&mut self, chat_id: i64, user_id: i64, username: &str) -> (reply: String) {
        if !is_valid_username(username) {
            return String::from_str("Invalid username. Only alphanumeric characters are allowed.");
        }
        match self.get_player(chat_id, user_id) {
            Ok(user_tally) => user_tally.change_name(username),
            Err(error) => error.message(),
        }
    }
}

} // verus!
