//! What the registry answers: how a registration ended, and why a lookup
//! found no player.

use vstd::prelude::*;
use vstd::string::*;

verus! {

/// How an attempt to register ended.
#[derive(Debug, PartialEq, Eq)]
pub enum RegisterPlayerResult {
    InvalidUsername,
    /// The user already has an entry in the chat; this is its name.
    AlreadyRegistered(String),
    UsernameTaken,
    Registered,
}

/// What a [`RegisterPlayerResult`] stands for in specifications.
pub enum RegisterPlayerResultView {
    InvalidUsername,
    AlreadyRegistered(Seq<char>),
    UsernameTaken,
    Registered,
}

impl View for RegisterPlayerResult {
    type V = RegisterPlayerResultView;

    open spec fn view(&self) -> RegisterPlayerResultView {
        match self {
            RegisterPlayerResult::InvalidUsername => RegisterPlayerResultView::InvalidUsername,
            RegisterPlayerResult::AlreadyRegistered(name) => {
                RegisterPlayerResultView::AlreadyRegistered(name@)
            },
            RegisterPlayerResult::UsernameTaken => RegisterPlayerResultView::UsernameTaken,
            RegisterPlayerResult::Registered => RegisterPlayerResultView::Registered,
        }
    }
}

/// Why a chat had no player to act on.
#[derive(Clone, Copy, Debug, PartialEq, Eq, Structural)]
pub enum LookupError {
    /// Nobody has ever registered in the chat.
    ChatUnknown,
    /// The chat exists, but its last player has unregistered.
    ChatEmpty,
    /// The chat has players, but the user is not one of them.
    UserNotFound,
}

/// The text that goes with each [`LookupError`].
pub open spec fn lookup_error_text(error: LookupError) -> Seq<char> {
    match error {
        LookupError::ChatUnknown => "No users have been registered yet"@,
        LookupError::ChatEmpty => {
            "No users have been initialized in this chat, try to register some users first"@
        },
        LookupError::UserNotFound => "The user was not found"@,
    }
}

impl LookupError {
    /// The text shown for this error.
    pub fn message(&self) -> (text: String)
        ensures
            text@ == lookup_error_text(*self),
    {
        match self {
            LookupError::ChatUnknown => String::from_str("No users have been registered yet"),
            LookupError::ChatEmpty => String::from_str(
                "No users have been initialized in this chat, try to register some users first",
            ),
            LookupError::UserNotFound => String::from_str("The user was not found"),
        }
    }
}

} // verus!
