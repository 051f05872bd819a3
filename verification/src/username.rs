//! The rule for display names: at least one character, all of them letters
//! or digits.

use vstd::prelude::*;

verus! {

/// Whether `c` is alphanumeric as `char::is_alphanumeric` decides it: a
/// member of Unicode's Alphabetic property or of one of its number
/// categories. The tables are the standard library's and are not restated.
pub uninterp spec fn is_alphanumeric(c: char) -> bool;

/// Calls `char::is_alphanumeric`. The answer depends on the character alone
/// and is what [`is_alphanumeric`] names; nothing more is claimed of it.
#[verifier::external_body]
fn char_is_alphanumeric(c: char) -> (alphanumeric: bool)
    ensures
        alphanumeric == is_alphanumeric(c),
{
    c.is_alphanumeric()
}

/// A display name is acceptable when it is not empty and every character
/// of it is alphanumeric.
pub open spec fn valid_username(name: Seq<char>) -> bool {
    &&& name.len() > 0
    &&& forall|i: int| 0 <= i < name.len() ==> is_alphanumeric(#[trigger] name[i])
}

/// The reply to a name that is not acceptable.
pub open spec fn invalid_username_text() -> Seq<char> {
    "Invalid username. Only alphanumeric characters are allowed."@
}

/// Decides [`valid_username`].
pub fn is_valid_username(username: &str) -> (valid: bool)
    ensures
        valid == valid_username(username@),
{
    if username.is_empty() {
        return false;
    }
    for c in chars: username.chars()
        invariant
            chars.seq() == username@,
            forall|i: int| 0 <= i < chars.index() ==> is_alphanumeric(#[trigger] username@[i]),
    {
        if !char_is_alphanumeric(c) {
            return false;
        }
    }
    true
}

} // verus!
