//! One player's entry: a display name and the values recorded under it.

use vstd::prelude::*;
use vstd::string::*;
use crate::date::Date;

verus! {

/// What a [`UserTally`] stands for in specifications.
pub struct UserTallyView {
    pub name: Seq<char>,
    pub records: Seq<u32>,
    pub last_modified_date: Option<Date>,
}

impl UserTallyView {
    /// A freshly registered player: no records, no date.
    pub open spec fn new(name: Seq<char>) -> UserTallyView {
        UserTallyView { name, records: Seq::empty(), last_modified_date: None }
    }

    /// Whether a write on `today` replaces the newest record instead of
    /// adding one: the newest record was written on `today`.
    pub open spec fn overwrites(self, today: Date) -> bool {
        self.last_modified_date == Some(today) && self.records.len() > 0
    }

    /// The entry after `value` has been written on `today`.
    pub open spec fn add_record(self, value: u32, today: Date) -> UserTallyView {
        UserTallyView {
            name: self.name,
            records: if self.overwrites(today) {
                self.records.drop_last().push(value)
            } else {
                self.records.push(value)
            },
            last_modified_date: Some(today),
        }
    }

    /// The entry under another display name.
    pub open spec fn change_name(self, name: Seq<char>) -> UserTallyView {
        UserTallyView { name, records: self.records, last_modified_date: self.last_modified_date }
    }
}

/// The reply to a write that added a record.
pub open spec fn saved_text() -> Seq<char> {
    "saved new record for today"@
}

/// The reply to a write that replaced today's record.
pub open spec fn modified_text() -> Seq<char> {
    "modified existing record for today"@
}

/// The reply to a change of name, which ends in the new name.
pub open spec fn renamed_text(name: Seq<char>) -> Seq<char> {
    "Username has been changed to "@ + name
}

/// A player in one chat.
///
/// Each record is the IEEE 754 binary32 bit pattern of the value that was
/// logged; the registry stores and returns it and never computes with it.
#[derive(Debug)]
pub struct UserTally {
    pub name: String,
    pub records: Vec<u32>,
    /// The day of the newest write, `None` before the first.
    pub last_modified_date: Option<Date>,
}

impl View for UserTally {
    type V = UserTallyView;

    open spec fn view(&self) -> UserTallyView {
        UserTallyView {
            name: self.name@,
            records: self.records@,
            last_modified_date: self.last_modified_date,
        }
    }
}

impl Clone for UserTally {
    fn clone(&self) -> (copy: Self)
        ensures
            copy@ == self@,
    {
        UserTally {
            name: self.name.clone(),
            records: self.records.clone(),
            last_modified_date: self.last_modified_date,
        }
    }
}

impl UserTally {
    pub fn new(username: &str) -> (tally: UserTally)
        ensures
            tally@ == UserTallyView::new(username@),
    {
        UserTally {
            name: String::from_str(username),
            records: Vec::new(),
            last_modified_date: None,
        }
    }

    /// Gives the player another display name and confirms it. Whether the
    /// name is well formed or free is the registry's business, not checked
    /// here.
    pub fn change_name(&mut self, username: &str) -> (reply: String)
        ensures
            final(self)@ == old(self)@.change_name(username@),
            reply@ == renamed_text(username@),
    {
        self.name = String::from_str(username);
        String::from_str("Username has been changed to ").concat(username)
    }

    /// Writes `value` on `today`: the newest record is replaced if it was
    /// written on the same day, otherwise `value` becomes a new record.
    pub fn add_record(&mut self, value: u32, today: Date) -> (reply: String)
        ensures
            final(self)@ == old(self)@.add_record(value, today),
            reply@ == if old(self)@.overwrites(today) {
                modified_text()
            } else {
                saved_text()
            },
    {
        let same_day = match self.last_modified_date {
            Some(last) => last.same_day(&today),
            None => false,
        };
        let count = self.records.len();
        self.last_modified_date = Some(today);
        if same_day && count > 0 {
            self.records.set(count - 1, value);
            assert(self.records@ =~= old(self).records@.drop_last().push(value));
            String::from_str("modified existing record for today")
        } else {
            self.records.push(value);
            String::from_str("saved new record for today")
        }
    }
}

} // verus!
