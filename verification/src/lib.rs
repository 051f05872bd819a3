//! A per-chat registry of players and of the values they log.
//!
//! Every chat has its own set of registered players. A player is known by a
//! display name that is fixed at registration and can be changed later, and
//! owns a sequence of recorded values in which a second write on the same
//! calendar day replaces the first. One of a chat's players can be drawn at
//! random.
//!
//! The registry lives in memory and is meant to be used by one caller at a
//! time: every operation runs to its end before the next begins.
//!
//! - [`date`], [`username`], [`tally`]: a calendar day, the rule for display
//!   names, and one player's entry.
//! - [`outcome`]: what a registration and a lookup can answer.
//! - [`model`]: the registry as a map, and each operation as a function of
//!   that map. The contracts of the executable code are stated over it.
//! - [`storage`]: the interface [`storage::BeerTally`] and the registry
//!   [`storage::HashMapBeerTally`] that implements it.
//! - [`dispatch`]: from a command to the text of its reply.
//! - [`laws`]: what follows from the contracts, proved.

pub mod date;
pub mod username;
pub mod tally;
pub mod outcome;
pub mod model;
mod random;
pub mod storage;
pub mod dispatch;
pub mod laws;
