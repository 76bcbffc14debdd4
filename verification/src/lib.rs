//! A read-through cache of user records in front of an authoritative source.
//!
//! A caller asks for a user by id. The cache answers from its store when it
//! holds the id; otherwise it asks the source, keeps what the source gave, and
//! answers with a copy of the stored record. Absence is never stored, and a
//! record that is stored is never replaced.
//!
//! - `user`: the record.
//! - `lookup`: a record tagged as fresh or cached.
//! - `repository`: the source, as a trait, and a source that knows one user.
//! - `store`: records by id, and a lookup on a store that one caller owns.
//! - `cache`: the store behind a readers-writer lock, for callers that search
//!   at the same time.
//! - `laws`: what holds of every lookup and of every run of insertions.

pub mod user;
pub mod lookup;
pub mod repository;
pub mod store;
pub mod cache;
pub mod laws;
