//! Weekly availability, affinity matching between users, and the debounced
//! synchronisation of schedule edits with a backing store.

pub mod affinities;
pub mod affinity;
pub mod availability_table;
pub mod chat;
pub mod mailer;
pub mod matcher;
pub mod notifications;
pub mod schedule;
pub mod sync;
pub mod user;
