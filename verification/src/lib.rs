//! A verified session layer for keeping to-do entries in a graph database
//! that speaks the Bolt protocol.
//!
//! The crate holds everything that can be decided without touching the
//! network: the values of the protocol ([`value`]), the records and nodes
//! that a query hands back ([`node`]), the text of the queries ([`query`]),
//! the state machine that takes a session through its login and through
//! one exchange at a time ([`db`]), what holds of every run of that machine
//! ([`trace`]), and the to-do entries with the operations on them
//! ([`api`]). The maps that go out with a request are those of the Bolt
//! client ([`bolt`]).
//!
//! Nothing here sends or receives. A driver outside this crate owns the
//! connection: it performs the requests that the session hands out and
//! feeds the replies back in.

pub mod api;
pub mod bolt;
pub mod db;
pub mod node;
pub mod query;
pub mod trace;
pub mod value;
