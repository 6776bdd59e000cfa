//! The materialization layer of a blockchain node.
//!
//! The indexer reads the events of the ledger and of the mempool, one at a
//! time, into a write buffer, and hands the buffer to a relational backend
//! as an ordered list of statements. It decides what is written, in which
//! order and under which conflict policy; it does not talk to the backend
//! itself.
//!
//! - [`model`]: the events and what they carry.
//! - [`status`]: the status lattice of transactions.
//! - [`rows`], [`statement`]: the rows of the tables and the statements that
//!   write them.
//! - [`sql`]: the text and the placeholders of each statement.
//! - [`keyed`]: tables whose rows are found again by a key, and what happens
//!   when a key arrives twice.
//! - [`store`], [`ingest`], [`mempool`], [`writer`]: the write buffer, how
//!   events fill it, and how it turns into statements.
//! - [`indexer`]: the indexer itself, with its flush policy.
//! - [`tables`]: the tables in memory, which run the statements as the
//!   backend is to run them.
//! - [`laws`], [`flushing`], [`reparenting`]: what holds of the tables
//!   whatever the events: statuses never move back, a replay duplicates
//!   nothing, a settlement names one claim, a superseded data proposal is
//!   left by all that waited under it.
//! - [`time`], [`narrow`]: timestamps and numbers on their way into columns.
//! - [`prover`]: what the provers of the client SDK decide and say of
//!   themselves.

pub mod flushing;
pub mod indexer;
pub mod ingest;
pub mod keyed;
pub mod laws;
pub mod mempool;
pub mod model;
pub mod narrow;
pub mod prover;
pub mod reparenting;
pub mod rows;
pub mod seqs;
pub mod sql;
pub mod statement;
pub mod status;
pub mod store;
pub mod tables;
pub mod time;
pub mod writer;
