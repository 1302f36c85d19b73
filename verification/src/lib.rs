//! Ingestion of a blockchain node's chain tip into a graph of blocks,
//! transactions and chain-order edges, and the read queries over that graph.
//!
//! The crate holds the decisions and the data rules; it performs no I/O.
//! A caller runs the remote calls and the database statements that the
//! pipeline asks for and hands the outcomes back.
//!
//! - [`graph`] is the graph as a mathematical value with its merge rules,
//!   and [`laws`] holds what is proved of them.
//! - [`store`] keeps the graph in memory; its writers and readers are proved
//!   against the rules.
//! - [`pipeline`] is the state machine of one ingestion run, and [`ingest`]
//!   runs it to its end against the store in memory.
//! - [`rpc`] and [`json`] say what is asked of the node and how its answers
//!   are read; [`clock`] writes a block's time.
//! - [`statement`] and [`driver`] put the writes and reads as the graph
//!   database takes them.
//! - [`service`] answers the queries.

pub mod clock;
pub mod driver;
pub mod error;
pub mod graph;
pub mod ingest;
pub mod json;
pub mod laws;
pub mod pipeline;
pub mod rpc;
pub mod service;
pub mod statement;
pub mod store;
