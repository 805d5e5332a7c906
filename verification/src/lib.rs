//! A graph datastore's storage layer: validated value objects, one error
//! surface, and an in-memory engine whose every operation is specified
//! over a mathematical model of the stored vertices and edges.
pub mod config;
pub mod datastore;
pub mod errors;
pub mod graph;
pub mod memory;
pub mod models;
pub mod operation;
pub mod query;
pub mod server;
