//! Replication of one relational database instance onto another.
//!
//! The library holds the verified core of the tool: the configuration
//! model, the construction of the commands and connection strings the
//! external utilities are driven with, and the replication orchestrator,
//! a state machine that sequences connection verification, dump, restore,
//! cleanup and notification and enforces the failure semantics of a run.
//! The surrounding binary performs the actual input and output (database
//! round trips, child processes, the filesystem and SMTP) and reports each
//! outcome back to the orchestrator as an event.

pub mod cli;
pub mod config;
pub mod db_operations;
pub mod email;
pub mod events;
pub mod laws;
pub mod model;
pub mod postgres;
pub mod postgresdb;
pub mod report;
