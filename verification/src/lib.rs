//! Reconciliation core for contribution tracking: a contribution state
//! machine, a queue of pending actions, the worker that carries each action to
//! the ledger and then to the relational cache, and the batch pipeline that
//! mirrors upstream work items.

pub mod action_queue;
pub mod application;
pub mod connection;
pub mod database;
pub mod domain;
pub mod errors;
pub mod infrastructure;
pub mod models;
pub mod repositories;
pub mod routes;
pub mod state_machine;
pub mod sync;
pub mod worker;
