//! Follower snapshot and diff engine for a federated social network account.
//!
//! The crate keeps the set of accounts that follow a user, compares a fresh
//! capture of that set with the stored one, and records every change in an
//! append-only log.  Snapshot and log are only ever changed together, inside
//! one transaction.

pub mod api;
pub mod auth;
pub mod db;
pub mod diff;
pub mod error;
pub mod follower;
pub mod plan;
pub mod statement;
pub mod store;
pub mod text;
pub mod timestamp;
pub mod utils;
