//! The live-state engine of a storage-cluster manager: an in-memory snapshot
//! of cluster inventory, kept consistent with a database that reports row
//! changes and a REST API that holds the canonical form of some entities.
//!
//! - `model`: entity records, their addresses, change events and database rows.
//! - `reconcile`: the per-type policy that turns a row change into a change
//!   of the snapshot, with an API fetch where the type requires one.
//! - `cache`: the snapshot, per-id changes and the atomic bulk installs.
//! - `bulk`: the statements and endpoints that the bulk loads use.

pub mod bulk;
pub mod cache;
pub mod command;
pub mod display;
pub mod mailbox;
pub mod model;
pub mod reconcile;
