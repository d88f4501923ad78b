//! Search aggregation for Cargo crates across the current project's
//! dependencies, the globally installed binaries and the online registry.
//!
//! The crate holds the decision logic only: data model, source matching,
//! quota allocation, de-duplication, pagination, selection, and the
//! single-flight bookkeeping for searches and metadata hydration. Anything
//! that waits on the outside world hands plain values in and gets plain
//! values back.

pub mod action;
pub mod app;
pub mod cargo;
pub mod components;
pub mod http_client;
pub mod search;
pub mod text;
pub mod tui;
pub mod util;
