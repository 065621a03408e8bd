//! Core of a durable workflow engine layered over a tag-addressed
//! publish/subscribe message bus: tag matching, bus reads with resumable
//! anchors, workflow and signal dispatch, and the execution context that
//! binds one request identity to every downstream call.
pub mod auth;
pub mod builder;
pub mod bus;
pub mod ctx;
pub mod engine;
pub mod error;
pub mod group;
pub mod ids;
pub mod ops;
pub mod profile_set;
pub mod tags;
pub mod text;
pub mod token_flow;
