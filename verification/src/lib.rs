//! Core of a live market-data subscription manager: key normalization,
//! the per-stream reconnection state machine, and the event router that
//! fans lifecycle events out to a consumer.

pub mod controller;
pub mod events;
pub mod keys;
pub mod panes;
pub mod router;
