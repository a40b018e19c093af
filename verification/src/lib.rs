//! Core logic of a terminal dashboard that polls per-core CPU utilization and
//! memory statistics on a fixed tick cadence and redraws a text UI until the
//! user quits.
//!
//! This crate holds the verified parts: the layout engine that partitions the
//! terminal area into a header band and one column per core, the pure frame
//! model that pairs each core's utilization with its column, the text
//! formatting for the clock and the statistics, and the event-loop decisions
//! (tick pacing, poll timeouts, quit handling). Reading OS counters and
//! driving the terminal are left to the binary around the library.

pub mod clock;
pub mod events;
pub mod layout;
pub mod render;
pub mod snapshot;
pub mod text;
