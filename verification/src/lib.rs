//! Core of a polling agent for the streams egress proxy.
//!
//! A timer-driven scheduler dispatches one batch-fetch per tick through a
//! pluggable storage driver selected by a configured name. The library holds
//! the verified logic: the driver factory and its no-op fallback, the fetch
//! contract of each backend, the settings data model, and the scheduling and
//! dispatch state machine whose contracts guarantee that every tick spawns
//! exactly one fetch unit and that a failed unit never stops the loop.

pub mod poller;
pub mod postgres;
pub mod settings;
pub mod storage;
