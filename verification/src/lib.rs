//! Core of a streaming media server: a process-wide configuration store, a
//! codec-tagged frame and track model, an Annex-B start-code splitter, a
//! registry of live media sources, an event-dispatch hub with single-use
//! reply invokers, pull/push session state machines, protocol listener
//! lifecycle, and recording state.
//!
//! All protocol I/O lives outside this crate; the types here hold the
//! engine's state and decisions as plain values with verified contracts.

pub mod config;
pub mod event;
pub mod frame;
pub mod info;
pub mod init;
pub mod media;
pub mod recorder;
pub mod registry;
pub mod server;
pub mod session;
pub mod splitter;
