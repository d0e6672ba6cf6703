//! Coordinator for short-lived remote script-running workers.
//!
//! The library is the verified core of the coordinator: an instance registry
//! with heartbeat-based liveness, a bounded inbound message bus, the
//! orchestrator state machine that turns bus traffic into worker dispatch,
//! and the relay that maps reported output to log channels and the final
//! exit status. The network shell (HTTP surface, channels, timers, process
//! handling) lives outside the library and drives these functions.

pub mod bus;
pub mod messages;
pub mod orchestrator;
pub mod place_runner;
pub mod registry;
pub mod relay;
pub mod service;
