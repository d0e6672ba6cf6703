//! Messages exchanged between the control surface, the bus, the orchestrator
//! and the workers.

use vstd::prelude::*;

verus! {

/// A control message carried by the bounded message bus from an inbound
/// request handler to the orchestrator.
#[derive(Debug, Clone)]
pub enum Message {
    /// A worker announced itself and asks for work.
    Start { server: String },
    /// A worker finished and asks the coordinator to wind down (honoured
    /// only in single-shot mode).
    Stop { server: String },
    /// A batch of output reports, in the order the worker produced them.
    Messages(Vec<RobloxMessage>),
}

/// One output report from a worker.
#[derive(Debug, Clone)]
pub enum RobloxMessage {
    Output { level: OutputLevel, body: String, server: String },
}

/// Body of a start request: the id of the worker that is starting.
#[derive(Debug, Clone)]
pub struct StartMessage {
    pub server: String,
}

/// Body of a stop request: the id of the worker that is stopping.
#[derive(Debug, Clone)]
pub struct StopMessage {
    pub server: String,
}

/// Body of a status response.
#[derive(Debug, Clone, PartialEq, Eq, Structural)]
pub struct StatusMessage {
    pub run: bool,
}

/// Severity of one output report.
#[derive(Debug, Clone, Copy, PartialEq, Eq, Structural)]
pub enum OutputLevel {
    Print,
    Info,
    Warning,
    Error,
    ScriptError,
}

/// An event queued for a specific worker, consumed exactly once when the
/// worker drains its queue.
#[derive(Debug, Clone)]
pub enum RobloxEvent {
    RunScript { script: String, oneshot: bool },
}

impl PartialEq for RobloxEvent {
    fn eq(&self, other: &Self) -> (r: bool) {
        match (self, other) {
            (
                RobloxEvent::RunScript { script: s1, oneshot: o1 },
                RobloxEvent::RunScript { script: s2, oneshot: o2 },
            ) => *s1 == *s2 && *o1 == *o2,
        }
    }
}

impl vstd::std_specs::cmp::PartialEqSpecImpl for RobloxEvent {
    open spec fn obeys_eq_spec() -> bool {
        true
    }

    open spec fn eq_spec(&self, other: &Self) -> bool {
        match (self, other) {
            (
                RobloxEvent::RunScript { script: s1, oneshot: o1 },
                RobloxEvent::RunScript { script: s2, oneshot: o2 },
            ) => s1@ == s2@ && o1 == o2,
        }
    }
}

impl PartialEq for RobloxMessage {
    fn eq(&self, other: &Self) -> (r: bool) {
        match (self, other) {
            (
                RobloxMessage::Output { level: l1, body: b1, server: v1 },
                RobloxMessage::Output { level: l2, body: b2, server: v2 },
            ) => *l1 == *l2 && *b1 == *b2 && *v1 == *v2,
        }
    }
}

impl vstd::std_specs::cmp::PartialEqSpecImpl for RobloxMessage {
    open spec fn obeys_eq_spec() -> bool {
        true
    }

    open spec fn eq_spec(&self, other: &Self) -> bool {
        match (self, other) {
            (
                RobloxMessage::Output { level: l1, body: b1, server: v1 },
                RobloxMessage::Output { level: l2, body: b2, server: v2 },
            ) => l1 == l2 && b1@ == b2@ && v1@ == v2@,
        }
    }
}

} // verus!
