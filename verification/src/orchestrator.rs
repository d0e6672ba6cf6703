//! The orchestrator: a state machine that consumes the bus and turns each
//! message into registry writes and relay output. On each iteration the
//! running loop races the next bus message against the exit signal; the
//! decision for either event is taken here, while the shell only performs
//! the waiting.

use vstd::prelude::*;

use crate::bus::BusModel;
use crate::messages::{Message, RobloxEvent, RobloxMessage};
use crate::registry::{spec_enqueue, LIVENESS_TIMEOUT};
use crate::service::Svc;

verus! {

/// Orchestrator lifecycle. `Stopped` is terminal.
#[derive(Debug, Clone, Copy, PartialEq, Eq, Structural)]
pub enum RunState {
    Running,
    Terminating,
    Stopped,
}

/// What one loop iteration observed: the next bus message, or the exit
/// signal (which wins over any pending messages).
pub enum LoopEvent {
    Bus(Message),
    Exit,
}

/// The orchestrator: its lifecycle state and the run configuration it
/// dispatches to starting workers.
pub struct Orchestrator {
    pub state: RunState,
    pub script: String,
    pub oneshot: bool,
}

impl Orchestrator {
    /// A fresh orchestrator, ready to run `script` on every worker that
    /// starts.
    pub fn new(script: String, oneshot: bool) -> (r: Orchestrator)
        ensures
            r.state == RunState::Running,
            r.script == script,
            r.oneshot == oneshot,
    {
        Orchestrator { state: RunState::Running, script, oneshot }
    }

    /// One iteration of the orchestrator loop. Returns whether the loop
    /// goes on:
    /// - a start report registers the worker if needed and queues the run
    ///   for it;
    /// - a stop report terminates the loop in single-shot mode and is
    ///   ignored otherwise;
    /// - an output report is forwarded to the relay in the order received;
    /// - the exit signal terminates the loop regardless of pending
    ///   messages.
    pub fn step(
        &mut self,
        svc: &mut Svc,
        event: LoopEvent,
        now: u64,
        relay: &mut Vec<RobloxMessage>,
    ) -> (proceed: bool)
        requires
            old(self).state == RunState::Running,
            old(svc).wf(),
            now + LIVENESS_TIMEOUT <= u64::MAX,
        ensures
            final(svc).wf(),
            final(self).script == old(self).script,
            final(self).oneshot == old(self).oneshot,
            final(svc).bus@ == old(svc).bus@,
            match event {
                LoopEvent::Bus(Message::Start { server }) => {
                    &&& final(svc).instances@ == spec_enqueue(
                        old(svc).instances@,
                        server@,
                        RobloxEvent::RunScript {
                            script: old(self).script,
                            oneshot: old(self).oneshot,
                        },
                        now as int,
                    )
                    &&& final(self).state == RunState::Running
                    &&& final(relay)@ == old(relay)@
                    &&& proceed
                },
                LoopEvent::Bus(Message::Stop { .. }) => {
                    &&& final(svc).instances@ == old(svc).instances@
                    &&& final(relay)@ == old(relay)@
                    &&& if old(self).oneshot {
                        final(self).state == RunState::Terminating && !proceed
                    } else {
                        final(self).state == RunState::Running && proceed
                    }
                },
                LoopEvent::Bus(Message::Messages(messages)) => {
                    &&& final(svc).instances@ == old(svc).instances@
                    &&& final(relay)@ == old(relay)@ + messages@
                    &&& final(self).state == RunState::Running
                    &&& proceed
                },
                LoopEvent::Exit => {
                    &&& final(svc).instances@ == old(svc).instances@
                    &&& final(relay)@ == old(relay)@
                    &&& final(self).state == RunState::Terminating
                    &&& !proceed
                },
            },
    {
        match event {
            LoopEvent::Bus(Message::Start { server }) => {
                let script = self.script.clone();
                svc.queue_event(server, RobloxEvent::RunScript { script, oneshot: self.oneshot }, now);
                true
            },
            LoopEvent::Bus(Message::Stop { server: _ }) => {
                if self.oneshot {
                    self.state = RunState::Terminating;
                    false
                } else {
                    true
                }
            },
            LoopEvent::Bus(Message::Messages(mut messages)) => {
                relay.append(&mut messages);
                true
            },
            LoopEvent::Exit => {
                self.state = RunState::Terminating;
                false
            },
        }
    }

    /// The transition out of `Terminating`: stop the control surface (the
    /// bus closes, so later sends fail), tear the registry down wholesale,
    /// and come to rest in `Stopped`. The shell releases the worker-process
    /// guard and cleans the plugin artifact up around this call.
    pub fn finish(&mut self, svc: &mut Svc)
        requires
            old(self).state == RunState::Terminating,
            old(svc).wf(),
        ensures
            final(svc).wf(),
            final(self).state == RunState::Stopped,
            final(self).script == old(self).script,
            final(self).oneshot == old(self).oneshot,
            final(svc).bus@ == (BusModel {
                queue: Seq::<Message>::empty(),
                capacity: old(svc).bus@.capacity,
                closed: true,
            }),
            final(svc).instances@ == Map::<Seq<char>, crate::registry::InstanceModel>::empty(),
    {
        svc.stop();
        svc.instances.clear();
        self.state = RunState::Stopped;
    }
}

} // verus!
