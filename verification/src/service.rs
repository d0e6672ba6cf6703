//! The coordinator service state and the decision logic of the control
//! surface: each inbound request is translated into registry reads/writes
//! and bus sends here, while the network shell only parses the request and
//! renders the result.

use vstd::prelude::*;

use crate::bus::{BusModel, MessageBus, BUS_CAPACITY};
use crate::messages::{Message, RobloxEvent, RobloxMessage, StartMessage, StatusMessage, StopMessage};
use crate::registry::{
    spec_enqueue, spec_heartbeat, spec_register, Registry, RegistryError, LIVENESS_TIMEOUT,
};

verus! {

/// How a request fails, with the response status it maps to.
#[derive(Debug, Clone, Copy, PartialEq, Eq, Structural)]
pub enum ApiError {
    /// A required parameter is missing from the request.
    MissingParam,
    /// The worker id of a heartbeat is not registered.
    UnknownId,
    /// The worker id of an event drain is not registered.
    NotFound,
    /// The bus send failed because the orchestrator side has closed: the
    /// coordinator is shutting down.
    BusClosed,
}

impl ApiError {
    /// The response status code for this error.
    pub fn status_code(&self) -> (r: u16)
        ensures
            r == match *self {
                ApiError::MissingParam => 400u16,
                ApiError::UnknownId => 422u16,
                ApiError::NotFound => 404u16,
                ApiError::BusClosed => 500u16,
            },
    {
        match *self {
            ApiError::MissingParam => 400,
            ApiError::UnknownId => 422,
            ApiError::NotFound => 404,
            ApiError::BusClosed => 500,
        }
    }
}

/// The coordinator service: the instance registry and the inbound bus. One
/// such context is built at startup and every handler and task works
/// through it.
pub struct Svc {
    pub instances: Registry,
    pub bus: MessageBus,
}

impl Svc {
    /// Both halves are well-formed.
    pub open spec fn wf(self) -> bool {
        self.instances.wf() && self.bus.wf()
    }

    /// A fresh service: no live instances, an empty open bus.
    pub fn new() -> (r: Svc)
        ensures
            r.wf(),
            r.instances@ == Map::<Seq<char>, crate::registry::InstanceModel>::empty(),
            r.bus@ == (BusModel {
                queue: Seq::<Message>::empty(),
                capacity: BUS_CAPACITY as nat,
                closed: false,
            }),
    {
        Svc { instances: Registry::new(), bus: MessageBus::new(BUS_CAPACITY) }
    }

    /// Registers a worker id (idempotent upsert with a fresh liveness
    /// budget when absent).
    pub fn create_server(&mut self, server: String, now: u64)
        requires
            old(self).wf(),
            now + LIVENESS_TIMEOUT <= u64::MAX,
        ensures
            final(self).wf(),
            final(self).instances@ == spec_register(old(self).instances@, server@, now as int),
            final(self).bus@ == old(self).bus@,
    {
        self.instances.register(server, now);
    }

    /// Queues an event for a worker, creating the instance lazily when the
    /// id is unknown.
    pub fn queue_event(&mut self, server: String, msg: RobloxEvent, now: u64)
        requires
            old(self).wf(),
            now + LIVENESS_TIMEOUT <= u64::MAX,
        ensures
            final(self).wf(),
            final(self).instances@ == spec_enqueue(old(self).instances@, server@, msg, now as int),
            final(self).bus@ == old(self).bus@,
    {
        self.instances.enqueue(server, msg, now);
    }

    /// The next pending bus message, if any. The shell suspends on an empty
    /// bus; here that shows up as `None`.
    pub fn recv(&mut self) -> (r: Option<Message>)
        requires
            old(self).wf(),
        ensures
            final(self).wf(),
            (final(self).bus@, r) == crate::bus::spec_try_recv(old(self).bus@),
            final(self).instances@ == old(self).instances@,
    {
        self.bus.try_recv()
    }

    /// Shuts the service down: the bus closes, so every later send fails
    /// and the control surface reports the shutdown to its callers.
    pub fn stop(&mut self)
        requires
            old(self).wf(),
        ensures
            final(self).wf(),
            final(self).bus@ == (BusModel {
                queue: Seq::<Message>::empty(),
                capacity: old(self).bus@.capacity,
                closed: true,
            }),
            final(self).instances@ == old(self).instances@,
    {
        self.bus.close();
    }

    /// The liveness probe's response body.
    pub fn root(&self) -> (r: &'static str)
        ensures
            r@ == "OK!"@,
    {
        "OK!"
    }

    /// Heartbeat: resets the liveness deadline of `server`. Fails with
    /// `MissingParam` when the query carried no id and with `UnknownId`
    /// when the id is not registered; in both cases nothing changes.
    pub fn ping(&mut self, server: Option<&String>, now: u64) -> (r: Result<(), ApiError>)
        requires
            old(self).wf(),
            now + LIVENESS_TIMEOUT <= u64::MAX,
        ensures
            final(self).wf(),
            final(self).bus@ == old(self).bus@,
            match (r, server) {
                (Ok(()), Some(id)) => {
                    &&& old(self).instances@.contains_key(id@)
                    &&& final(self).instances@ == spec_heartbeat(
                        old(self).instances@,
                        id@,
                        now as int,
                    )
                },
                (Err(e), Some(id)) => {
                    &&& e == ApiError::UnknownId
                    &&& !old(self).instances@.contains_key(id@)
                    &&& final(self).instances@ == old(self).instances@
                },
                (Err(e), None) => {
                    &&& e == ApiError::MissingParam
                    &&& final(self).instances@ == old(self).instances@
                },
                (Ok(()), None) => false,
            },
    {
        match server {
            None => Err(ApiError::MissingParam),
            Some(id) => match self.instances.heartbeat(id, now) {
                Ok(()) => Ok(()),
                Err(RegistryError::NotFound) => Err(ApiError::UnknownId),
            },
        }
    }

    /// Register-and-start: registers the worker, then reports the start on
    /// the bus. Fails with `BusClosed` (and registers all the same) when
    /// the coordinator is shutting down.
    pub fn start_handler(&mut self, start_message: &StartMessage, now: u64) -> (r: Result<
        (),
        ApiError,
    >)
        requires
            old(self).wf(),
            now + LIVENESS_TIMEOUT <= u64::MAX,
            old(self).bus@.closed || old(self).bus@.queue.len() < old(self).bus@.capacity,
        ensures
            final(self).wf(),
            final(self).instances@ == spec_register(
                old(self).instances@,
                start_message.server@,
                now as int,
            ),
            old(self).bus@.closed ==> r == Err::<(), ApiError>(ApiError::BusClosed) && final(self).bus@ == old(self).bus@,
            !old(self).bus@.closed ==> r == Ok::<(), ApiError>(()) && final(self).bus@ == (BusModel {
                queue: old(self).bus@.queue.push(
                    Message::Start { server: start_message.server },
                ),
                capacity: old(self).bus@.capacity,
                closed: false,
            }),
    {
        self.create_server(start_message.server.clone(), now);
        match self.bus.send(Message::Start { server: start_message.server.clone() }) {
            Ok(()) => Ok(()),
            Err(_) => Err(ApiError::BusClosed),
        }
    }

    /// Stop request: reports the stop on the bus. Fails with `BusClosed`
    /// when the coordinator is shutting down.
    pub fn stop_handler(&mut self, stop_message: &StopMessage) -> (r: Result<(), ApiError>)
        requires
            old(self).wf(),
            old(self).bus@.closed || old(self).bus@.queue.len() < old(self).bus@.capacity,
        ensures
            final(self).wf(),
            final(self).instances@ == old(self).instances@,
            old(self).bus@.closed ==> r == Err::<(), ApiError>(ApiError::BusClosed) && final(self).bus@ == old(self).bus@,
            !old(self).bus@.closed ==> r == Ok::<(), ApiError>(()) && final(self).bus@ == (BusModel {
                queue: old(self).bus@.queue.push(Message::Stop { server: stop_message.server }),
                capacity: old(self).bus@.capacity,
                closed: false,
            }),
    {
        match self.bus.send(Message::Stop { server: stop_message.server.clone() }) {
            Ok(()) => Ok(()),
            Err(_) => Err(ApiError::BusClosed),
        }
    }

    /// Output report: forwards the batch to the orchestrator in order.
    /// Fails with `BusClosed` when the coordinator is shutting down.
    pub fn messages_handler(&mut self, messages: Vec<RobloxMessage>) -> (r: Result<(), ApiError>)
        requires
            old(self).wf(),
            old(self).bus@.closed || old(self).bus@.queue.len() < old(self).bus@.capacity,
        ensures
            final(self).wf(),
            final(self).instances@ == old(self).instances@,
            old(self).bus@.closed ==> r == Err::<(), ApiError>(ApiError::BusClosed) && final(self).bus@ == old(self).bus@,
            !old(self).bus@.closed ==> r == Ok::<(), ApiError>(()) && final(self).bus@ == (BusModel {
                queue: old(self).bus@.queue.push(Message::Messages(messages)),
                capacity: old(self).bus@.capacity,
                closed: false,
            }),
    {
        match self.bus.send(Message::Messages(messages)) {
            Ok(()) => Ok(()),
            Err(_) => Err(ApiError::BusClosed),
        }
    }

    /// Event drain: atomically removes and returns the ordered event queue
    /// of `server`. Fails with `MissingParam` when the query carried no id
    /// and with `NotFound` when the id is not registered.
    pub fn events_handler(&mut self, server: Option<&String>) -> (r: Result<
        Vec<RobloxEvent>,
        ApiError,
    >)
        requires
            old(self).wf(),
        ensures
            final(self).wf(),
            final(self).bus@ == old(self).bus@,
            match (r, server) {
                (Ok(events), Some(id)) => {
                    &&& old(self).instances@.contains_key(id@)
                    &&& events@ == old(self).instances@[id@].queue
                    &&& final(self).instances@ == crate::registry::spec_drain(
                        old(self).instances@,
                        id@,
                    )
                },
                (Err(e), Some(id)) => {
                    &&& e == ApiError::NotFound
                    &&& !old(self).instances@.contains_key(id@)
                    &&& final(self).instances@ == old(self).instances@
                },
                (Err(e), None) => {
                    &&& e == ApiError::MissingParam
                    &&& final(self).instances@ == old(self).instances@
                },
                (Ok(_), None) => false,
            },
    {
        match server {
            None => Err(ApiError::MissingParam),
            Some(id) => match self.instances.drain(id) {
                Ok(events) => Ok(events),
                Err(RegistryError::NotFound) => Err(ApiError::NotFound),
            },
        }
    }

    /// Status probe: the coordinator is running.
    pub fn status_handler(&self) -> (r: StatusMessage)
        ensures
            r == (StatusMessage { run: true }),
    {
        StatusMessage { run: true }
    }
}

} // verus!
