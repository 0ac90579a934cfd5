//! The agent's internal publish/subscribe bus. Identifiers are 128-bit UUID
//! values.

use crate::channel::{broadcast_channel, broadcast_send, broadcast_subscribe, sender_clone, BusReceiver, BusSender};
use vstd::prelude::*;

verus! {

#[derive(Debug, Clone)]
pub enum AgentEvent {
    TaskReceived { task_id: u128, task_type: String },
    TaskStarted { task_id: u128 },
    TaskCompleted { task_id: u128 },
    TaskFailed { task_id: u128, error: String },
    TaskCancelled { task_id: u128 },
    AgentConnected,
    AgentDisconnected { reason: String },
    AgentRegistered { agent_id: u128 },
    ServerStatusChanged { server_id: u128, status: String },
    ServerLogLine { server_id: u128, line: String, stream: LogStream },
}

#[derive(Debug, Clone, Copy, PartialEq, Eq, Structural)]
pub enum LogStream {
    Stdout,
    Stderr,
}

/// The capacity of a bus made by `Default`.
pub const DEFAULT_CAPACITY: usize = 1000;

pub struct EventBus {
    sender: BusSender<AgentEvent>,
}

impl EventBus {
    /// The channel the bus publishes on.
    pub closed spec fn channel(&self) -> int {
        self.sender.channel()
    }

    /// Every event handed to the channel through this handle, in order.
    pub closed spec fn published(&self) -> Seq<AgentEvent> {
        self.sender.sent()
    }

    /// A bus whose channel holds `capacity` events; tokio refuses a
    /// capacity of zero or above `usize::MAX / 2`.
    pub fn new(capacity: usize) -> (b: Self)
        requires
            0 < capacity <= usize::MAX / 2,
        ensures
            b.published() == Seq::<AgentEvent>::empty(),
    {
        EventBus { sender: broadcast_channel(capacity) }
    }

    /// Hands `event` to the channel, for every current subscriber; with
    /// none, it is lost.
    pub fn publish(&mut self, event: AgentEvent)
        ensures
            final(self).channel() == old(self).channel(),
            final(self).published() == old(self).published().push(event),
    {
        broadcast_send(&mut self.sender, event);
    }

    /// A receiver, on the bus's channel, of the events published from now on.
    pub fn subscribe(&self) -> (r: BusReceiver<AgentEvent>)
        ensures
            r.channel() == self.channel(),
    {
        broadcast_subscribe(&self.sender)
    }

    /// Another sending handle of the bus's channel.
    pub fn sender(&self) -> (s: BusSender<AgentEvent>)
        ensures
            s.channel() == self.channel(),
            s.sent() == Seq::<AgentEvent>::empty(),
    {
        sender_clone(&self.sender)
    }
}

impl Default for EventBus {
    fn default() -> (b: Self)
        ensures
            b.published() == Seq::<AgentEvent>::empty(),
    {
        EventBus::new(DEFAULT_CAPACITY)
    }
}

impl Clone for EventBus {
    /// Another handle of the same channel, with nothing published through it
    /// yet.
    fn clone(&self) -> (b: Self)
        ensures
            b.channel() == self.channel(),
            b.published() == Seq::<AgentEvent>::empty(),
    {
        EventBus { sender: sender_clone(&self.sender) }
    }
}

} // verus!
