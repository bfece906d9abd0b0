//! Event types broadcast to subscribed manager clients.
//!
//! The event bus allows the manager to push notifications to clients that have subscribed. Each
//! event variant carries the minimum payload needed for callers to act on the change without
//! re-querying the manager.
use vstd::prelude::*;

use crate::net::client::ConnectionState;
use crate::net::manager::data::ConnectionId;
use crate::protocol::mount::MountStatus;

verus! {

/// A topic that subscribers filter on. [`Self::All`] matches every existing and future event
/// variant.
#[derive(Clone, Copy, Debug, PartialEq, Eq, Hash, Structural)]
pub enum EventTopic {
    /// Subscribe to every event topic.
    All,
    /// Connection lifecycle events ([`Event::ConnectionState`]).
    Connection,
    /// Mount lifecycle events.
    Mount,
}

/// A push notification delivered through a subscription.
#[derive(Clone, Debug, PartialEq, Eq)]
pub enum Event {
    /// A managed connection's state changed.
    ConnectionState {
        /// Id of the connection whose state changed.
        id: ConnectionId,
        /// New connection state.
        state: ConnectionState,
    },
    /// A mount's status changed.
    MountState {
        /// Id of the mount whose status changed.
        id: u32,
        /// New status of the mount.
        state: MountStatus,
    },
}

/// The topic an event belongs to.
pub open spec fn topic_of(event: Event) -> EventTopic {
    match event {
        Event::ConnectionState { .. } => EventTopic::Connection,
        Event::MountState { .. } => EventTopic::Mount,
    }
}

/// Whether a subscriber that asked for the topics receives the event: it asked for all topics,
/// or for the event's topic.
pub open spec fn wants(topics: Seq<EventTopic>, event: Event) -> bool {
    topics.contains(EventTopic::All) || topics.contains(topic_of(event))
}

impl Event {
    /// The topic this event belongs to. Used by the subscription dispatcher to filter events for
    /// clients that asked for a specific topic.
    pub fn topic(&self) -> (r: EventTopic)
        ensures
            r == topic_of(*self),
    {
        match self {
            Event::ConnectionState { .. } => EventTopic::Connection,
            Event::MountState { .. } => EventTopic::Mount,
        }
    }
}

fn has_topic(topics: &Vec<EventTopic>, topic: EventTopic) -> (r: bool)
    ensures
        r == topics@.contains(topic),
{
    let mut i: usize = 0;
    while i < topics.len()
        invariant
            i <= topics@.len(),
            forall|j: int| 0 <= j < i ==> topics@[j] != topic,
        decreases topics@.len() - i,
    {
        if topics[i] == topic {
            return true;
        }
        i = i + 1;
    }
    false
}

/// Whether a subscription to the topics forwards the event.
pub fn subscription_wants(topics: &Vec<EventTopic>, event: &Event) -> (r: bool)
    ensures
        r == wants(topics@, *event),
{
    has_topic(topics, EventTopic::All) || has_topic(topics, event.topic())
}


/// Every event belongs to the topic of its own lifecycle, never to `All`: connection events to
/// `Connection`, mount events to `Mount`. A subscription to `All` receives every event; any other
/// subscription receives a mount event exactly when it asked for `Mount`, and a connection event
/// exactly when it asked for `Connection`.
pub proof fn lemma_event_topics(topics: Seq<EventTopic>, event: Event)
    ensures
        topic_of(event) != EventTopic::All,
        (topic_of(event) == EventTopic::Connection) == (event is ConnectionState),
        (topic_of(event) == EventTopic::Mount) == (event is MountState),
        topics.contains(EventTopic::All) ==> wants(topics, event),
        !topics.contains(EventTopic::All) ==> (wants(topics, event) == ((event is MountState
            && topics.contains(EventTopic::Mount)) || (event is ConnectionState
            && topics.contains(EventTopic::Connection)))),
{
}

} // verus!
