//! The channels registered with one connection, and what the connection does with each action
//! it is handed: registering and unregistering channels, listing them, forwarding the requests
//! they write and handing each response back to the channel that asked for it.
use vstd::prelude::*;

use crate::net::common::id_set::IdSet;
use crate::net::manager::data::ManagerChannelId;
use crate::net::manager::server::routing::{
    lemma_untag_tagged, tag_request_id, tagged_id, untag_origin_id, untagged,
};
use crate::text::copy_str;

verus! {

broadcast use vstd::string::group_string_axioms;

/// The ids of the channels registered with a connection.
pub struct ChannelRegistry {
    ids: IdSet,
}

impl View for ChannelRegistry {
    type V = Set<ManagerChannelId>;

    closed spec fn view(&self) -> Set<ManagerChannelId> {
        self.ids@
    }
}

/// The channel a response with the given origin id goes to, and the id of the request it
/// answers: the origin id must name a channel that is registered.
pub open spec fn delivery(registered: Set<ManagerChannelId>, origin_id: Seq<char>) -> Option<
    (ManagerChannelId, Seq<char>),
> {
    match untagged(origin_id) {
        Some((c, rest)) => if registered.contains(c) {
            Some((c, rest))
        } else {
            None
        },
        None => None,
    }
}

/// What a connection is asked to do.
#[derive(Debug)]
pub enum ConnectionAction {
    /// Register a channel, so that responses to it are handed to it.
    Register(ManagerChannelId),
    /// Forget a channel.
    Unregister(ManagerChannelId),
    /// List the registered channels.
    GetRegistered,
    /// A response came from the server, answering the request whose id is given.
    Read(String),
    /// A channel writes a request with the given id to the server.
    Write(ManagerChannelId, String),
}

/// What a connection does after an action.
#[derive(Debug, PartialEq, Eq)]
pub enum ConnectionEffect {
    /// Nothing goes out.
    Nothing,
    /// The ids of the registered channels go back to the one who asked.
    Registered(Vec<ManagerChannelId>),
    /// The response goes to the channel, answering the request with the given id.
    Deliver(ManagerChannelId, String),
    /// The request goes to the server under the given id.
    Forward(String),
}

impl ChannelRegistry {
    /// No channel is registered twice.
    pub closed spec fn wf(&self) -> bool {
        self.ids.wf()
    }

    /// An empty registry.
    pub fn new() -> (r: Self)
        ensures
            r.wf(),
            r@ == Set::<ManagerChannelId>::empty(),
    {
        ChannelRegistry { ids: IdSet::new() }
    }

    /// Whether a channel is registered.
    pub fn contains(&self, id: ManagerChannelId) -> (r: bool)
        ensures
            r == self@.contains(id),
    {
        self.ids.contains(id)
    }

    /// Registers a channel; registering it again changes nothing.
    pub fn register(&mut self, id: ManagerChannelId)
        requires
            old(self).wf(),
        ensures
            final(self).wf(),
            final(self)@ == old(self)@.insert(id),
    {
        self.ids.insert(id);
    }

    /// Forgets a channel; forgetting one that is not registered changes nothing.
    pub fn unregister(&mut self, id: ManagerChannelId)
        requires
            old(self).wf(),
        ensures
            final(self).wf(),
            final(self)@ == old(self)@.remove(id),
    {
        self.ids.remove(id);
    }

    /// The ids of the registered channels, each once.
    pub fn registered(&self) -> (r: Vec<ManagerChannelId>)
        requires
            self.wf(),
        ensures
            r@.no_duplicates(),
            r@.to_set() == self@,
            r@.len() == self@.len(),
    {
        self.ids.to_vec()
    }

    /// The channel a response goes to and the id of the request it answers, if it answers a
    /// request of a registered channel.
    pub fn route_response<'a>(&self, origin_id: &'a str) -> (r: Option<(ManagerChannelId, &'a str)>)
        ensures
            match r {
                Some((c, rest)) => delivery(self@, origin_id@) == Some((c, rest@)),
                None => delivery(self@, origin_id@) is None,
            },
    {
        match untag_origin_id(origin_id) {
            Some((cid, rest)) => {
                if self.contains(cid) {
                    Some((cid, rest))
                } else {
                    None
                }
            },
            None => None,
        }
    }

    /// Carries out an action and says what goes out because of it.
    pub fn step(&mut self, action: ConnectionAction) -> (r: ConnectionEffect)
        requires
            old(self).wf(),
        ensures
            final(self).wf(),
            match action {
                ConnectionAction::Register(c) => final(self)@ == old(self)@.insert(c) && r
                    is Nothing,
                ConnectionAction::Unregister(c) => final(self)@ == old(self)@.remove(c) && r
                    is Nothing,
                ConnectionAction::GetRegistered => final(self)@ == old(self)@ && (
                r matches ConnectionEffect::Registered(ids) && ids@.no_duplicates()
                    && ids@.to_set() == old(self)@),
                ConnectionAction::Read(origin) => final(self)@ == old(self)@ && match delivery(
                    old(self)@,
                    origin@,
                ) {
                    Some((c, rest)) => r matches ConnectionEffect::Deliver(d, id) && d == c && id@
                        == rest,
                    None => r is Nothing,
                },
                ConnectionAction::Write(c, req) => final(self)@ == old(self)@ && (
                r matches ConnectionEffect::Forward(id) && id@ == tagged_id(c, req@)),
            },
    {
        match action {
            ConnectionAction::Register(c) => {
                self.register(c);
                ConnectionEffect::Nothing
            },
            ConnectionAction::Unregister(c) => {
                self.unregister(c);
                ConnectionEffect::Nothing
            },
            ConnectionAction::GetRegistered => ConnectionEffect::Registered(self.registered()),
            ConnectionAction::Read(origin) => match self.route_response(origin.as_str()) {
                Some((c, rest)) => ConnectionEffect::Deliver(c, copy_str(rest)),
                None => ConnectionEffect::Nothing,
            },
            ConnectionAction::Write(c, req) => ConnectionEffect::Forward(
                tag_request_id(c, req.as_str()),
            ),
        }
    }
}

/// A request that a registered channel writes comes back to that channel: the response that
/// answers the id the request was forwarded under is delivered to the channel, with the request's
/// own id; once the channel is unregistered, such a response goes nowhere.
pub proof fn lemma_response_returns_to_channel(
    registered: Set<ManagerChannelId>,
    channel_id: ManagerChannelId,
    request_id: Seq<char>,
)
    ensures
        registered.contains(channel_id) ==> delivery(registered, tagged_id(channel_id, request_id))
            == Some((channel_id, request_id)),
        delivery(registered.remove(channel_id), tagged_id(channel_id, request_id)) is None,
{
    lemma_untag_tagged(channel_id, request_id);
}

} // verus!
