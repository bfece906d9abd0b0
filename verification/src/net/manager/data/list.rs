//! The list of active connections that the manager reports.
use vstd::prelude::*;

use crate::net::manager::data::ConnectionId;
use std::collections::HashMap;

verus! {

broadcast use vstd::std_specs::hash::group_hash_axioms;

/// Represents a list of information about active connections: the destination of each
/// connection, by id.
#[derive(Clone, Debug)]
pub struct ConnectionList(HashMap<ConnectionId, String>);

impl View for ConnectionList {
    type V = Map<ConnectionId, Seq<char>>;

    closed spec fn view(&self) -> Map<ConnectionId, Seq<char>> {
        self.0@.map_values(|d: String| d@)
    }
}

impl ConnectionList {
    /// Creates an empty list.
    pub fn new() -> (r: Self)
        ensures
            r@ == Map::<ConnectionId, Seq<char>>::empty(),
    {
        let r = ConnectionList(HashMap::new());
        proof {
            assert(r@ =~= Map::<ConnectionId, Seq<char>>::empty());
        }
        r
    }

    /// Returns a reference to the destination associated with an active connection
    pub fn connection_destination(&self, id: ConnectionId) -> (r: Option<&String>)
        ensures
            match r {
                Some(d) => self@.contains_key(id) && self@[id] == d@,
                None => !self@.contains_key(id),
            },
    {
        self.0.get(&id)
    }

    /// Records the destination of a connection, returning the one it replaced.
    pub fn insert(&mut self, id: ConnectionId, destination: String) -> (r: Option<String>)
        ensures
            final(self)@ == old(self)@.insert(id, destination@),
            match r {
                Some(d) => old(self)@.contains_key(id) && old(self)@[id] == d@,
                None => !old(self)@.contains_key(id),
            },
    {
        let r = self.0.insert(id, destination);
        proof {
            assert(self@ =~= old(self)@.insert(id, destination@));
        }
        r
    }

    /// Forgets the connection, returning its destination.
    pub fn remove(&mut self, id: ConnectionId) -> (r: Option<String>)
        ensures
            final(self)@ == old(self)@.remove(id),
            match r {
                Some(d) => old(self)@.contains_key(id) && old(self)@[id] == d@,
                None => !old(self)@.contains_key(id),
            },
    {
        let r = self.0.remove(&id);
        proof {
            assert(self@ =~= old(self)@.remove(id));
        }
        r
    }

    /// Whether the list holds the connection.
    pub fn contains_key(&self, id: ConnectionId) -> (r: bool)
        ensures
            r == self@.contains_key(id),
    {
        self.0.contains_key(&id)
    }

    /// Number of connections in the list.
    pub fn len(&self) -> (r: usize)
        ensures
            r == self@.len(),
    {
        proof {
            assert(self.0@.dom() =~= self@.dom());
        }
        self.0.len()
    }

    /// Whether the list holds no connection.
    pub fn is_empty(&self) -> (r: bool)
        ensures
            r == (self@.len() == 0),
    {
        self.len() == 0
    }

    /// The destination of a connection that the list holds.
    pub fn index(&self, id: ConnectionId) -> (r: &String)
        requires
            self@.contains_key(id),
        ensures
            r@ == self@[id],
    {
        self.0.get(&id).unwrap()
    }
}

impl Default for ConnectionList {
    fn default() -> (r: ConnectionList)
        ensures
            r@ == Map::<ConnectionId, Seq<char>>::empty(),
    {
        ConnectionList::new()
    }
}

} // verus!
