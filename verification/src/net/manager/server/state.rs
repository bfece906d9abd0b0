//! The manager's bookkeeping of its connections and of the channels, tunnels and mounts that go
//! through them, with the answers it gives to requests about them.
use vstd::prelude::*;

use crate::net::common::map::StringMap;
use crate::net::manager::data::info::ConnectionInfo;
use crate::net::manager::data::list::ConnectionList;
use crate::net::manager::data::response::ManagedTunnelInfo;
use crate::net::manager::data::{ConnectionId, ManagedTunnelId, ManagerChannelId};
use crate::protocol::common::error::IoErrorKind;
use crate::protocol::mount::{MountInfo, MountStatus, ResourceKind};
use crate::text::{copy_str, decimal, format_u32, push_str};

verus! {

broadcast use vstd::string::group_string_axioms;

/// A connection as the manager records it.
pub struct ConnectionRecord {
    /// Connection's id
    pub id: ConnectionId,
    /// Raw destination string the connection was made to
    pub destination: String,
    /// Options the connection was made with
    pub options: StringMap,
}

/// A channel opened through a connection.
#[derive(Copy, Clone, Debug, PartialEq, Eq, Structural)]
pub struct ChannelRecord {
    /// Id of the channel
    pub id: ManagerChannelId,
    /// Connection the channel goes through
    pub connection_id: ConnectionId,
}

/// Records kept by id, each belonging to a connection.
pub trait Owned {
    /// Id of the record.
    spec fn key_of(&self) -> u32;

    /// Connection the record belongs to.
    spec fn owner_of(&self) -> u32;

    /// Id of the record.
    fn key(&self) -> (r: u32)
        ensures
            r == self.key_of(),
    ;

    /// Connection the record belongs to.
    fn owner(&self) -> (r: u32)
        ensures
            r == self.owner_of(),
    ;
}

impl Owned for ConnectionRecord {
    open spec fn key_of(&self) -> u32 {
        self.id
    }

    open spec fn owner_of(&self) -> u32 {
        self.id
    }

    fn key(&self) -> (r: u32) {
        self.id
    }

    fn owner(&self) -> (r: u32) {
        self.id
    }
}

impl Owned for ChannelRecord {
    open spec fn key_of(&self) -> u32 {
        self.id
    }

    open spec fn owner_of(&self) -> u32 {
        self.connection_id
    }

    fn key(&self) -> (r: u32) {
        self.id
    }

    fn owner(&self) -> (r: u32) {
        self.connection_id
    }
}

impl Owned for ManagedTunnelInfo {
    open spec fn key_of(&self) -> u32 {
        self.id
    }

    open spec fn owner_of(&self) -> u32 {
        self.connection_id
    }

    fn key(&self) -> (r: u32) {
        self.id
    }

    fn owner(&self) -> (r: u32) {
        self.connection_id
    }
}

impl Owned for MountInfo {
    open spec fn key_of(&self) -> u32 {
        self.id
    }

    open spec fn owner_of(&self) -> u32 {
        self.connection_id
    }

    fn key(&self) -> (r: u32) {
        self.id
    }

    fn owner(&self) -> (r: u32) {
        self.connection_id
    }
}

/// The records that do not belong to the connection, in order.
pub open spec fn not_owned_by<T: Owned>(s: Seq<T>, owner: u32) -> Seq<T>
    decreases s.len(),
{
    if s.len() == 0 {
        s
    } else {
        let sub = not_owned_by(s.drop_last(), owner);
        if s.last().owner_of() != owner {
            sub.push(s.last())
        } else {
            sub
        }
    }
}

/// The ids of the records that belong to the connection, in order.
pub open spec fn keys_owned_by<T: Owned>(s: Seq<T>, owner: u32) -> Seq<u32>
    decreases s.len(),
{
    if s.len() == 0 {
        Seq::empty()
    } else {
        let sub = keys_owned_by(s.drop_last(), owner);
        if s.last().owner_of() == owner {
            sub.push(s.last().key_of())
        } else {
            sub
        }
    }
}

/// The records without the one with the given id (the first one, if several have it).
pub open spec fn without_key<T: Owned>(s: Seq<T>, key: u32) -> Seq<T> {
    match index_of_key(s, key) {
        Some(i) => s.remove(i),
        None => s,
    }
}

/// Dropping the records of a connection from records with distinct ids leaves distinct ids.
proof fn lemma_not_owned_unique<T: Owned>(s: Seq<T>, owner: u32)
    requires
        unique_keys(s),
    ensures
        unique_keys(not_owned_by(s, owner)),
    decreases s.len(),
{
    if s.len() > 0 {
        let d = s.drop_last();
        assert(unique_keys(d)) by {
            assert forall|i: int, j: int| 0 <= i < j < d.len() implies d[i].key_of()
                != d[j].key_of() by {
                assert(d[i] == s[i] && d[j] == s[j]);
            }
        }
        lemma_not_owned_unique(d, owner);
        lemma_not_owned_by(d, owner);
        let sub = not_owned_by(d, owner);
        if s.last().owner_of() != owner {
            let r = sub.push(s.last());
            assert forall|i: int, j: int| 0 <= i < j < r.len() implies r[i].key_of()
                != r[j].key_of() by {
                if j == r.len() - 1 {
                    assert(sub.contains(r[i]));
                    assert(d.contains(r[i]));
                    let k = choose|k: int| 0 <= k < d.len() && d[k] == r[i];
                    assert(s[k] == r[i]);
                    assert(r[j] == s[s.len() - 1]);
                } else {
                    assert(r[i] == sub[i] && r[j] == sub[j]);
                }
            }
        }
    }
}

/// Unmounting ids from mounts with distinct ids leaves mounts with distinct ids.
proof fn lemma_unmount_unique(done: Seq<u32>, mounts: Seq<MountInfo>, ids: Seq<u32>)
    requires
        unique_keys(mounts),
    ensures
        unique_keys(unmount_from(done, mounts, ids).1),
    decreases ids.len(),
{
    if ids.len() > 0 {
        if has_key(mounts, ids[0]) {
            lemma_without_key_unique(mounts, ids[0]);
            lemma_unmount_unique(done.push(ids[0]), without_key(mounts, ids[0]), ids.drop_first());
        } else {
            lemma_unmount_unique(done, mounts, ids.drop_first());
        }
    }
}

/// Position of the first record with the given id.
pub open spec fn index_of_key<T: Owned>(s: Seq<T>, key: u32) -> Option<int>
    decreases s.len(),
{
    if s.len() == 0 {
        None
    } else if s[0].key_of() == key {
        Some(0)
    } else {
        match index_of_key(s.drop_first(), key) {
            Some(i) => Some(i + 1),
            None => None,
        }
    }
}

/// The destination of each connection, by id; a later record of an id overrides an earlier one.
pub open spec fn destinations(s: Seq<ConnectionRecord>) -> Map<ConnectionId, Seq<char>>
    decreases s.len(),
{
    if s.len() == 0 {
        Map::empty()
    } else {
        destinations(s.drop_last()).insert(s.last().id, s.last().destination@)
    }
}

/// Unmounting the ids in order, starting from the ids already unmounted and the mounts left:
/// each id of a mount that is there is unmounted and recorded, the others are skipped.
pub open spec fn unmount_from(done: Seq<u32>, mounts: Seq<MountInfo>, ids: Seq<u32>) -> (
    Seq<u32>,
    Seq<MountInfo>,
)
    decreases ids.len(),
{
    if ids.len() == 0 {
        (done, mounts)
    } else if has_key(mounts, ids[0]) {
        unmount_from(done.push(ids[0]), without_key(mounts, ids[0]), ids.drop_first())
    } else {
        unmount_from(done, mounts, ids.drop_first())
    }
}

/// The ids unmounted and the mounts left when unmounting the ids in order.
pub open spec fn unmount_all(mounts: Seq<MountInfo>, ids: Seq<u32>) -> (Seq<u32>, Seq<MountInfo>) {
    unmount_from(Seq::empty(), mounts, ids)
}

/// Whether no two records have the same id.
pub open spec fn unique_keys<T: Owned>(s: Seq<T>) -> bool {
    forall|i: int, j: int| 0 <= i < j < s.len() ==> s[i].key_of() != s[j].key_of()
}

/// Removing the first record with an id from records with distinct ids leaves distinct ids and
/// no record with that id.
proof fn lemma_without_key_unique<T: Owned>(s: Seq<T>, key: u32)
    requires
        unique_keys(s),
    ensures
        unique_keys(without_key(s, key)),
        !has_key(without_key(s, key), key),
{
    lemma_index_of_key(s, key);
    match index_of_key(s, key) {
        Some(i) => {
            let t = s.remove(i);
            assert forall|a: int, b: int| 0 <= a < b < t.len() implies t[a].key_of() != t[b].key_of() by {
                let a2 = if a < i { a } else { a + 1 };
                let b2 = if b < i { b } else { b + 1 };
                assert(t[a] == s[a2]);
                assert(t[b] == s[b2]);
            }
            if has_key(t, key) {
                let a = choose|a: int| 0 <= a < t.len() && t[a].key_of() == key;
                let a2 = if a < i { a } else { a + 1 };
                assert(t[a] == s[a2]);
            }
        },
        None => {},
    }
}

/// Adding a record with an id that no record has keeps the ids distinct.
proof fn lemma_push_unique<T: Owned>(s: Seq<T>, x: T)
    requires
        unique_keys(s),
        !has_key(s, x.key_of()),
    ensures
        unique_keys(s.push(x)),
{
    let t = s.push(x);
    assert forall|a: int, b: int| 0 <= a < b < t.len() implies t[a].key_of() != t[b].key_of() by {
        assert(t[a] == s[a]);
        if b < s.len() {
            assert(t[b] == s[b]);
        }
    }
}

/// Whether a record with the given id is there.
pub open spec fn has_key<T: Owned>(s: Seq<T>, key: u32) -> bool {
    exists|i: int| 0 <= i < s.len() && s[i].key_of() == key
}

/// Whether some record belongs to the connection.
pub open spec fn has_owner<T: Owned>(s: Seq<T>, owner: u32) -> bool {
    exists|i: int| 0 <= i < s.len() && s[i].owner_of() == owner
}

/// Killing a connection leaves no record that belongs to it, and keeps every record that
/// belongs to another connection.
pub proof fn lemma_not_owned_by<T: Owned>(s: Seq<T>, owner: u32)
    ensures
        !has_owner(not_owned_by(s, owner), owner),
        forall|x: T| s.contains(x) && x.owner_of() != owner ==> #[trigger] not_owned_by(
            s,
            owner,
        ).contains(x),
        forall|x: T| #[trigger] not_owned_by(s, owner).contains(x) ==> s.contains(x),
    decreases s.len(),
{
    if s.len() > 0 {
        let d = s.drop_last();
        lemma_not_owned_by(d, owner);
        let sub = not_owned_by(d, owner);
        let r = not_owned_by(s, owner);
        assert forall|x: T| s.contains(x) && x.owner_of() != owner implies r.contains(x) by {
            let i = choose|i: int| 0 <= i < s.len() && s[i] == x;
            if i < s.len() - 1 {
                assert(d[i] == x);
                assert(d.contains(x));
                assert(sub.contains(x));
                let j = choose|j: int| 0 <= j < sub.len() && sub[j] == x;
                if s.last().owner_of() != owner {
                    assert(r[j] == x);
                }
            } else {
                assert(r[r.len() - 1] == x);
            }
        }
        assert forall|x: T| #[trigger] r.contains(x) implies s.contains(x) by {
            let j = choose|j: int| 0 <= j < r.len() && r[j] == x;
            if j < sub.len() {
                assert(sub[j] == x);
                assert(sub.contains(x));
                let i = choose|i: int| 0 <= i < d.len() && d[i] == x;
                assert(s[i] == x);
            } else {
                assert(s[s.len() - 1] == x);
            }
        }
        if has_owner(r, owner) {
            let j = choose|j: int| 0 <= j < r.len() && r[j].owner_of() == owner;
            if j < sub.len() {
                assert(sub[j] == r[j]);
            }
        }
    }
}

/// `index_of_key` finds the first record with the id.
pub proof fn lemma_index_of_key<T: Owned>(s: Seq<T>, key: u32)
    ensures
        match index_of_key(s, key) {
            Some(i) => 0 <= i < s.len() && s[i].key_of() == key && forall|j: int|
                0 <= j < i ==> s[j].key_of() != key,
            None => !has_key(s, key),
        },
    decreases s.len(),
{
    if s.len() > 0 && s[0].key_of() != key {
        lemma_index_of_key(s.drop_first(), key);
        match index_of_key(s.drop_first(), key) {
            Some(i) => {
                assert forall|j: int| 0 <= j < i + 1 implies s[j].key_of() != key by {
                    if j > 0 {
                        assert(s[j] == s.drop_first()[j - 1]);
                    }
                }
            },
            None => {
                if has_key(s, key) {
                    let j = choose|j: int| 0 <= j < s.len() && s[j].key_of() == key;
                    assert(s.drop_first()[j - 1] == s[j]);
                }
            },
        }
    }
}

/// Finds the position of the first record with the given id.
fn find_key<T: Owned>(v: &Vec<T>, key: u32) -> (r: Option<usize>)
    ensures
        match r {
            Some(i) => index_of_key(v@, key) == Some(i as int),
            None => index_of_key(v@, key) is None,
        },
{
    proof {
        lemma_index_of_key(v@, key);
    }
    let mut i: usize = 0;
    while i < v.len()
        invariant
            i <= v@.len(),
            forall|j: int| 0 <= j < i ==> v@[j].key_of() != key,
            match index_of_key(v@, key) {
                Some(k) => 0 <= k < v@.len() && v@[k].key_of() == key && forall|j: int|
                    0 <= j < k ==> v@[j].key_of() != key,
                None => !has_key(v@, key),
            },
        decreases v@.len() - i,
    {
        if v[i].key() == key {
            proof {
                if let Some(k) = index_of_key(v@, key) {
                    if k > i {
                        assert(v@[i as int].key_of() == key);
                    }
                }
            }
            return Some(i);
        }
        i = i + 1;
    }
    proof {
        if let Some(k) = index_of_key(v@, key) {
            assert(v@[k].key_of() != key);
        }
    }
    None
}

/// Dropping the first element of two equal tails keeps them equal.
proof fn lemma_tail_step<T>(a: Seq<T>, b: Seq<T>, i: int, j: int)
    requires
        0 <= i < a.len(),
        0 <= j <= b.len(),
        a.subrange(i, a.len() as int) == b.subrange(j, b.len() as int),
    ensures
        j < b.len(),
        a[i] == b[j],
        a.subrange(i + 1, a.len() as int) == b.subrange(j + 1, b.len() as int),
{
    let ta = a.subrange(i, a.len() as int);
    let tb = b.subrange(j, b.len() as int);
    assert(ta.len() == tb.len());
    assert(tb.len() == b.len() - j);
    assert(ta[0] == a[i]);
    assert(tb[0] == b[j]);
    assert forall|k: int| 0 <= k < a.len() - i - 1 implies #[trigger] a.subrange(i + 1, a.len() as int)[k]
        == b.subrange(j + 1, b.len() as int)[k] by {
        assert(ta[k + 1] == tb[k + 1]);
        assert(ta[k + 1] == a[i + 1 + k]);
        assert(tb[k + 1] == b[j + 1 + k]);
        assert(a.subrange(i + 1, a.len() as int)[k] == a[i + 1 + k]);
        assert(b.subrange(j + 1, b.len() as int)[k] == b[j + 1 + k]);
    }
    assert(a.subrange(i + 1, a.len() as int) =~= b.subrange(j + 1, b.len() as int));
}

/// Removes every record that belongs to the connection, keeping the others in order, and
/// returns the ids of the removed ones in order.
fn remove_owned<T: Owned>(v: &mut Vec<T>, owner: u32) -> (r: Vec<u32>)
    ensures
        final(v)@ == not_owned_by(old(v)@, owner),
        r@ == keys_owned_by(old(v)@, owner),
{
    let ghost orig = v@;
    let ghost mut j: int = 0;
    let mut removed: Vec<u32> = Vec::new();
    let mut i: usize = 0;
    while i < v.len()
        invariant
            0 <= j <= orig.len(),
            i <= v@.len(),
            v@.subrange(0, i as int) == not_owned_by(orig.subrange(0, j), owner),
            v@.subrange(i as int, v@.len() as int) == orig.subrange(j, orig.len() as int),
            removed@ == keys_owned_by(orig.subrange(0, j), owner),
        decreases v@.len() - i,
    {
        let ghost before = v@;
        proof {
            lemma_tail_step(before, orig, i as int, j);
            assert(orig.subrange(0, j + 1).drop_last() =~= orig.subrange(0, j));
            assert(orig.subrange(0, j + 1).last() == orig[j]);
        }
        if v[i].owner() == owner {
            let x = v.remove(i);
            removed.push(x.key());
            proof {
                assert(v@.subrange(0, i as int) =~= before.subrange(0, i as int));
                assert(v@.subrange(i as int, v@.len() as int) =~= before.subrange(
                    i + 1,
                    before.len() as int,
                ));
                j = j + 1;
            }
        } else {
            proof {
                assert(v@.subrange(0, i + 1) =~= before.subrange(0, i as int).push(before[i as int]));
                j = j + 1;
            }
            i = i + 1;
        }
    }
    proof {
        assert(orig.subrange(j, orig.len() as int).len() == 0);
        assert(orig.subrange(0, j) == orig);
        assert(v@.subrange(0, i as int) == v@);
    }
    removed
}

/// Removes the first record with the given id, returning it.
fn remove_key<T: Owned>(v: &mut Vec<T>, key: u32) -> (r: Option<T>)
    ensures
        final(v)@ == without_key(old(v)@, key),
        match r {
            Some(t) => index_of_key(old(v)@, key) matches Some(i) && t == old(v)@[i],
            None => index_of_key(old(v)@, key) is None,
        },
{
    match find_key(v, key) {
        Some(i) => {
            proof {
                lemma_index_of_key(v@, key);
            }
            Some(v.remove(i))
        },
        None => None,
    }
}

/// An error the manager answers a request with: the kind of I/O error and its description.
#[derive(Clone, Debug, PartialEq, Eq)]
pub struct ManagerError {
    /// Kind of the error
    pub kind: IoErrorKind,
    /// Description of the error
    pub description: String,
}

fn manager_error(kind: IoErrorKind, description: &str) -> (r: ManagerError)
    ensures
        r.kind == kind,
        r.description@ == description@,
{
    ManagerError { kind, description: copy_str(description) }
}

/// Error text when a tunnel is not managed.
pub open spec fn no_tunnel_text(id: u32) -> Seq<char> {
    "No managed tunnel with id "@ + decimal(id as nat)
}

/// The information describes the connection: same id, destination and options.
pub open spec fn describes(info: ConnectionInfo, c: ConnectionRecord) -> bool {
    &&& info.id == c.id
    &&& info.destination@ == c.destination@
    &&& info.options.pairs() == c.options.pairs()
}

/// What the manager tears down when it kills a connection: the ids of the channels, tunnels and
/// mounts that went through it.
#[derive(Clone, Debug, PartialEq, Eq)]
pub struct KillPlan {
    /// Channels to close
    pub channels: Vec<ManagerChannelId>,
    /// Tunnels to abort
    pub tunnels: Vec<ManagedTunnelId>,
    /// Mounts to unmount
    pub mounts: Vec<u32>,
}

/// What a list request asks for.
#[derive(Copy, Clone, Debug, PartialEq, Eq, Structural)]
pub enum ListTarget {
    /// Every kind of resource
    All,
    /// The connections
    Connections,
    /// The mounts
    Mounts,
}

/// A list request that names no resource kind lists every resource; one that names mounts lists
/// mounts; any other lists connections.
pub fn list_target(resources: &Vec<ResourceKind>) -> (r: ListTarget)
    ensures
        r == (if resources@.len() == 0 {
            ListTarget::All
        } else if resources@.contains(ResourceKind::Mount) {
            ListTarget::Mounts
        } else {
            ListTarget::Connections
        }),
{
    if resources.len() == 0 {
        return ListTarget::All;
    }
    let mut i: usize = 0;
    while i < resources.len()
        invariant
            i <= resources@.len(),
            forall|j: int| 0 <= j < i ==> resources@[j] != ResourceKind::Mount,
        decreases resources@.len() - i,
    {
        if resources[i] == ResourceKind::Mount {
            return ListTarget::Mounts;
        }
        i = i + 1;
    }
    ListTarget::Connections
}

/// The manager's records of its connections and of the channels, tunnels and mounts that go
/// through them.
pub struct ManagerState {
    connections: Vec<ConnectionRecord>,
    channels: Vec<ChannelRecord>,
    tunnels: Vec<ManagedTunnelInfo>,
    mounts: Vec<MountInfo>,
}

impl ManagerState {
    /// The connections, in the order they were added.
    pub closed spec fn connections(&self) -> Seq<ConnectionRecord> {
        self.connections@
    }

    /// The open channels.
    pub closed spec fn channels(&self) -> Seq<ChannelRecord> {
        self.channels@
    }

    /// The managed tunnels.
    pub closed spec fn tunnels(&self) -> Seq<ManagedTunnelInfo> {
        self.tunnels@
    }

    /// The mounts.
    pub closed spec fn mounts(&self) -> Seq<MountInfo> {
        self.mounts@
    }

    /// A manager with no connection.
    pub fn new() -> (r: Self)
        ensures
            r.wf(),
            r.connections().len() == 0,
            r.channels().len() == 0,
            r.tunnels().len() == 0,
            r.mounts().len() == 0,
    {
        ManagerState {
            connections: Vec::new(),
            channels: Vec::new(),
            tunnels: Vec::new(),
            mounts: Vec::new(),
        }
    }

    /// Whether there is a connection with the id.
    pub fn has_connection(&self, id: ConnectionId) -> (r: bool)
        ensures
            r == has_key(self.connections(), id),
    {
        proof {
            lemma_index_of_key(self.connections@, id);
        }
        find_key(&self.connections, id).is_some()
    }

    /// Records a new connection; one with the same id is replaced.
    pub fn add_connection(&mut self, id: ConnectionId, destination: String, options: StringMap)
        ensures
            old(self).wf() ==> final(self).wf(),
            final(self).connections() == without_key(old(self).connections(), id).push(
                ConnectionRecord { id, destination, options },
            ),
            final(self).channels() == old(self).channels(),
            final(self).tunnels() == old(self).tunnels(),
            final(self).mounts() == old(self).mounts(),
    {
        remove_key(&mut self.connections, id);
        proof {
            if old(self).wf() {
                lemma_without_key_unique(old(self).connections@, id);
            }
        }
        self.connections.push(ConnectionRecord { id, destination, options });
        proof {
            if old(self).wf() {
                lemma_push_unique(without_key(old(self).connections@, id), self.connections@.last());
            }
        }
    }

    /// Retrieves information about the connection with the given id; fails with
    /// `NotConnected` when there is none.
    pub fn info(&self, id: ConnectionId) -> (r: Result<ConnectionInfo, ManagerError>)
        ensures
            match r {
                Ok(info) => index_of_key(self.connections(), id) matches Some(i) && info.id == id
                    && info.destination@ == self.connections()[i].destination@ && info.options.pairs()
                    == self.connections()[i].options.pairs(),
                Err(e) => !has_key(self.connections(), id) && e.kind == IoErrorKind::NotConnected
                    && e.description@ == "No connection found"@,
            },
    {
        proof {
            lemma_index_of_key(self.connections@, id);
        }
        match find_key(&self.connections, id) {
            Some(i) => {
                let c = &self.connections[i];
                Ok(
                    ConnectionInfo {
                        id: c.id,
                        destination: c.destination.clone(),
                        options: c.options.clone_map(),
                    },
                )
            },
            None => Err(manager_error(IoErrorKind::NotConnected, "No connection found")),
        }
    }

    /// Whether the records are consistent: no two connections, channels, tunnels or mounts have
    /// the same id.
    pub closed spec fn wf(&self) -> bool {
        &&& unique_keys(self.connections@)
        &&& unique_keys(self.channels@)
        &&& unique_keys(self.tunnels@)
        &&& unique_keys(self.mounts@)
    }

    /// The list of connections: the destination of each, by id.
    pub fn list(&self) -> (r: ConnectionList)
        ensures
            r@ == destinations(self.connections()),
    {
        let mut list = ConnectionList::new();
        let mut i: usize = 0;
        while i < self.connections.len()
            invariant
                i <= self.connections@.len(),
                list@ == destinations(self.connections@.subrange(0, i as int)),
            decreases self.connections@.len() - i,
        {
            let c = &self.connections[i];
            list.insert(c.id, c.destination.clone());
            proof {
                let post = self.connections@.subrange(0, i + 1);
                assert(post.drop_last() =~= self.connections@.subrange(0, i as int));
                assert(post.last() == *c);
            }
            i = i + 1;
        }
        proof {
            assert(self.connections@.subrange(0, i as int) =~= self.connections@);
        }
        list
    }

    /// Information about every connection, in the order they were added.
    pub fn connection_infos(&self) -> (r: Vec<ConnectionInfo>)
        ensures
            r@.len() == self.connections().len(),
            forall|i: int|
                0 <= i < r@.len() ==> describes(#[trigger] r@[i], self.connections()[i]),
    {
        let mut r: Vec<ConnectionInfo> = Vec::new();
        let mut i: usize = 0;
        while i < self.connections.len()
            invariant
                i <= self.connections@.len(),
                r@.len() == i,
                forall|j: int| 0 <= j < i ==> describes(#[trigger] r@[j], self.connections@[j]),
            decreases self.connections@.len() - i,
        {
            let c = &self.connections[i];
            r.push(
                ConnectionInfo {
                    id: c.id,
                    destination: c.destination.clone(),
                    options: c.options.clone_map(),
                },
            );
            i = i + 1;
        }
        r
    }

    /// Kills the connection with the given id: forgets it, and the channels, tunnels and mounts
    /// that go through it, returning their ids for teardown; fails with `NotConnected` when there
    /// is no such connection.
    pub fn kill(&mut self, id: ConnectionId) -> (r: Result<KillPlan, ManagerError>)
        ensures
            old(self).wf() ==> final(self).wf(),
            match r {
                Ok(plan) => has_key(old(self).connections(), id) && final(self).connections()
                    == without_key(old(self).connections(), id) && final(self).channels()
                    == not_owned_by(old(self).channels(), id) && final(self).tunnels()
                    == not_owned_by(old(self).tunnels(), id) && final(self).mounts()
                    == not_owned_by(old(self).mounts(), id) && plan.channels@ == keys_owned_by(
                    old(self).channels(),
                    id,
                ) && plan.tunnels@ == keys_owned_by(old(self).tunnels(), id) && plan.mounts@
                    == keys_owned_by(old(self).mounts(), id),
                Err(e) => !has_key(old(self).connections(), id) && e.kind
                    == IoErrorKind::NotConnected && e.description@ == "No connection found"@
                    && final(self).connections() == old(self).connections() && final(self).channels()
                    == old(self).channels() && final(self).tunnels() == old(self).tunnels()
                    && final(self).mounts() == old(self).mounts(),
            },
    {
        proof {
            lemma_index_of_key(self.connections@, id);
        }
        match remove_key(&mut self.connections, id) {
            None => Err(manager_error(IoErrorKind::NotConnected, "No connection found")),
            Some(_) => {
                proof {
                    if old(self).wf() {
                        lemma_without_key_unique(old(self).connections@, id);
                    }
                }
                let channels = remove_owned(&mut self.channels, id);
                let tunnels = remove_owned(&mut self.tunnels, id);
                let mounts = remove_owned(&mut self.mounts, id);
                proof {
                    if old(self).wf() {
                        lemma_not_owned_unique(old(self).channels@, id);
                        lemma_not_owned_unique(old(self).tunnels@, id);
                        lemma_not_owned_unique(old(self).mounts@, id);
                    }
                }
                Ok(KillPlan { channels, tunnels, mounts })
            },
        }
    }

    /// Records a channel opened through a connection; fails with `NotConnected` when the
    /// connection does not exist.
    pub fn open_channel(&mut self, channel_id: ManagerChannelId, connection_id: ConnectionId) -> (r:
        Result<(), ManagerError>)
        ensures
            match r {
                Ok(()) => has_key(old(self).connections(), connection_id) && final(self).channels()
                    == without_key(old(self).channels(), channel_id).push(
                    ChannelRecord { id: channel_id, connection_id },
                ),
                Err(e) => !has_key(old(self).connections(), connection_id) && e.kind
                    == IoErrorKind::NotConnected && e.description@ == "Connection does not exist"@
                    && final(self).channels() == old(self).channels(),
            },
            final(self).connections() == old(self).connections(),
            final(self).tunnels() == old(self).tunnels(),
            final(self).mounts() == old(self).mounts(),
            old(self).wf() ==> final(self).wf(),
    {
        if !self.has_connection(connection_id) {
            return Err(manager_error(IoErrorKind::NotConnected, "Connection does not exist"));
        }
        remove_key(&mut self.channels, channel_id);
        self.channels.push(ChannelRecord { id: channel_id, connection_id });
        proof {
            if old(self).wf() {
                lemma_without_key_unique(old(self).channels@, channel_id);
                lemma_push_unique(
                    without_key(old(self).channels@, channel_id),
                    ChannelRecord { id: channel_id, connection_id },
                );
            }
        }
        Ok(())
    }

    /// The connection a channel goes through; fails with `NotConnected` when the channel is not
    /// open.
    pub fn channel_connection(&self, channel_id: ManagerChannelId) -> (r: Result<
        ConnectionId,
        ManagerError,
    >)
        ensures
            match r {
                Ok(c) => index_of_key(self.channels(), channel_id) matches Some(i)
                    && self.channels()[i].connection_id == c,
                Err(e) => !has_key(self.channels(), channel_id) && e.kind
                    == IoErrorKind::NotConnected && e.description@
                    == "Channel is not open or does not exist"@,
            },
    {
        proof {
            lemma_index_of_key(self.channels@, channel_id);
        }
        match find_key(&self.channels, channel_id) {
            Some(i) => Ok(self.channels[i].connection_id),
            None => Err(
                manager_error(IoErrorKind::NotConnected, "Channel is not open or does not exist"),
            ),
        }
    }

    /// Forgets a closed channel; fails with `NotConnected` when it is not open.
    pub fn close_channel(&mut self, channel_id: ManagerChannelId) -> (r: Result<
        ChannelRecord,
        ManagerError,
    >)
        ensures
            final(self).channels() == without_key(old(self).channels(), channel_id),
            match r {
                Ok(c) => index_of_key(old(self).channels(), channel_id) matches Some(i) && c == old(
                    self,
                ).channels()[i],
                Err(e) => !has_key(old(self).channels(), channel_id) && e.kind
                    == IoErrorKind::NotConnected && e.description@
                    == "Channel is not open or does not exist"@,
            },
            final(self).connections() == old(self).connections(),
            final(self).tunnels() == old(self).tunnels(),
            final(self).mounts() == old(self).mounts(),
            old(self).wf() ==> final(self).wf(),
    {
        proof {
            lemma_index_of_key(self.channels@, channel_id);
            if old(self).wf() {
                lemma_without_key_unique(old(self).channels@, channel_id);
            }
        }
        match remove_key(&mut self.channels, channel_id) {
            Some(c) => Ok(c),
            None => Err(
                manager_error(IoErrorKind::NotConnected, "Channel is not open or does not exist"),
            ),
        }
    }

    /// Records a tunnel that was started; one with the same id is replaced.
    pub fn add_tunnel(&mut self, info: ManagedTunnelInfo)
        ensures
            final(self).tunnels() == without_key(old(self).tunnels(), info.id).push(info),
            final(self).connections() == old(self).connections(),
            final(self).channels() == old(self).channels(),
            final(self).mounts() == old(self).mounts(),
            old(self).wf() ==> final(self).wf(),
    {
        remove_key(&mut self.tunnels, info.id);
        proof {
            if old(self).wf() {
                lemma_without_key_unique(old(self).tunnels@, info.id);
                lemma_push_unique(without_key(old(self).tunnels@, info.id), info);
            }
        }
        self.tunnels.push(info);
    }

    /// Forgets a tunnel that is to be closed, returning it; fails with `NotFound` when no tunnel
    /// has the id.
    pub fn close_tunnel(&mut self, id: ManagedTunnelId) -> (r: Result<
        ManagedTunnelInfo,
        ManagerError,
    >)
        ensures
            final(self).tunnels() == without_key(old(self).tunnels(), id),
            match r {
                Ok(t) => index_of_key(old(self).tunnels(), id) matches Some(i) && t == old(
                    self,
                ).tunnels()[i],
                Err(e) => !has_key(old(self).tunnels(), id) && e.kind == IoErrorKind::NotFound
                    && e.description@ == no_tunnel_text(id),
            },
            final(self).connections() == old(self).connections(),
            final(self).channels() == old(self).channels(),
            final(self).mounts() == old(self).mounts(),
            old(self).wf() ==> final(self).wf(),
    {
        proof {
            lemma_index_of_key(self.tunnels@, id);
            if old(self).wf() {
                lemma_without_key_unique(old(self).tunnels@, id);
            }
        }
        match remove_key(&mut self.tunnels, id) {
            Some(t) => Ok(t),
            None => {
                let mut description = copy_str("No managed tunnel with id ");
                push_str(&mut description, format_u32(id).as_str());
                Err(ManagerError { kind: IoErrorKind::NotFound, description })
            },
        }
    }

    /// The managed tunnels, in the order they were started.
    pub fn list_tunnels(&self) -> (r: &Vec<ManagedTunnelInfo>)
        ensures
            r@ == self.tunnels(),
    {
        &self.tunnels
    }

    /// Records a mount that was made; one with the same id is replaced.
    pub fn add_mount(&mut self, info: MountInfo)
        ensures
            final(self).mounts() == without_key(old(self).mounts(), info.id).push(info),
            final(self).connections() == old(self).connections(),
            final(self).channels() == old(self).channels(),
            final(self).tunnels() == old(self).tunnels(),
            old(self).wf() ==> final(self).wf(),
    {
        remove_key(&mut self.mounts, info.id);
        proof {
            if old(self).wf() {
                lemma_without_key_unique(old(self).mounts@, info.id);
                lemma_push_unique(without_key(old(self).mounts@, info.id), info);
            }
        }
        self.mounts.push(info);
    }

    /// Forgets the mounts with the given ids, returning the ids of the mounts that were there, in
    /// the order asked; ids of no mount are skipped.
    pub fn unmount(&mut self, ids: &Vec<u32>) -> (r: Vec<u32>)
        ensures
            (r@, final(self).mounts()) == unmount_all(old(self).mounts(), ids@),
            final(self).connections() == old(self).connections(),
            final(self).channels() == old(self).channels(),
            final(self).tunnels() == old(self).tunnels(),
            old(self).wf() ==> final(self).wf(),
    {
        proof {
            if old(self).wf() {
                lemma_unmount_unique(Seq::empty(), old(self).mounts@, ids@);
            }
        }
        let mut removed: Vec<u32> = Vec::new();
        let mut i: usize = 0;
        proof {
            assert(ids@.subrange(0, ids@.len() as int) =~= ids@);
            assert(removed@ =~= Seq::<u32>::empty());
        }
        while i < ids.len()
            invariant
                i <= ids@.len(),
                unmount_all(old(self).mounts(), ids@) == unmount_from(
                    removed@,
                    self.mounts@,
                    ids@.subrange(i as int, ids@.len() as int),
                ),
                self.connections@ == old(self).connections@,
                self.channels@ == old(self).channels@,
                self.tunnels@ == old(self).tunnels@,
            decreases ids@.len() - i,
        {
            let id = ids[i];
            let ghost rest = ids@.subrange(i as int, ids@.len() as int);
            proof {
                lemma_index_of_key(self.mounts@, id);
                assert(rest[0] == id);
                assert(rest.drop_first() =~= ids@.subrange(i + 1, ids@.len() as int));
            }
            if remove_key(&mut self.mounts, id).is_some() {
                removed.push(id);
            }
            i = i + 1;
        }
        removed
    }

    /// The mounts, in the order they were made.
    pub fn list_mounts(&self) -> (r: &Vec<MountInfo>)
        ensures
            r@ == self.mounts(),
    {
        &self.mounts
    }

    /// Sets the status of a mount, returning whether a mount has the id.
    pub fn set_mount_status(&mut self, id: u32, status: MountStatus) -> (r: bool)
        ensures
            r == has_key(old(self).mounts(), id),
            match index_of_key(old(self).mounts(), id) {
                Some(i) => final(self).mounts() == old(self).mounts().update(
                    i,
                    MountInfo { status, ..old(self).mounts()[i] },
                ),
                None => final(self).mounts() == old(self).mounts(),
            },
            final(self).connections() == old(self).connections(),
            final(self).channels() == old(self).channels(),
            final(self).tunnels() == old(self).tunnels(),
            old(self).wf() ==> final(self).wf(),
    {
        proof {
            lemma_index_of_key(self.mounts@, id);
        }
        match find_key(&self.mounts, id) {
            Some(i) => {
                let m = self.mounts.remove(i);
                let updated = MountInfo { status, ..m };
                self.mounts.insert(i, updated);
                proof {
                    let o = old(self).mounts@;
                    assert(self.mounts@ =~= o.update(i as int, updated));
                    if old(self).wf() {
                        assert forall|a: int, b: int| 0 <= a < b < o.len() implies self.mounts@[
                            a].key_of() != self.mounts@[b].key_of() by {
                            assert(self.mounts@[a].key_of() == o[a].key_of());
                            assert(self.mounts@[b].key_of() == o[b].key_of());
                        }
                    }
                }
                true
            },
            None => false,
        }
    }
}

} // verus!
