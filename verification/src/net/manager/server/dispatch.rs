//! How the manager handles each request: what it answers at once from its records, and what work
//! it must do first (through plugins, connections, channels and tasks) before answering.
use vstd::prelude::*;

use crate::net::common::map::StringMap;
use crate::net::manager::data::event::EventTopic;
use crate::net::manager::data::request::ManagerRequest;
use crate::net::manager::data::info::ConnectionInfo;
use crate::net::manager::data::response::{ManagedTunnelInfo, ManagerResponse, ResourceInfo};
use crate::net::manager::data::{
    ConnectionId, ManagedTunnelId, ManagerAuthenticationId, ManagerChannelId,
};
use crate::net::manager::server::authentication::AuthRegistry;
use crate::net::manager::server::plugins::no_mount_plugin_text;
use crate::net::manager::server::state::{
    describes, destinations, has_key, index_of_key, keys_owned_by, lemma_index_of_key, list_target,
    no_tunnel_text,
    not_owned_by, unmount_all, without_key, ConnectionRecord, KillPlan, ListTarget, ManagerError,
    ManagerState,
};
use crate::protocol::mount::{MountConfig, MountInfo, MountStatus, ResourceKind};
use crate::text::{copy_str, push_str, str_eq};

verus! {

broadcast use vstd::string::group_string_axioms;

/// What the manager does with a request.
pub enum Handling {
    /// Answer at once with this response.
    Respond(ManagerResponse),
    /// Answer with the manager's version.
    Version,
    /// Launch a server at the destination through the plugin of its scheme, and answer with the
    /// destination it gives.
    Launch { destination: String, options: StringMap },
    /// Connect to the destination through the plugin of its scheme, and answer with the new
    /// connection's id.
    Connect { destination: String, options: StringMap },
    /// Hand the answer to the authentication question that waited for it; nothing is answered.
    Authenticate { id: ManagerAuthenticationId, msg: Vec<u8> },
    /// Open a channel through the connection, record it, and answer with its id.
    OpenChannel { connection_id: ConnectionId },
    /// Send the request through the open channel; nothing is answered unless that fails.
    Send { channel_id: ManagerChannelId, request: Vec<u8> },
    /// Close the channel, already forgotten, and answer that it closed.
    CloseChannel { channel_id: ManagerChannelId },
    /// Tear down what the plan names and the connection, already forgotten; answer `Killed`.
    Kill { connection_id: ConnectionId, plan: KillPlan },
    /// Start a forward tunnel through the connection, record it and answer with it.
    ForwardTunnel {
        connection_id: ConnectionId,
        bind_port: u16,
        remote_host: String,
        remote_port: u16,
    },
    /// Start a reverse tunnel through the connection, record it and answer with it.
    ReverseTunnel {
        connection_id: ConnectionId,
        remote_port: u16,
        local_host: String,
        local_port: u16,
    },
    /// Abort the tunnel, already forgotten, and answer that it closed.
    CloseTunnel { id: ManagedTunnelId },
    /// Mount through the connection, whose destination is given, with the backend's plugin.
    Mount {
        connection_id: ConnectionId,
        backend: String,
        config: MountConfig,
        destination: String,
    },
    /// Unmount the mounts, already forgotten, and answer with the ids of those unmounted
    /// successfully (see `unmounted_response`).
    Unmount { ids: Vec<u32> },
    /// Forward the events of the topics to the client, and answer that it subscribed.
    Subscribe { topics: Vec<EventTopic> },
    /// Start re-establishing the connection, and answer that it started.
    Reconnect { connection_id: ConnectionId },
}

/// The handling answers at once with an error of this description.
pub open spec fn answers_error(h: Handling, description: Seq<char>) -> bool {
    h matches Handling::Respond(ManagerResponse::Error { description: d }) && d@ == description
}

/// A copy of a mount's status.
fn clone_status(s: &MountStatus) -> (r: MountStatus)
    ensures
        r == *s,
{
    match s {
        MountStatus::Active => MountStatus::Active,
        MountStatus::Reconnecting => MountStatus::Reconnecting,
        MountStatus::Disconnected => MountStatus::Disconnected,
        MountStatus::Failed { reason } => MountStatus::Failed { reason: reason.clone() },
    }
}

/// Copies of the mounts, in order.
fn clone_mounts(v: &Vec<MountInfo>) -> (r: Vec<MountInfo>)
    ensures
        r@ == v@,
{
    let mut r: Vec<MountInfo> = Vec::new();
    let mut i: usize = 0;
    while i < v.len()
        invariant
            i <= v@.len(),
            r@ == v@.subrange(0, i as int),
        decreases v@.len() - i,
    {
        let m = &v[i];
        r.push(
            MountInfo {
                id: m.id,
                connection_id: m.connection_id,
                backend: m.backend.clone(),
                mount_point: m.mount_point.clone(),
                remote_root: m.remote_root.clone(),
                readonly: m.readonly,
                status: clone_status(&m.status),
            },
        );
        proof {
            assert(r@ =~= v@.subrange(0, i + 1));
        }
        i = i + 1;
    }
    proof {
        assert(v@.subrange(0, i as int) =~= v@);
    }
    r
}

/// Copies of the tunnels, in order.
fn clone_tunnels(v: &Vec<ManagedTunnelInfo>) -> (r: Vec<ManagedTunnelInfo>)
    ensures
        r@ == v@,
{
    let mut r: Vec<ManagedTunnelInfo> = Vec::new();
    let mut i: usize = 0;
    while i < v.len()
        invariant
            i <= v@.len(),
            r@ == v@.subrange(0, i as int),
        decreases v@.len() - i,
    {
        let t = &v[i];
        r.push(
            ManagedTunnelInfo {
                id: t.id,
                connection_id: t.connection_id,
                direction: t.direction,
                bind_port: t.bind_port,
                remote_host: t.remote_host.clone(),
                remote_port: t.remote_port,
            },
        );
        proof {
            assert(r@ =~= v@.subrange(0, i + 1));
        }
        i = i + 1;
    }
    proof {
        assert(v@.subrange(0, i as int) =~= v@);
    }
    r
}

/// Whether one of the names is the given one.
pub open spec fn has_name(names: Seq<String>, name: Seq<char>) -> bool {
    exists|i: int| 0 <= i < names.len() && (#[trigger] names[i])@ == name
}

/// Whether a backend is among the registered ones.
fn has_backend(backends: &Vec<String>, backend: &str) -> (r: bool)
    ensures
        r == has_name(backends@, backend@),
{
    let mut i: usize = 0;
    while i < backends.len()
        invariant
            i <= backends@.len(),
            forall|j: int| 0 <= j < i ==> (#[trigger] backends@[j])@ != backend@,
        decreases backends@.len() - i,
    {
        if str_eq(backends[i].as_str(), backend) {
            return true;
        }
        i = i + 1;
    }
    false
}

/// Entry `j` of the list describes connection `j`.
pub open spec fn lists_connection(
    r: Seq<ResourceInfo>,
    connections: Seq<ConnectionRecord>,
    j: int,
) -> bool {
    r[j] matches ResourceInfo::Connection(info) && describes(info, connections[j])
}

/// The list holds every resource: the connections, each described, then the tunnels, then the
/// mounts, each in its order.
pub open spec fn lists_every_resource(
    r: Seq<ResourceInfo>,
    connections: Seq<ConnectionRecord>,
    tunnels: Seq<ManagedTunnelInfo>,
    mounts: Seq<MountInfo>,
) -> bool {
    &&& r.len() == connections.len() + tunnels.len() + mounts.len()
    &&& forall|j: int| 0 <= j < connections.len() ==> #[trigger] lists_connection(r, connections, j)
    &&& forall|i: int|
        0 <= i < tunnels.len() ==> r[connections.len() + i] == ResourceInfo::Tunnel(
            #[trigger] tunnels[i],
        )
    &&& forall|i: int|
        0 <= i < mounts.len() ==> r[connections.len() + tunnels.len() + i] == ResourceInfo::Mount(
            #[trigger] mounts[i],
        )
}

/// Every resource of the manager, as `lists_every_resource` describes.
fn resource_listing(state: &ManagerState) -> (r: Vec<ResourceInfo>)
    ensures
        lists_every_resource(r@, state.connections(), state.tunnels(), state.mounts()),
{
    let infos = state.connection_infos();
    let tunnels = clone_tunnels(state.list_tunnels());
    let mounts = clone_mounts(state.list_mounts());
    let ghost c = state.connections();
    let ghost t = state.tunnels();
    let ghost m = state.mounts();
    let mut r: Vec<ResourceInfo> = Vec::new();
    let mut i: usize = 0;
    while i < infos.len()
        invariant
            i <= infos@.len(),
            infos@.len() == c.len(),
            r@.len() == i,
            forall|j: int| 0 <= j < infos@.len() ==> describes(#[trigger] infos@[j], c[j]),
            forall|j: int| 0 <= j < i ==> #[trigger] lists_connection(r@, c, j),
        decreases infos@.len() - i,
    {
        let info = ConnectionInfo {
            id: infos[i].id,
            destination: infos[i].destination.clone(),
            options: infos[i].options.clone_map(),
        };
        let ghost before = r@;
        r.push(ResourceInfo::Connection(info));
        proof {
            assert(describes(infos@[i as int], c[i as int]));
            assert forall|j: int| 0 <= j < i + 1 implies #[trigger] lists_connection(r@, c, j) by {
                if j < i {
                    assert(lists_connection(before, c, j));
                    assert(r@[j] == before[j]);
                }
            }
        }
        i = i + 1;
    }
    let mut k: usize = 0;
    while k < tunnels.len()
        invariant
            k <= tunnels@.len(),
            tunnels@ == t,
            r@.len() == c.len() + k,
            forall|j: int| 0 <= j < c.len() ==> #[trigger] lists_connection(r@, c, j),
            forall|j: int| 0 <= j < k ==> r@[c.len() + j] == ResourceInfo::Tunnel(#[trigger] t[j]),
        decreases tunnels@.len() - k,
    {
        let tun = &tunnels[k];
        let ghost before = r@;
        r.push(
            ResourceInfo::Tunnel(
                ManagedTunnelInfo {
                    id: tun.id,
                    connection_id: tun.connection_id,
                    direction: tun.direction,
                    bind_port: tun.bind_port,
                    remote_host: tun.remote_host.clone(),
                    remote_port: tun.remote_port,
                },
            ),
        );
        proof {
            assert forall|j: int| 0 <= j < c.len() implies #[trigger] lists_connection(r@, c, j) by {
                assert(lists_connection(before, c, j));
                assert(r@[j] == before[j]);
            }
            assert forall|j: int| 0 <= j < k + 1 implies r@[c.len() + j] == ResourceInfo::Tunnel(
                #[trigger] t[j],
            ) by {
                if j < k {
                    assert(before[c.len() + j] == ResourceInfo::Tunnel(t[j]));
                }
            }
        }
        k = k + 1;
    }
    let mut n: usize = 0;
    while n < mounts.len()
        invariant
            n <= mounts@.len(),
            mounts@ == m,
            tunnels@ == t,
            r@.len() == c.len() + t.len() + n,
            forall|j: int| 0 <= j < c.len() ==> #[trigger] lists_connection(r@, c, j),
            forall|j: int| 0 <= j < t.len() ==> r@[c.len() + j] == ResourceInfo::Tunnel(#[trigger] t[j]),
            forall|j: int|
                0 <= j < n ==> r@[c.len() + t.len() + j] == ResourceInfo::Mount(#[trigger] m[j]),
        decreases mounts@.len() - n,
    {
        let mt = &mounts[n];
        let ghost before = r@;
        r.push(
            ResourceInfo::Mount(
                MountInfo {
                    id: mt.id,
                    connection_id: mt.connection_id,
                    backend: mt.backend.clone(),
                    mount_point: mt.mount_point.clone(),
                    remote_root: mt.remote_root.clone(),
                    readonly: mt.readonly,
                    status: clone_status(&mt.status),
                },
            ),
        );
        proof {
            assert forall|j: int| 0 <= j < c.len() implies #[trigger] lists_connection(r@, c, j) by {
                assert(lists_connection(before, c, j));
                assert(r@[j] == before[j]);
            }
            assert forall|j: int| 0 <= j < t.len() implies r@[c.len() + j] == ResourceInfo::Tunnel(
                #[trigger] t[j],
            ) by {
                assert(before[c.len() + j] == ResourceInfo::Tunnel(t[j]));
            }
            assert forall|j: int| 0 <= j < n + 1 implies r@[c.len() + t.len() + j]
                == ResourceInfo::Mount(#[trigger] m[j]) by {
                if j < n {
                    assert(before[c.len() + t.len() + j] == ResourceInfo::Mount(m[j]));
                }
            }
        }
        n = n + 1;
    }
    r
}

/// The response for an error: its description.
fn error_response(e: ManagerError) -> (r: ManagerResponse)
    ensures
        r matches ManagerResponse::Error { description } && description@ == e.description@,
{
    ManagerResponse::Error { description: e.description }
}

/// The response for an error of the given text.
fn error_text(text: &str) -> (r: ManagerResponse)
    ensures
        r matches ManagerResponse::Error { description } && description@ == text@,
{
    ManagerResponse::Error { description: copy_str(text) }
}

/// Decides how the manager handles a request, updating its records where the request changes
/// them: a request about a connection, channel or tunnel that does not exist is answered at once
/// with an error; what the records answer is answered at once; what needs plugins, connections,
/// channels or tasks is handed back as work.
pub fn decide(
    state: &mut ManagerState,
    auth: &mut AuthRegistry,
    mount_backends: &Vec<String>,
    request: ManagerRequest,
) -> (r: Handling)
    requires
        old(auth).wf(),
    ensures
        final(auth).wf(),
        old(state).wf() ==> final(state).wf(),
        request !is Authenticate ==> *final(auth) == *old(auth),
        request !is Kill && request !is CloseChannel && request !is CloseManagedTunnel
            && request !is Unmount ==> *final(state) == *old(state),
        request is Version ==> r is Version,
        request matches ManagerRequest::Launch { destination, options } ==> (r matches
            Handling::Launch { destination: d, options: o } && d == destination && o == options),
        request matches ManagerRequest::Connect { destination, options } ==> (r matches
            Handling::Connect { destination: d, options: o } && d == destination && o == options),
        request matches ManagerRequest::Authenticate { id, msg } ==> {
            &&& final(auth)@ == old(auth)@.remove(id)
            &&& old(auth)@.contains(id) ==> (r matches Handling::Authenticate { id: i, msg: m }
                && i == id && m == msg)
            &&& !old(auth)@.contains(id) ==> answers_error(r, "Invalid authentication id"@)
        },
        request matches ManagerRequest::OpenChannel { id } ==> {
            &&& has_key(old(state).connections(), id) ==> r == Handling::OpenChannel {
                connection_id: id,
            }
            &&& !has_key(old(state).connections(), id) ==> answers_error(
                r,
                "Connection does not exist"@,
            )
        },
        request matches ManagerRequest::Channel { id, request } ==> {
            &&& has_key(old(state).channels(), id) ==> (r matches Handling::Send {
                channel_id,
                request: q,
            } && channel_id == id && q == request)
            &&& !has_key(old(state).channels(), id) ==> answers_error(
                r,
                "Channel is not open or does not exist"@,
            )
        },
        request matches ManagerRequest::CloseChannel { id } ==> {
            &&& final(state).channels() == without_key(old(state).channels(), id)
            &&& final(state).connections() == old(state).connections()
            &&& final(state).tunnels() == old(state).tunnels()
            &&& final(state).mounts() == old(state).mounts()
            &&& has_key(old(state).channels(), id) ==> r == Handling::CloseChannel {
                channel_id: id,
            }
            &&& !has_key(old(state).channels(), id) ==> answers_error(
                r,
                "Channel is not open or does not exist"@,
            )
        },
        request matches ManagerRequest::Info { id } ==> match index_of_key(
            old(state).connections(),
            id,
        ) {
            Some(i) => r matches Handling::Respond(ManagerResponse::Info(info)) && info.id == id
                && info.destination@ == old(state).connections()[i].destination@
                && info.options.pairs() == old(state).connections()[i].options.pairs(),
            None => answers_error(r, "No connection found"@),
        },
        request matches ManagerRequest::Kill { id } ==> (has_key(old(state).connections(), id)
            ==> {
            &&& r matches Handling::Kill { connection_id, plan } && connection_id == id
                && plan.channels@ == keys_owned_by(old(state).channels(), id) && plan.tunnels@
                == keys_owned_by(old(state).tunnels(), id) && plan.mounts@ == keys_owned_by(
                old(state).mounts(),
                id,
            )
            &&& final(state).connections() == without_key(old(state).connections(), id)
            &&& final(state).channels() == not_owned_by(old(state).channels(), id)
            &&& final(state).tunnels() == not_owned_by(old(state).tunnels(), id)
            &&& final(state).mounts() == not_owned_by(old(state).mounts(), id)
        }),
        request matches ManagerRequest::Kill { id } ==> (!has_key(old(state).connections(), id)
            ==> {
            &&& answers_error(r, "No connection found"@)
            &&& final(state).connections() == old(state).connections()
            &&& final(state).channels() == old(state).channels()
            &&& final(state).tunnels() == old(state).tunnels()
            &&& final(state).mounts() == old(state).mounts()
        }),
        request matches ManagerRequest::List { resources } ==> {
            &&& resources@.len() == 0 ==> (r matches Handling::Respond(
                ManagerResponse::Resources { resources: all },
            ) && lists_every_resource(
                all@,
                old(state).connections(),
                old(state).tunnels(),
                old(state).mounts(),
            ))
            &&& resources@.len() != 0 && resources@.contains(ResourceKind::Mount) ==> (r matches Handling::Respond(
                ManagerResponse::Mounts { mounts },
            ) && mounts@ == old(state).mounts())
            &&& resources@.len() != 0 && !resources@.contains(ResourceKind::Mount) ==> (r matches Handling::Respond(
                ManagerResponse::List(list),
            ) && list@ == destinations(old(state).connections()))
        },
        request matches ManagerRequest::ForwardTunnel {
            connection_id,
            bind_port,
            remote_host,
            remote_port,
        } ==> {
            &&& has_key(old(state).connections(), connection_id) ==> (r matches
                Handling::ForwardTunnel {
                connection_id: c,
                bind_port: b,
                remote_host: h,
                remote_port: p,
            } && c == connection_id && b == bind_port && h == remote_host && p == remote_port)
            &&& !has_key(old(state).connections(), connection_id) ==> answers_error(
                r,
                "Connection does not exist"@,
            )
        },
        request matches ManagerRequest::ReverseTunnel {
            connection_id,
            remote_port,
            local_host,
            local_port,
        } ==> {
            &&& has_key(old(state).connections(), connection_id) ==> (r matches
                Handling::ReverseTunnel {
                connection_id: c,
                remote_port: p,
                local_host: h,
                local_port: l,
            } && c == connection_id && p == remote_port && h == local_host && l == local_port)
            &&& !has_key(old(state).connections(), connection_id) ==> answers_error(
                r,
                "Connection does not exist"@,
            )
        },
        request matches ManagerRequest::CloseManagedTunnel { id } ==> {
            &&& final(state).tunnels() == without_key(old(state).tunnels(), id)
            &&& final(state).connections() == old(state).connections()
            &&& final(state).channels() == old(state).channels()
            &&& final(state).mounts() == old(state).mounts()
            &&& has_key(old(state).tunnels(), id) ==> r == Handling::CloseTunnel { id }
            &&& !has_key(old(state).tunnels(), id) ==> answers_error(r, no_tunnel_text(id))
        },
        request is ListManagedTunnels ==> (r matches Handling::Respond(
            ManagerResponse::ManagedTunnels { tunnels },
        ) && tunnels@ == old(state).tunnels()),
        request matches ManagerRequest::Mount { connection_id, backend, config } ==> {
            &&& !has_name(mount_backends@, backend@) ==> answers_error(
                r,
                no_mount_plugin_text(backend@),
            )
            &&& has_name(mount_backends@, backend@) ==> match index_of_key(
                old(state).connections(),
                connection_id,
            ) {
                Some(i) => r matches Handling::Mount {
                    connection_id: c,
                    backend: b,
                    config: g,
                    destination: d,
                } && c == connection_id && b == backend && g == config && d@ == old(
                    state,
                ).connections()[i].destination@,
                None => answers_error(r, "Connection does not exist"@),
            }
        },
        request matches ManagerRequest::Unmount { ids } ==> {
            &&& final(state).connections() == old(state).connections()
            &&& final(state).channels() == old(state).channels()
            &&& final(state).tunnels() == old(state).tunnels()
            &&& unmount_all(old(state).mounts(), ids@).1 == final(state).mounts()
            &&& r matches Handling::Unmount { ids: removed } && removed@ == unmount_all(
                old(state).mounts(),
                ids@,
            ).0
        },
        request matches ManagerRequest::Subscribe { topics } ==> (r matches Handling::Subscribe {
            topics: t,
        } && t == topics),
        request is Unsubscribe ==> r matches Handling::Respond(ManagerResponse::Unsubscribed),
        request matches ManagerRequest::Reconnect { id } ==> {
            &&& has_key(old(state).connections(), id) ==> r == Handling::Reconnect {
                connection_id: id,
            }
            &&& !has_key(old(state).connections(), id) ==> answers_error(
                r,
                "No connection found"@,
            )
        },
{
    proof {
        match request {
            ManagerRequest::Channel { id, .. } => lemma_index_of_key(state.channels(), id),
            ManagerRequest::CloseChannel { id } => lemma_index_of_key(state.channels(), id),
            ManagerRequest::CloseManagedTunnel { id } => lemma_index_of_key(state.tunnels(), id),
            ManagerRequest::Info { id } => lemma_index_of_key(state.connections(), id),
            ManagerRequest::Mount { connection_id, .. } => lemma_index_of_key(
                state.connections(),
                connection_id,
            ),
            _ => {},
        }
    }
    match request {
        ManagerRequest::Version => Handling::Version,
        ManagerRequest::Launch { destination, options } => Handling::Launch { destination, options },
        ManagerRequest::Connect { destination, options } => Handling::Connect {
            destination,
            options,
        },
        ManagerRequest::Authenticate { id, msg } => match auth.answer(id) {
            Ok(()) => Handling::Authenticate { id, msg },
            Err(e) => Handling::Respond(error_response(e)),
        },
        ManagerRequest::OpenChannel { id } => {
            if state.has_connection(id) {
                Handling::OpenChannel { connection_id: id }
            } else {
                Handling::Respond(error_text("Connection does not exist"))
            }
        },
        ManagerRequest::Channel { id, request } => match state.channel_connection(id) {
            Ok(_) => Handling::Send { channel_id: id, request },
            Err(e) => Handling::Respond(error_response(e)),
        },
        ManagerRequest::CloseChannel { id } => match state.close_channel(id) {
            Ok(_) => Handling::CloseChannel { channel_id: id },
            Err(e) => Handling::Respond(error_response(e)),
        },
        ManagerRequest::Info { id } => match state.info(id) {
            Ok(info) => Handling::Respond(ManagerResponse::Info(info)),
            Err(e) => Handling::Respond(error_response(e)),
        },
        ManagerRequest::Kill { id } => match state.kill(id) {
            Ok(plan) => Handling::Kill { connection_id: id, plan },
            Err(e) => Handling::Respond(error_response(e)),
        },
        ManagerRequest::List { resources } => match list_target(&resources) {
            ListTarget::All => Handling::Respond(
                ManagerResponse::Resources { resources: resource_listing(state) },
            ),
            ListTarget::Mounts => Handling::Respond(
                ManagerResponse::Mounts { mounts: clone_mounts(state.list_mounts()) },
            ),
            ListTarget::Connections => Handling::Respond(ManagerResponse::List(state.list())),
        },
        ManagerRequest::ForwardTunnel { connection_id, bind_port, remote_host, remote_port } => {
            if state.has_connection(connection_id) {
                Handling::ForwardTunnel { connection_id, bind_port, remote_host, remote_port }
            } else {
                Handling::Respond(error_text("Connection does not exist"))
            }
        },
        ManagerRequest::ReverseTunnel { connection_id, remote_port, local_host, local_port } => {
            if state.has_connection(connection_id) {
                Handling::ReverseTunnel { connection_id, remote_port, local_host, local_port }
            } else {
                Handling::Respond(error_text("Connection does not exist"))
            }
        },
        ManagerRequest::CloseManagedTunnel { id } => match state.close_tunnel(id) {
            Ok(_) => Handling::CloseTunnel { id },
            Err(e) => Handling::Respond(error_response(e)),
        },
        ManagerRequest::ListManagedTunnels => Handling::Respond(
            ManagerResponse::ManagedTunnels { tunnels: clone_tunnels(state.list_tunnels()) },
        ),
        ManagerRequest::Mount { connection_id, backend, config } => {
            if !has_backend(mount_backends, backend.as_str()) {
                let mut description = copy_str("No mount plugin registered for backend '");
                push_str(&mut description, backend.as_str());
                push_str(&mut description, "'");
                return Handling::Respond(ManagerResponse::Error { description });
            }
            match state.info(connection_id) {
                Ok(info) => Handling::Mount {
                    connection_id,
                    backend,
                    config,
                    destination: info.destination,
                },
                Err(_) => Handling::Respond(error_text("Connection does not exist")),
            }
        },
        ManagerRequest::Unmount { ids } => Handling::Unmount { ids: state.unmount(&ids) },
        ManagerRequest::Subscribe { topics } => Handling::Subscribe { topics },
        ManagerRequest::Unsubscribe => Handling::Respond(ManagerResponse::Unsubscribed),
        ManagerRequest::Reconnect { id } => {
            if state.has_connection(id) {
                Handling::Reconnect { connection_id: id }
            } else {
                Handling::Respond(error_text("No connection found"))
            }
        },
    }
}

/// The ids of the mounts whose unmount succeeded, in order.
pub open spec fn succeeded_ids(outcomes: Seq<(u32, bool)>) -> Seq<u32>
    decreases outcomes.len(),
{
    if outcomes.len() == 0 {
        Seq::empty()
    } else {
        let rest = succeeded_ids(outcomes.drop_last());
        if outcomes.last().1 {
            rest.push(outcomes.last().0)
        } else {
            rest
        }
    }
}

/// The answer to an unmount request, from the outcome of unmounting each mount that was taken
/// out of the records: the ids of the mounts that were unmounted successfully, in order.
pub fn unmounted_response(outcomes: &Vec<(u32, bool)>) -> (r: ManagerResponse)
    ensures
        r matches ManagerResponse::Unmounted { ids } && ids@ == succeeded_ids(outcomes@),
{
    let mut ids: Vec<u32> = Vec::new();
    let mut i: usize = 0;
    while i < outcomes.len()
        invariant
            i <= outcomes@.len(),
            ids@ == succeeded_ids(outcomes@.subrange(0, i as int)),
        decreases outcomes@.len() - i,
    {
        let (id, ok) = outcomes[i];
        proof {
            assert(outcomes@.subrange(0, i + 1).drop_last() =~= outcomes@.subrange(0, i as int));
        }
        if ok {
            ids.push(id);
        }
        i = i + 1;
    }
    proof {
        assert(outcomes@.subrange(0, i as int) =~= outcomes@);
    }
    ManagerResponse::Unmounted { ids }
}

} // verus!
