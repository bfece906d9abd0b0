//! What the two ends of a raw channel do with the manager's responses: the answer to the request
//! that opens the channel, and the responses that then come through it.
use vstd::prelude::*;

use crate::net::manager::data::response::ManagerResponse;
use crate::net::manager::data::{ConnectionId, ManagerChannelId};
use crate::protocol::common::error::IoErrorKind;
use crate::text::{copy_str, decimal, format_u32, push_str};

verus! {

broadcast use vstd::string::group_string_axioms;

/// Why a raw channel could not be opened.
#[derive(Clone, Debug, PartialEq, Eq)]
pub enum ChannelOpenFailure {
    /// The manager answered with an error, with this description.
    Refused(String),
    /// The manager answered with something else than the opened channel.
    Unexpected,
    /// No answer came: the mailbox was closed.
    Aborted,
}

/// The channel that the first answer to an open request names, or why there is none.
pub fn channel_open_reply(first: Option<&ManagerResponse>) -> (r: Result<
    ManagerChannelId,
    ChannelOpenFailure,
>)
    ensures
        match first {
            Some(ManagerResponse::ChannelOpened { id }) => r == Ok::<
                ManagerChannelId,
                ChannelOpenFailure,
            >(*id),
            Some(ManagerResponse::Error { description }) => r matches Err(
                ChannelOpenFailure::Refused(d),
            ) && d@ == description@,
            Some(_) => r == Err::<ManagerChannelId, ChannelOpenFailure>(
                ChannelOpenFailure::Unexpected,
            ),
            None => r == Err::<ManagerChannelId, ChannelOpenFailure>(ChannelOpenFailure::Aborted),
        },
{
    match first {
        Some(ManagerResponse::ChannelOpened { id }) => Ok(*id),
        Some(ManagerResponse::Error { description }) => Err(
            ChannelOpenFailure::Refused(copy_str(description.as_str())),
        ),
        Some(_) => Err(ChannelOpenFailure::Unexpected),
        None => Err(ChannelOpenFailure::Aborted),
    }
}

/// The prefix `[Conn {id}] ` of the messages about a connection.
pub open spec fn conn_prefix(connection_id: ConnectionId) -> Seq<char> {
    "[Conn "@ + decimal(connection_id as nat) + "] "@
}

/// The I/O error a failure to open a raw channel is reported as: a refusal keeps the manager's
/// description under `Other`, a closed mailbox is `ConnectionAborted`, and an unexpected answer
/// is `InvalidData`, whose text ends with `answer`, the debug form of that answer.
pub fn channel_open_error(
    connection_id: ConnectionId,
    failure: &ChannelOpenFailure,
    answer: &str,
) -> (r: (IoErrorKind, String))
    ensures
        match failure {
            ChannelOpenFailure::Refused(d) => r.0 == IoErrorKind::Other && r.1@ == d@,
            ChannelOpenFailure::Unexpected => r.0 == IoErrorKind::InvalidData && r.1@
                == conn_prefix(connection_id) + "Raw channel open unexpected response: "@
                + answer@,
            ChannelOpenFailure::Aborted => r.0 == IoErrorKind::ConnectionAborted && r.1@
                == conn_prefix(connection_id) + "Raw channel mailbox aborted"@,
        },
{
    match failure {
        ChannelOpenFailure::Refused(d) => (IoErrorKind::Other, copy_str(d.as_str())),
        ChannelOpenFailure::Unexpected => {
            let mut s = copy_str("[Conn ");
            push_str(&mut s, format_u32(connection_id).as_str());
            push_str(&mut s, "] Raw channel open unexpected response: ");
            push_str(&mut s, answer);
            proof {
                reveal_strlit("[Conn ");
                reveal_strlit("] Raw channel open unexpected response: ");
                reveal_strlit("] ");
                reveal_strlit("Raw channel open unexpected response: ");
                assert(s@ =~= conn_prefix(connection_id) + "Raw channel open unexpected response: "@
                    + answer@);
            }
            (IoErrorKind::InvalidData, s)
        },
        ChannelOpenFailure::Aborted => {
            let mut s = copy_str("[Conn ");
            push_str(&mut s, format_u32(connection_id).as_str());
            push_str(&mut s, "] Raw channel mailbox aborted");
            proof {
                reveal_strlit("[Conn ");
                reveal_strlit("] Raw channel mailbox aborted");
                reveal_strlit("] ");
                reveal_strlit("Raw channel mailbox aborted");
                assert(s@ =~= conn_prefix(connection_id) + "Raw channel mailbox aborted"@);
            }
            (IoErrorKind::ConnectionAborted, s)
        },
    }
}

/// What the proxy of a raw channel does with a response that comes through the channel.
#[derive(Debug, PartialEq, Eq)]
pub enum ProxyStep<'a> {
    /// Write these bytes, a response of the server, to the channel's transport.
    Write(&'a Vec<u8>),
    /// The channel was closed: stop.
    Close,
    /// Not meant for the transport: skip it.
    Skip,
}

/// What a raw channel's proxy does with a response from the manager.
pub fn proxy_step<'a>(response: &'a ManagerResponse) -> (r: ProxyStep<'a>)
    ensures
        match response {
            ManagerResponse::Channel { response: bytes, .. } => r == ProxyStep::Write(bytes),
            ManagerResponse::ChannelClosed { .. } => r == ProxyStep::<'a>::Close,
            _ => r == ProxyStep::<'a>::Skip,
        },
{
    match response {
        ManagerResponse::Channel { response: bytes, .. } => ProxyStep::Write(bytes),
        ManagerResponse::ChannelClosed { .. } => ProxyStep::Close,
        _ => ProxyStep::Skip,
    }
}

} // verus!
