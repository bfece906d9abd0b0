//! Routing of requests and responses between the channels of a connection and its server: the
//! id of a request sent through a channel is prefixed with the channel's id, and the prefix of
//! the id a response answers names the channel to hand it to.
use vstd::prelude::*;

use crate::net::manager::data::ManagerChannelId;
use crate::text::{
    decimal, first_index_of, format_u32, lemma_first_index_of, lemma_first_index_of_unique,
    lemma_parse_decimal, parse_u32, parse_u32_spec, push_str, split_once, split_once_spec,
};

verus! {

broadcast use vstd::string::group_string_axioms;

/// The id under which a request of a channel is sent: the channel id in decimal, `_`, and the
/// request's own id.
pub open spec fn tagged_id(channel_id: u32, request_id: Seq<char>) -> Seq<char> {
    decimal(channel_id as nat) + seq!['_'] + request_id
}

/// The channel and request id that a tagged origin id names, if it names one: the text before
/// the first `_` must be a channel id.
pub open spec fn untagged(origin_id: Seq<char>) -> Option<(u32, Seq<char>)> {
    match split_once_spec(origin_id, '_') {
        Some((cid, rest)) => match parse_u32_spec(cid) {
            Some(c) => Some((c, rest)),
            None => None,
        },
        None => None,
    }
}

/// Combines a channel id with a request id so the response to the request can be handed back to
/// the channel.
pub fn tag_request_id(channel_id: ManagerChannelId, request_id: &str) -> (r: String)
    ensures
        r@ == tagged_id(channel_id, request_id@),
{
    let mut s = format_u32(channel_id);
    push_str(&mut s, "_");
    push_str(&mut s, request_id);
    proof {
        reveal_strlit("_");
        assert(s@ == decimal(channel_id as nat) + seq!['_'] + request_id@);
    }
    s
}

/// Splits an origin id back into the channel id and the id of the request it answers.
pub fn untag_origin_id(origin_id: &str) -> (r: Option<(ManagerChannelId, &str)>)
    ensures
        match r {
            Some((c, rest)) => untagged(origin_id@) == Some((c, rest@)),
            None => untagged(origin_id@) is None,
        },
{
    match split_once(origin_id, '_') {
        Some((cid_str, oid_str)) => match parse_u32(cid_str) {
            Some(cid) => Some((cid, oid_str)),
            None => None,
        },
        None => None,
    }
}

/// A decimal holds no `_`.
proof fn lemma_decimal_no_underscore(n: nat)
    ensures
        forall|i: int| 0 <= i < decimal(n).len() ==> decimal(n)[i] != '_',
    decreases n,
{
    if n >= 10 {
        lemma_decimal_no_underscore(n / 10);
        assert forall|i: int| 0 <= i < decimal(n).len() implies decimal(n)[i] != '_' by {
            if i < decimal(n / 10).len() {
                assert(decimal(n)[i] == decimal(n / 10)[i]);
            }
        }
    }
}

/// The response to a request sent through a channel goes back to that channel, with the
/// request's own id: untagging a tagged id gives back the channel id and the request id.
pub proof fn lemma_untag_tagged(channel_id: u32, request_id: Seq<char>)
    ensures
        untagged(tagged_id(channel_id, request_id)) == Some((channel_id, request_id)),
{
    let d = decimal(channel_id as nat);
    let t = tagged_id(channel_id, request_id);
    lemma_decimal_no_underscore(channel_id as nat);
    assert forall|j: int| 0 <= j < d.len() implies t[j] != '_' by {
        assert(t[j] == d[j]);
    }
    assert(t[d.len() as int] == '_');
    lemma_first_index_of_unique(t, '_', d.len() as int);
    assert(t.subrange(0, d.len() as int) == d);
    assert(t.subrange((d.len() + 1) as int, t.len() as int) == request_id);
    lemma_parse_decimal(channel_id);
}

} // verus!
