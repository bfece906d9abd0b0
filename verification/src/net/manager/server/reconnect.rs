//! The bookkeeping of the attempts to re-establish a connection that died.
use vstd::prelude::*;

use crate::net::client::ConnectionState;
use crate::net::common::map::StringMap;
use crate::net::manager::server::plugins::{no_reconnect, reconnect_disabled};
use crate::protocol::common::error::IoErrorKind;
use crate::text::copy_str;

verus! {

broadcast use vstd::string::group_string_axioms;

/// How the manager starts on a connection that died.
#[derive(Copy, Clone, Debug, PartialEq, Eq, Structural)]
pub enum ReconnectStart {
    /// The connection was made with reconnection turned off.
    Disabled,
    /// No plugin serves the connection's scheme.
    NoPlugin,
    /// The plugin's strategy is to fail rather than reconnect.
    NotSupported,
    /// Attempts begin.
    Begin,
}

/// Decides whether to try re-establishing a connection that died, in this order: the
/// connection's options may turn it off, a plugin must serve the scheme, and the plugin's strategy
/// must allow it.
pub fn reconnect_start(options: &StringMap, plugin_found: bool, strategy_fails: bool) -> (r:
    ReconnectStart)
    requires
        options.keys_unique(),
    ensures
        r == if reconnect_disabled(options.pairs()) {
            ReconnectStart::Disabled
        } else if !plugin_found {
            ReconnectStart::NoPlugin
        } else if strategy_fails {
            ReconnectStart::NotSupported
        } else {
            ReconnectStart::Begin
        },
{
    if no_reconnect(options) {
        ReconnectStart::Disabled
    } else if !plugin_found {
        ReconnectStart::NoPlugin
    } else if strategy_fails {
        ReconnectStart::NotSupported
    } else {
        ReconnectStart::Begin
    }
}

/// The state announced for the connection when the manager starts on it: reconnecting when
/// attempts begin, disconnected when none will be made.
pub fn start_state(start: ReconnectStart) -> (r: ConnectionState)
    ensures
        r == if start == ReconnectStart::Begin {
            ConnectionState::Reconnecting
        } else {
            ConnectionState::Disconnected
        },
{
    match start {
        ReconnectStart::Begin => ConnectionState::Reconnecting,
        _ => ConnectionState::Disconnected,
    }
}

/// The state announced when the attempts end: connected when one succeeded, disconnected when
/// all failed.
pub fn end_state(succeeded: bool) -> (r: ConnectionState)
    ensures
        r == if succeeded {
            ConnectionState::Connected
        } else {
            ConnectionState::Disconnected
        },
{
    if succeeded {
        ConnectionState::Connected
    } else {
        ConnectionState::Disconnected
    }
}

/// Whether another attempt is due: there is no limit, or some attempts remain.
pub open spec fn attempt_due(retries_remaining: Option<usize>) -> bool {
    match retries_remaining {
        None => true,
        Some(n) => n > 0,
    }
}

/// Whether another reconnection attempt is due.
pub fn should_attempt(retries_remaining: Option<usize>) -> (r: bool)
    ensures
        r == attempt_due(retries_remaining),
{
    match retries_remaining {
        None => true,
        Some(n) => n > 0,
    }
}

/// The attempts remaining after a failed one: one fewer when limited and not exhausted.
pub fn after_failed_attempt(retries_remaining: Option<usize>) -> (r: Option<usize>)
    ensures
        r == match retries_remaining {
            None => None,
            Some(n) => Some(if n > 0 {
                (n - 1) as usize
            } else {
                0usize
            }),
        },
{
    match retries_remaining {
        None => None,
        Some(n) => {
            if n > 0 {
                Some(n - 1)
            } else {
                Some(0)
            }
        },
    }
}

/// With a limit of `n` retries, at most `n` attempts are made: after `k` failed attempts,
/// `n - k` remain, and none is due once `n` have failed.
pub open spec fn remaining_after(limit: Option<usize>, failures: nat) -> Option<usize>
    decreases failures,
{
    if failures == 0 {
        limit
    } else {
        match remaining_after(limit, (failures - 1) as nat) {
            None => None,
            Some(n) => Some(if n > 0 {
                (n - 1) as usize
            } else {
                0usize
            }),
        }
    }
}

/// A limit of `n` retries allows exactly `n` attempts: after `k <= n` failures `n - k` remain,
/// so an attempt is due before the `n`-th failure and none after it.
pub proof fn lemma_retry_limit(n: usize, k: nat)
    requires
        k <= n,
    ensures
        remaining_after(Some(n), k) == Some((n - k) as usize),
        attempt_due(remaining_after(Some(n), k)) <==> k < n,
    decreases k,
{
    if k > 0 {
        lemma_retry_limit(n, (k - 1) as nat);
    }
}

/// The answer to an authentication question asked while re-establishing a connection in the
/// background, where nobody can answer: `PermissionDenied`.
pub fn non_interactive_challenge_error() -> (r: (IoErrorKind, String))
    ensures
        r.0 == IoErrorKind::PermissionDenied,
        r.1@ == "non-interactive reconnection cannot answer authentication challenges"@,
{
    (
        IoErrorKind::PermissionDenied,
        copy_str("non-interactive reconnection cannot answer authentication challenges"),
    )
}

/// The pause before the next attempt, in nanoseconds: what the strategy's backoff gives, but
/// never more than the strategy's longest pause when it has one.
pub fn clamp_sleep(next: u128, max: Option<u128>) -> (r: u128)
    ensures
        r == match max {
            Some(m) => if next <= m {
                next
            } else {
                m
            },
            None => next,
        },
{
    match max {
        Some(m) => if next <= m {
            next
        } else {
            m
        },
        None => next,
    }
}

/// Where the manager stands in re-establishing a connection.
#[derive(Copy, Clone, Debug, PartialEq, Eq, Structural)]
pub enum ReconnectPhase {
    /// The connection has not died yet.
    Idle,
    /// Attempts are being made; so many remain (no limit when `None`).
    Trying { retries_remaining: Option<usize> },
    /// Nothing more is done.
    Finished,
}

/// What happens while the manager re-establishes a connection.
#[derive(Copy, Clone, Debug, PartialEq, Eq, Structural)]
pub enum ReconnectEvent {
    /// The connection died, or a reconnection was asked for: how the manager starts on it (see
    /// `reconnect_start`) and the strategy's limit of retries.
    Died { start: ReconnectStart, max_retries: Option<usize> },
    /// The connection is not, or no longer, among the manager's connections.
    Gone,
    /// An attempt succeeded and the connection now uses the new client.
    Succeeded,
    /// An attempt failed.
    Failed,
}

/// The outcome of one event: the next phase, the states announced for the connection, in order,
/// and whether an attempt is to be made next.
pub struct ReconnectStep {
    pub phase: ReconnectPhase,
    pub announce: Vec<ConnectionState>,
    pub attempt: bool,
}

/// The outcome of one event, as values: next phase, announcements and whether to attempt.
pub open spec fn reconnect_transition(phase: ReconnectPhase, event: ReconnectEvent) -> (
    ReconnectPhase,
    Seq<ConnectionState>,
    bool,
) {
    match (phase, event) {
        (ReconnectPhase::Idle, ReconnectEvent::Died { start, max_retries }) => if start
            != ReconnectStart::Begin {
            (ReconnectPhase::Finished, seq![ConnectionState::Disconnected], false)
        } else if attempt_due(max_retries) {
            (
                ReconnectPhase::Trying { retries_remaining: max_retries },
                seq![ConnectionState::Reconnecting],
                true,
            )
        } else {
            (
                ReconnectPhase::Finished,
                seq![ConnectionState::Reconnecting, ConnectionState::Disconnected],
                false,
            )
        },
        (ReconnectPhase::Idle, ReconnectEvent::Gone) => (ReconnectPhase::Finished, seq![], false),
        (ReconnectPhase::Idle, _) => (ReconnectPhase::Idle, seq![], false),
        (ReconnectPhase::Trying { .. }, ReconnectEvent::Succeeded) => (
            ReconnectPhase::Finished,
            seq![ConnectionState::Connected],
            false,
        ),
        (ReconnectPhase::Trying { retries_remaining }, ReconnectEvent::Failed) => {
            let left = remaining_after(retries_remaining, 1);
            if attempt_due(left) {
                (ReconnectPhase::Trying { retries_remaining: left }, seq![], true)
            } else {
                (ReconnectPhase::Finished, seq![ConnectionState::Disconnected], false)
            }
        },
        (ReconnectPhase::Trying { .. }, ReconnectEvent::Gone) => (
            ReconnectPhase::Finished,
            seq![],
            false,
        ),
        (ReconnectPhase::Trying { retries_remaining }, ReconnectEvent::Died { .. }) => (
            ReconnectPhase::Trying { retries_remaining },
            seq![],
            false,
        ),
        (ReconnectPhase::Finished, _) => (ReconnectPhase::Finished, seq![], false),
    }
}

/// Decides what the manager does on an event while re-establishing a connection: when
/// reconnection is off, unserved or unsupported it announces `Disconnected` and makes no attempt;
/// otherwise it announces `Reconnecting`, makes attempts while the strategy allows, and ends by
/// announcing `Connected` after a success or `Disconnected` once the attempts run out.
pub fn reconnect_step(phase: ReconnectPhase, event: ReconnectEvent) -> (r: ReconnectStep)
    ensures
        (r.phase, r.announce@, r.attempt) == reconnect_transition(phase, event),
{
    let mut announce: Vec<ConnectionState> = Vec::new();
    let next;
    let mut attempt = false;
    match (phase, event) {
        (ReconnectPhase::Idle, ReconnectEvent::Died { start, max_retries }) => {
            if start != ReconnectStart::Begin {
                announce.push(ConnectionState::Disconnected);
                next = ReconnectPhase::Finished;
            } else if should_attempt(max_retries) {
                announce.push(ConnectionState::Reconnecting);
                next = ReconnectPhase::Trying { retries_remaining: max_retries };
                attempt = true;
            } else {
                announce.push(ConnectionState::Reconnecting);
                announce.push(ConnectionState::Disconnected);
                next = ReconnectPhase::Finished;
            }
        },
        (ReconnectPhase::Idle, ReconnectEvent::Gone) => {
            next = ReconnectPhase::Finished;
        },
        (ReconnectPhase::Idle, _) => {
            next = ReconnectPhase::Idle;
        },
        (ReconnectPhase::Trying { .. }, ReconnectEvent::Succeeded) => {
            announce.push(ConnectionState::Connected);
            next = ReconnectPhase::Finished;
        },
        (ReconnectPhase::Trying { retries_remaining }, ReconnectEvent::Failed) => {
            let left = after_failed_attempt(retries_remaining);
            proof {
                reveal_with_fuel(remaining_after, 2);
            }
            if should_attempt(left) {
                next = ReconnectPhase::Trying { retries_remaining: left };
                attempt = true;
            } else {
                announce.push(ConnectionState::Disconnected);
                next = ReconnectPhase::Finished;
            }
        },
        (ReconnectPhase::Trying { .. }, ReconnectEvent::Gone) => {
            next = ReconnectPhase::Finished;
        },
        (ReconnectPhase::Trying { retries_remaining }, ReconnectEvent::Died { .. }) => {
            next = ReconnectPhase::Trying { retries_remaining };
        },
        (ReconnectPhase::Finished, _) => {
            next = ReconnectPhase::Finished;
        },
    }
    proof {
        assert(announce@ =~= reconnect_transition(phase, event).1);
    }
    ReconnectStep { phase: next, announce, attempt }
}

/// What a run of events gives: the last phase, every announcement in order, and the number of
/// attempts asked for.
pub open spec fn reconnect_run(phase: ReconnectPhase, events: Seq<ReconnectEvent>) -> (
    ReconnectPhase,
    Seq<ConnectionState>,
    nat,
)
    decreases events.len(),
{
    if events.len() == 0 {
        (phase, seq![], 0)
    } else {
        let (p1, a1, t1) = reconnect_transition(phase, events[0]);
        let (p2, a2, n2) = reconnect_run(p1, events.drop_first());
        (p2, a1 + a2, (if t1 {
            1nat
        } else {
            0nat
        }) + n2)
    }
}

/// Once finished, nothing more is announced and no attempt is made.
proof fn lemma_finished_is_quiet(events: Seq<ReconnectEvent>)
    ensures
        reconnect_run(ReconnectPhase::Finished, events).0 == ReconnectPhase::Finished,
        reconnect_run(ReconnectPhase::Finished, events).1 == Seq::<ConnectionState>::empty(),
        reconnect_run(ReconnectPhase::Finished, events).2 == 0,
    decreases events.len(),
{
    if events.len() > 0 {
        lemma_finished_is_quiet(events.drop_first());
        assert(seq![] + Seq::<ConnectionState>::empty() =~= Seq::<ConnectionState>::empty());
    }
}

/// While attempts are being made, at most one more state is announced, and it is `Connected` or
/// `Disconnected`.
proof fn lemma_trying_ends_once(retries_remaining: Option<usize>, events: Seq<ReconnectEvent>)
    ensures
        reconnect_run(ReconnectPhase::Trying { retries_remaining }, events).1.len() <= 1,
        reconnect_run(ReconnectPhase::Trying { retries_remaining }, events).1.len() == 1 ==> {
            let s = reconnect_run(ReconnectPhase::Trying { retries_remaining }, events).1[0];
            s == ConnectionState::Connected || s == ConnectionState::Disconnected
        },
    decreases events.len(),
{
    if events.len() > 0 {
        let (p1, a1, t1) = reconnect_transition(
            ReconnectPhase::Trying { retries_remaining },
            events[0],
        );
        let rest = events.drop_first();
        match p1 {
            ReconnectPhase::Finished => {
                lemma_finished_is_quiet(rest);
                assert(a1 + Seq::<ConnectionState>::empty() =~= a1);
            },
            ReconnectPhase::Trying { retries_remaining: r2 } => {
                lemma_trying_ends_once(r2, rest);
                assert(a1 =~= Seq::<ConnectionState>::empty());
                assert(a1 + reconnect_run(p1, rest).1 =~= reconnect_run(p1, rest).1);
            },
            ReconnectPhase::Idle => {},
        }
    }
}

/// The states announced for a connection that died follow one pattern: when reconnection is off,
/// unserved or unsupported, exactly one `Disconnected` and no attempt; otherwise `Reconnecting`
/// first, then at most one more state, `Connected` or `Disconnected`.
pub proof fn lemma_reconnect_announcements(
    start: ReconnectStart,
    max_retries: Option<usize>,
    events: Seq<ReconnectEvent>,
)
    ensures
        ({
            let (_, announced, attempts) = reconnect_run(
                ReconnectPhase::Idle,
                seq![ReconnectEvent::Died { start, max_retries }] + events,
            );
            &&& start != ReconnectStart::Begin ==> announced == seq![ConnectionState::Disconnected]
                && attempts == 0
            &&& start == ReconnectStart::Begin ==> {
                &&& 1 <= announced.len() <= 2
                &&& announced[0] == ConnectionState::Reconnecting
                &&& announced.len() == 2 ==> (announced[1] == ConnectionState::Connected
                    || announced[1] == ConnectionState::Disconnected)
            }
        }),
{
    let all = seq![ReconnectEvent::Died { start, max_retries }] + events;
    assert(all[0] == ReconnectEvent::Died { start, max_retries });
    assert(all.drop_first() =~= events);
    let (p1, a1, t1) = reconnect_transition(ReconnectPhase::Idle, all[0]);
    match p1 {
        ReconnectPhase::Finished => {
            lemma_finished_is_quiet(events);
            assert(a1 + Seq::<ConnectionState>::empty() =~= a1);
        },
        ReconnectPhase::Trying { retries_remaining } => {
            lemma_trying_ends_once(retries_remaining, events);
            let rest = reconnect_run(p1, events).1;
            assert((a1 + rest)[0] == a1[0]);
            if rest.len() == 1 {
                assert((a1 + rest)[1] == rest[0]);
            }
        },
        ReconnectPhase::Idle => {},
    }
}


/// A run of `k` failed attempts.
pub open spec fn failures(k: nat) -> Seq<ReconnectEvent> {
    Seq::new(k, |i: int| ReconnectEvent::Failed)
}

/// Failed attempts while attempts are being made: without a limit every failure asks for another
/// attempt and nothing is announced; with `n` attempts left, the first `n - 1` failures each ask
/// for another attempt, and the `n`-th ends the attempts and announces `Disconnected`.
proof fn lemma_failures_while_trying(r: Option<usize>, k: nat)
    ensures
        ({
            let (phase, announced, attempts) = reconnect_run(
                ReconnectPhase::Trying { retries_remaining: r },
                failures(k),
            );
            &&& r is None ==> phase == (ReconnectPhase::Trying { retries_remaining: None })
                && announced == Seq::<ConnectionState>::empty() && attempts == k
            &&& r is Some && r->0 > k ==> phase == (ReconnectPhase::Trying {
                retries_remaining: Some((r->0 - k) as usize),
            }) && announced == Seq::<ConnectionState>::empty() && attempts == k
            &&& r is Some && 0 < r->0 <= k ==> phase == ReconnectPhase::Finished
                && announced == seq![ConnectionState::Disconnected] && attempts == r->0 - 1
        }),
    decreases k,
{
    let events = failures(k);
    if k == 0 {
        assert(events =~= Seq::<ReconnectEvent>::empty());
    } else {
        assert(events[0] == ReconnectEvent::Failed);
        assert(events.drop_first() =~= failures((k - 1) as nat));
        reveal_with_fuel(remaining_after, 2);
        let (p1, a1, t1) = reconnect_transition(
            ReconnectPhase::Trying { retries_remaining: r },
            ReconnectEvent::Failed,
        );
        match r {
            None => {
                lemma_failures_while_trying(None, (k - 1) as nat);
                assert(a1 + Seq::<ConnectionState>::empty() =~= Seq::<ConnectionState>::empty());
            },
            Some(n) => {
                if n > 1 {
                    lemma_failures_while_trying(Some((n - 1) as usize), (k - 1) as nat);
                    let rest = reconnect_run(p1, failures((k - 1) as nat)).1;
                    assert(a1 + rest =~= rest);
                } else if n == 1 {
                    lemma_finished_is_quiet(failures((k - 1) as nat));
                    assert(a1 + Seq::<ConnectionState>::empty() =~= a1);
                }
            },
        }
    }
}

/// Reconnecting with a strategy's limit on retries: with no limit, attempts go on for as long as
/// they fail, one after each failure, and the connection stays announced as reconnecting; with a
/// limit of `n`, after `k < n` failures another attempt is due and `n - k` remain, and after `n`
/// failures exactly `n` attempts have been made and the connection is announced disconnected.
pub proof fn lemma_reconnect_with_failures(max_retries: Option<usize>, k: nat)
    ensures
        ({
            let (phase, announced, attempts) = reconnect_run(
                ReconnectPhase::Idle,
                seq![ReconnectEvent::Died { start: ReconnectStart::Begin, max_retries }]
                    + failures(k),
            );
            &&& max_retries is None ==> phase == (ReconnectPhase::Trying {
                retries_remaining: None,
            }) && announced == seq![ConnectionState::Reconnecting] && attempts == k + 1
            &&& max_retries is Some && max_retries->0 > k ==> phase == (ReconnectPhase::Trying {
                retries_remaining: Some((max_retries->0 - k) as usize),
            }) && announced == seq![ConnectionState::Reconnecting] && attempts == k + 1
            &&& max_retries is Some && 0 < max_retries->0 <= k ==> phase == ReconnectPhase::Finished
                && announced == seq![ConnectionState::Reconnecting, ConnectionState::Disconnected]
                && attempts == max_retries->0
            &&& max_retries == Some(0usize) ==> phase == ReconnectPhase::Finished && announced
                == seq![ConnectionState::Reconnecting, ConnectionState::Disconnected] && attempts
                == 0
        }),
{
    let all = seq![ReconnectEvent::Died { start: ReconnectStart::Begin, max_retries }] + failures(k);
    assert(all[0] == ReconnectEvent::Died { start: ReconnectStart::Begin, max_retries });
    assert(all.drop_first() =~= failures(k));
    let (p1, a1, t1) = reconnect_transition(ReconnectPhase::Idle, all[0]);
    match p1 {
        ReconnectPhase::Trying { retries_remaining } => {
            lemma_failures_while_trying(retries_remaining, k);
            let rest = reconnect_run(p1, failures(k)).1;
            if rest.len() == 0 {
                assert(a1 + rest =~= a1);
            } else {
                assert(a1 + rest =~= seq![ConnectionState::Reconnecting, ConnectionState::Disconnected]);
            }
        },
        ReconnectPhase::Finished => {
            lemma_finished_is_quiet(failures(k));
            assert(a1 + Seq::<ConnectionState>::empty() =~= a1);
        },
        ReconnectPhase::Idle => {},
    }
}

} // verus!
