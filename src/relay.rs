use vstd::prelude::*;

use crate::config::{
    is_loopback, listen_port, upstream_endpoint, Endpoint, Mode, CONNECT_TIMEOUT_MS,
};

verus! {

/// One direction of byte copying inside a relay task.
#[derive(Clone, Copy, Debug, PartialEq, Eq, Structural)]
pub enum Direction {
    /// Upstream read half into downstream write half.
    ToDownstream,
    /// Downstream read half into upstream write half.
    ToUpstream,
    /// Downstream read half back into its own write half (echo mode).
    Loopback,
}

/// Why a proxy relay task gave up before relaying anything.
#[derive(Clone, Copy, Debug, PartialEq, Eq, Structural)]
pub enum ConnectFailure {
    /// The timer fired before the upstream connect completed.
    TimedOut,
    /// The upstream connect completed with an error.
    Failed,
}

/// Where a relay task stands.
#[derive(Clone, Copy, Debug, PartialEq, Eq, Structural)]
pub enum RelayState {
    /// Racing the upstream connect against the timer.
    Connecting,
    /// Copying the downstream's bytes back to it.
    Echoing,
    /// Both copy directions were started; each flag is true while that
    /// direction is still running.
    Relaying { to_downstream: bool, to_upstream: bool },
    /// The connect race was lost; the downstream connection is dropped.
    Aborted { failure: ConnectFailure },
    /// Every copy has finished; both connections are released.
    Closed,
}

/// What the runtime reports to a relay task.
#[derive(Clone, Copy, Debug, PartialEq, Eq, Structural)]
pub enum RelayEvent {
    /// The upstream connect completed successfully.
    Connected,
    /// The upstream connect completed with an error.
    ConnectFailed,
    /// The connect timer fired.
    TimerFired,
    /// A copy reached end of stream (`failed` false) or an I/O error (`failed` true).
    CopyFinished { direction: Direction, failed: bool },
}

/// What the runtime is to do for a relay task.
#[derive(Clone, Copy, Debug)]
pub enum RelayAction {
    /// Race a connect to `upstream` against a timer of `timeout_ms` milliseconds.
    Connect { upstream: Endpoint, timeout_ms: u64 },
    /// Spawn the single copy of the downstream's bytes back to itself.
    StartEcho,
    /// Spawn both copy directions, each independent of the other.
    StartCopies,
    /// Abandon the connect attempt and drop the downstream connection.
    Abort { failure: ConnectFailure },
    /// Shut down the downstream connection's write side: the client reads end
    /// of stream, while its own direction may still run.
    CloseDownstreamWrite,
    /// Shut down the upstream connection's write side: the upstream reads end
    /// of stream, while its own direction may still run.
    CloseUpstreamWrite,
    /// Nothing to do: keep waiting.
    Continue,
    /// Release both connections: the task is over.
    Release,
}

pub open spec fn is_terminal(s: RelayState) -> bool {
    s is Aborted || s is Closed
}

/// The state that a relay task enters on an event, with the action it asks for.
pub open spec fn next(s: RelayState, e: RelayEvent) -> (RelayState, RelayAction) {
    match s {
        RelayState::Connecting => match e {
            RelayEvent::Connected => (
                RelayState::Relaying { to_downstream: true, to_upstream: true },
                RelayAction::StartCopies,
            ),
            RelayEvent::ConnectFailed => (
                RelayState::Aborted { failure: ConnectFailure::Failed },
                RelayAction::Abort { failure: ConnectFailure::Failed },
            ),
            RelayEvent::TimerFired => (
                RelayState::Aborted { failure: ConnectFailure::TimedOut },
                RelayAction::Abort { failure: ConnectFailure::TimedOut },
            ),
            RelayEvent::CopyFinished { .. } => (s, RelayAction::Continue),
        },
        RelayState::Echoing => match e {
            RelayEvent::CopyFinished { direction: Direction::Loopback, .. } => (
                RelayState::Closed,
                RelayAction::Release,
            ),
            _ => (s, RelayAction::Continue),
        },
        RelayState::Relaying { to_downstream, to_upstream } => match e {
            RelayEvent::CopyFinished { direction: Direction::ToDownstream, .. } if to_downstream =>
                if to_upstream {
                (
                    RelayState::Relaying { to_downstream: false, to_upstream },
                    RelayAction::CloseDownstreamWrite,
                )
            } else {
                (RelayState::Closed, RelayAction::Release)
            },
            RelayEvent::CopyFinished { direction: Direction::ToUpstream, .. } if to_upstream =>
                if to_downstream {
                (
                    RelayState::Relaying { to_downstream, to_upstream: false },
                    RelayAction::CloseUpstreamWrite,
                )
            } else {
                (RelayState::Closed, RelayAction::Release)
            },
            _ => (s, RelayAction::Continue),
        },
        RelayState::Aborted { .. } => (s, RelayAction::Continue),
        RelayState::Closed => (s, RelayAction::Continue),
    }
}

/// A state that some run of a relay task reaches: no relaying task has both
/// directions finished without being closed.
pub open spec fn reachable(s: RelayState) -> bool {
    s matches RelayState::Relaying { to_downstream, to_upstream } ==> to_downstream || to_upstream
}

/// The state after a sequence of events.
pub open spec fn state_after(s: RelayState, events: Seq<RelayEvent>) -> RelayState
    decreases events.len(),
{
    if events.len() == 0 {
        s
    } else {
        state_after(next(s, events[0]).0, events.drop_first())
    }
}

/// The actions asked for along a sequence of events, one per event.
pub open spec fn actions(s: RelayState, events: Seq<RelayEvent>) -> Seq<RelayAction>
    decreases events.len(),
{
    if events.len() == 0 {
        Seq::empty()
    } else {
        seq![next(s, events[0]).1] + actions(next(s, events[0]).0, events.drop_first())
    }
}

/// Whether `events` reports the end of the copy in direction `d`.
pub open spec fn finishes(events: Seq<RelayEvent>, d: Direction) -> bool {
    exists|i: int|
        0 <= i < events.len() && (#[trigger] events[i]) is CopyFinished
            && events[i]->direction == d
}

/// Whether copy direction `d` is still running in state `s`.
pub open spec fn running(s: RelayState, d: Direction) -> bool {
    match s {
        RelayState::Echoing => d is Loopback,
        RelayState::Relaying { to_downstream, to_upstream } => match d {
            Direction::ToDownstream => to_downstream,
            Direction::ToUpstream => to_upstream,
            Direction::Loopback => false,
        },
        _ => false,
    }
}

/// Whether action `a` shuts the write side that direction `d` copies into,
/// on its own or by releasing both connections.
pub open spec fn shuts_writer_of(a: RelayAction, d: Direction) -> bool {
    match d {
        Direction::ToDownstream => a is CloseDownstreamWrite || a is Release,
        Direction::ToUpstream => a is CloseUpstreamWrite || a is Release,
        Direction::Loopback => a is Release,
    }
}

pub open spec fn start(mode: Mode) -> RelayState {
    match mode {
        Mode::Echo => RelayState::Echoing,
        Mode::Proxy => RelayState::Connecting,
    }
}

/// The first state of a relay task for a newly accepted connection, and what
/// to do for it: an echo copy, or the bounded race for an upstream connection.
pub fn relay_start(mode: Mode) -> (r: (RelayState, RelayAction))
    ensures
        r.0 == start(mode),
        reachable(r.0),
        mode is Echo ==> r.1 is StartEcho,
        mode is Proxy ==> (r.1 matches RelayAction::Connect { upstream, timeout_ms }
            && timeout_ms == CONNECT_TIMEOUT_MS && is_loopback(upstream)
            && upstream.port == listen_port(Mode::Echo)),
{
    match mode {
        Mode::Echo => (RelayState::Echoing, RelayAction::StartEcho),
        Mode::Proxy => (
            RelayState::Connecting,
            RelayAction::Connect { upstream: upstream_endpoint(), timeout_ms: CONNECT_TIMEOUT_MS },
        ),
    }
}

/// Advances a relay task by one event.
pub fn relay_step(s: RelayState, e: RelayEvent) -> (r: (RelayState, RelayAction))
    ensures
        r == next(s, e),
        reachable(s) ==> reachable(r.0),
        r.0 is Closed && !(s is Closed) ==> r.1 is Release,
        r.1 is Release ==> r.0 is Closed,
        r.1 is StartCopies ==> s is Connecting,
        is_terminal(s) ==> r.0 == s && r.1 is Continue,
        forall|d: Direction|
            #![trigger running(r.0, d)]
            running(s, d) ==> if e is CopyFinished && e->direction == d {
                shuts_writer_of(r.1, d) && !running(r.0, d)
            } else {
                running(r.0, d)
            },
{
    match s {
        RelayState::Connecting => match e {
            RelayEvent::Connected => (
                RelayState::Relaying { to_downstream: true, to_upstream: true },
                RelayAction::StartCopies,
            ),
            RelayEvent::ConnectFailed => (
                RelayState::Aborted { failure: ConnectFailure::Failed },
                RelayAction::Abort { failure: ConnectFailure::Failed },
            ),
            RelayEvent::TimerFired => (
                RelayState::Aborted { failure: ConnectFailure::TimedOut },
                RelayAction::Abort { failure: ConnectFailure::TimedOut },
            ),
            RelayEvent::CopyFinished { .. } => (s, RelayAction::Continue),
        },
        RelayState::Echoing => match e {
            RelayEvent::CopyFinished { direction: Direction::Loopback, .. } => (
                RelayState::Closed,
                RelayAction::Release,
            ),
            _ => (s, RelayAction::Continue),
        },
        RelayState::Relaying { to_downstream, to_upstream } => match e {
            RelayEvent::CopyFinished { direction: Direction::ToDownstream, .. } if to_downstream => {
                if to_upstream {
                    (
                        RelayState::Relaying { to_downstream: false, to_upstream },
                        RelayAction::CloseDownstreamWrite,
                    )
                } else {
                    (RelayState::Closed, RelayAction::Release)
                }
            },
            RelayEvent::CopyFinished { direction: Direction::ToUpstream, .. } if to_upstream => {
                if to_downstream {
                    (
                        RelayState::Relaying { to_downstream, to_upstream: false },
                        RelayAction::CloseUpstreamWrite,
                    )
                } else {
                    (RelayState::Closed, RelayAction::Release)
                }
            },
            _ => (s, RelayAction::Continue),
        },
        RelayState::Aborted { .. } => (s, RelayAction::Continue),
        RelayState::Closed => (s, RelayAction::Continue),
    }
}

proof fn lemma_finishes_unfold(events: Seq<RelayEvent>, d: Direction)
    requires
        events.len() > 0,
    ensures
        finishes(events, d) <==> (events[0] is CopyFinished && events[0]->direction == d)
            || finishes(events.drop_first(), d),
{
    let rest = events.drop_first();
    if finishes(events, d) {
        let i = choose|i: int|
            0 <= i < events.len() && (#[trigger] events[i]) is CopyFinished
                && events[i]->direction == d;
        if i > 0 {
            assert(rest[i - 1] == events[i]);
        }
    }
    if finishes(rest, d) {
        let j = choose|j: int|
            0 <= j < rest.len() && (#[trigger] rest[j]) is CopyFinished && rest[j]->direction == d;
        assert(events[j + 1] == rest[j]);
    }
    if events[0] is CopyFinished && events[0]->direction == d {
        assert(finishes(events, d));
    }
}

/// Once a relay task has ended, by a lost connect race or by closing, no
/// further event changes its state or asks for anything.
pub proof fn lemma_terminal_absorbs(s: RelayState, events: Seq<RelayEvent>)
    requires
        is_terminal(s),
    ensures
        state_after(s, events) == s,
        actions(s, events).len() == events.len(),
        forall|i: int| 0 <= i < events.len() ==> (#[trigger] actions(s, events)[i]) is Continue,
    decreases events.len(),
{
    if events.len() > 0 {
        lemma_terminal_absorbs(s, events.drop_first());
        let rest = actions(s, events.drop_first());
        assert forall|i: int| 0 <= i < events.len() implies (#[trigger] actions(s, events)[i]) is Continue by {
            if i > 0 {
                assert(actions(s, events)[i] == rest[i - 1]);
            }
        }
    }
}

/// An upstream connect that fails, or that the timer outruns, ends the proxy
/// relay task at once: the downstream connection is dropped, and whatever
/// comes after, no copy is ever started.
pub proof fn lemma_lost_connect_relays_nothing(first: RelayEvent, rest: Seq<RelayEvent>)
    requires
        first is TimerFired || first is ConnectFailed,
    ensures
        ({
            let failure = if first is TimerFired {
                ConnectFailure::TimedOut
            } else {
                ConnectFailure::Failed
            };
            let events = seq![first] + rest;
            &&& state_after(RelayState::Connecting, events) == (RelayState::Aborted { failure })
            &&& actions(RelayState::Connecting, events)[0] == (RelayAction::Abort { failure })
            &&& actions(RelayState::Connecting, events).len() == events.len()
            &&& forall|i: int|
                1 <= i < events.len() ==> (#[trigger] actions(
                    RelayState::Connecting,
                    events,
                )[i]) is Continue
        }),
{
    let events = seq![first] + rest;
    assert(events[0] == first);
    assert(events.drop_first() =~= rest);
    let s1 = next(RelayState::Connecting, first).0;
    lemma_terminal_absorbs(s1, rest);
    let acts = actions(RelayState::Connecting, events);
    assert forall|i: int| 1 <= i < events.len() implies (#[trigger] acts[i]) is Continue by {
        assert(acts[i] == actions(s1, rest)[i - 1]);
    }
}

/// A failed copy ends its direction exactly as end of stream does: copy
/// errors are only reported, and never cancel the other direction.
pub proof fn lemma_copy_errors_observational(s: RelayState, direction: Direction)
    ensures
        next(s, RelayEvent::CopyFinished { direction, failed: true }) == next(
            s,
            RelayEvent::CopyFinished { direction, failed: false },
        ),
{
}

/// The two directions of a proxy relay task finish independently: the task
/// closes exactly when every direction that was running has reported its
/// end, and until then each direction that has not is still running.
pub proof fn lemma_closes_when_both_directions_finish(
    to_downstream: bool,
    to_upstream: bool,
    events: Seq<RelayEvent>,
)
    requires
        to_downstream || to_upstream,
    ensures
        state_after(RelayState::Relaying { to_downstream, to_upstream }, events) == (if (to_downstream
            ==> finishes(events, Direction::ToDownstream)) && (to_upstream ==> finishes(
            events,
            Direction::ToUpstream,
        )) {
            RelayState::Closed
        } else {
            RelayState::Relaying {
                to_downstream: to_downstream && !finishes(events, Direction::ToDownstream),
                to_upstream: to_upstream && !finishes(events, Direction::ToUpstream),
            }
        }),
    decreases events.len(),
{
    if events.len() > 0 {
        let rest = events.drop_first();
        lemma_finishes_unfold(events, Direction::ToDownstream);
        lemma_finishes_unfold(events, Direction::ToUpstream);
        let s = RelayState::Relaying { to_downstream, to_upstream };
        let s1 = next(s, events[0]).0;
        if s1 is Closed {
            lemma_terminal_absorbs(s1, rest);
        } else {
            let a = s1->to_downstream;
            let b = s1->to_upstream;
            lemma_closes_when_both_directions_finish(a, b, rest);
        }
    }
}

proof fn lemma_actions_len(s: RelayState, events: Seq<RelayEvent>)
    ensures
        actions(s, events).len() == events.len(),
    decreases events.len(),
{
    if events.len() > 0 {
        lemma_actions_len(next(s, events[0]).0, events.drop_first());
    }
}

/// A running copy direction that reports its end has the write side it
/// copied into shut at that very event, whatever the other direction does:
/// the peer on that side reads end of stream instead of waiting.
pub proof fn lemma_finished_direction_shuts_its_writer(
    s: RelayState,
    d: Direction,
    events: Seq<RelayEvent>,
    i: int,
)
    requires
        running(s, d),
        0 <= i < events.len(),
        events[i] is CopyFinished,
        events[i]->direction == d,
        !finishes(events.take(i), d),
    ensures
        shuts_writer_of(actions(s, events)[i], d),
    decreases events.len(),
{
    lemma_actions_len(s, events);
    if i > 0 {
        let rest = events.drop_first();
        let s1 = next(s, events[0]).0;
        assert(events.take(i)[0] == events[0]);
        if events[0] is CopyFinished && events[0]->direction == d {
            assert(finishes(events.take(i), d));
        }
        assert(running(s1, d));
        assert(rest[i - 1] == events[i]);
        if finishes(rest.take(i - 1), d) {
            let j = choose|j: int|
                0 <= j < rest.take(i - 1).len() && (#[trigger] rest.take(i - 1)[j]) is CopyFinished
                    && rest.take(i - 1)[j]->direction == d;
            assert(events.take(i)[j + 1] == rest.take(i - 1)[j]);
        }
        lemma_finished_direction_shuts_its_writer(s1, d, rest, i - 1);
        lemma_actions_len(s1, rest);
        assert(actions(s, events)[i] == actions(s1, rest)[i - 1]);
    }
}

/// A proxy relay task that got its upstream connection shuts the client's
/// write side as soon as the upstream's direction ends, whatever the client
/// does: an upstream that closes at once leaves the client reading end of
/// stream. The task closes once both directions have finished, and while the
/// upstream's direction runs, a client that half-closed still receives what
/// the upstream sends.
pub proof fn lemma_proxy_connection_lifecycle(events: Seq<RelayEvent>)
    ensures
        state_after(RelayState::Connecting, seq![RelayEvent::Connected] + events) is Closed <==> finishes(
            events,
            Direction::ToDownstream,
        ) && finishes(events, Direction::ToUpstream),
        !finishes(events, Direction::ToDownstream) ==> running(
            state_after(RelayState::Connecting, seq![RelayEvent::Connected] + events),
            Direction::ToDownstream,
        ),
        forall|i: int|
            0 <= i < events.len() && (#[trigger] events[i]) is CopyFinished && events[i]->direction
                == Direction::ToDownstream && !finishes(events.take(i), Direction::ToDownstream)
                ==> shuts_writer_of(
                actions(RelayState::Connecting, seq![RelayEvent::Connected] + events)[i + 1],
                Direction::ToDownstream,
            ),
{
    let all = seq![RelayEvent::Connected] + events;
    let s1 = RelayState::Relaying { to_downstream: true, to_upstream: true };
    assert(all[0] == RelayEvent::Connected);
    assert(all.drop_first() =~= events);
    lemma_closes_when_both_directions_finish(true, true, events);
    lemma_actions_len(s1, events);
    assert forall|i: int|
        0 <= i < events.len() && (#[trigger] events[i]) is CopyFinished && events[i]->direction
            == Direction::ToDownstream && !finishes(events.take(i), Direction::ToDownstream)
            implies shuts_writer_of(
            actions(RelayState::Connecting, all)[i + 1],
            Direction::ToDownstream,
        ) by {
        lemma_finished_direction_shuts_its_writer(s1, Direction::ToDownstream, events, i);
        assert(actions(RelayState::Connecting, all)[i + 1] == actions(s1, events)[i]);
    }
}

/// An echo relay task closes exactly when its one copy has finished.
pub proof fn lemma_echo_closes_when_copy_finishes(events: Seq<RelayEvent>)
    ensures
        state_after(RelayState::Echoing, events) == (if finishes(events, Direction::Loopback) {
            RelayState::Closed
        } else {
            RelayState::Echoing
        }),
    decreases events.len(),
{
    if events.len() > 0 {
        let rest = events.drop_first();
        lemma_finishes_unfold(events, Direction::Loopback);
        if next(RelayState::Echoing, events[0]).0 is Closed {
            lemma_terminal_absorbs(RelayState::Closed, rest);
        } else {
            lemma_echo_closes_when_copy_finishes(rest);
        }
    }
}

} // verus!
