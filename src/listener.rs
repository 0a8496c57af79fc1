use vstd::prelude::*;

verus! {

/// Where a shard's accept loop stands.
#[derive(Clone, Copy, Debug, PartialEq, Eq, Structural)]
pub enum ListenerState {
    Accepting,
    Stopped,
}

/// What the listening socket hands a shard's accept loop.
#[derive(Clone, Copy, Debug, PartialEq, Eq, Structural)]
pub enum ListenerEvent {
    /// A connection was accepted.
    Accepted,
    /// Accepting failed.
    AcceptFailed,
    /// The stream of incoming connections ended.
    Exhausted,
}

/// What the accept loop is to do.
#[derive(Clone, Copy, Debug, PartialEq, Eq, Structural)]
pub enum ListenerAction {
    /// Spawn a detached relay task for the accepted connection and accept again
    /// at once.
    SpawnRelay,
    /// End this shard's accept loop.
    Stop,
}

pub open spec fn listener_next(s: ListenerState, e: ListenerEvent) -> (
    ListenerState,
    ListenerAction,
) {
    match (s, e) {
        (ListenerState::Accepting, ListenerEvent::Accepted) => (
            ListenerState::Accepting,
            ListenerAction::SpawnRelay,
        ),
        _ => (ListenerState::Stopped, ListenerAction::Stop),
    }
}

/// Advances a shard's accept loop by one event.
pub fn listener_step(s: ListenerState, e: ListenerEvent) -> (r: (ListenerState, ListenerAction))
    ensures
        r == listener_next(s, e),
        r.1 is SpawnRelay <==> r.0 is Accepting,
        s is Stopped ==> r == (ListenerState::Stopped, ListenerAction::Stop),
{
    match s {
        ListenerState::Accepting => match e {
            ListenerEvent::Accepted => (ListenerState::Accepting, ListenerAction::SpawnRelay),
            ListenerEvent::AcceptFailed => (ListenerState::Stopped, ListenerAction::Stop),
            ListenerEvent::Exhausted => (ListenerState::Stopped, ListenerAction::Stop),
        },
        ListenerState::Stopped => (ListenerState::Stopped, ListenerAction::Stop),
    }
}

/// The actions an accept loop asks for along a sequence of events.
pub open spec fn listener_actions(s: ListenerState, events: Seq<ListenerEvent>) -> Seq<
    ListenerAction,
>
    decreases events.len(),
{
    if events.len() == 0 {
        Seq::empty()
    } else {
        seq![listener_next(s, events[0]).1] + listener_actions(
            listener_next(s, events[0]).0,
            events.drop_first(),
        )
    }
}

proof fn lemma_stopped_stays_stopped(events: Seq<ListenerEvent>)
    ensures
        listener_actions(ListenerState::Stopped, events).len() == events.len(),
        forall|i: int|
            0 <= i < events.len() ==> (#[trigger] listener_actions(
                ListenerState::Stopped,
                events,
            )[i]) == ListenerAction::Stop,
    decreases events.len(),
{
    if events.len() > 0 {
        lemma_stopped_stays_stopped(events.drop_first());
        let acts = listener_actions(ListenerState::Stopped, events);
        assert forall|i: int| 0 <= i < events.len() implies (#[trigger] acts[i])
            == ListenerAction::Stop by {
            if i > 0 {
                assert(acts[i] == listener_actions(ListenerState::Stopped, events.drop_first())[i
                    - 1]);
            }
        }
    }
}

/// An accept loop spawns a relay task for each accepted connection, without
/// waiting for any of them, up to its first failure or the end of the
/// incoming stream; from then on it has stopped for good.
pub proof fn lemma_spawns_until_first_failure(events: Seq<ListenerEvent>)
    ensures
        listener_actions(ListenerState::Accepting, events).len() == events.len(),
        forall|i: int|
            0 <= i < events.len() ==> ((#[trigger] listener_actions(
                ListenerState::Accepting,
                events,
            )[i]) == ListenerAction::SpawnRelay <==> forall|j: int|
                0 <= j <= i ==> (#[trigger] events[j]) is Accepted),
        forall|i: int|
            0 <= i < events.len() ==> ((#[trigger] listener_actions(
                ListenerState::Accepting,
                events,
            )[i]) == ListenerAction::SpawnRelay || listener_actions(
                ListenerState::Accepting,
                events,
            )[i] == ListenerAction::Stop),
    decreases events.len(),
{
    if events.len() > 0 {
        let rest = events.drop_first();
        let acts = listener_actions(ListenerState::Accepting, events);
        if events[0] is Accepted {
            lemma_spawns_until_first_failure(rest);
            let racts = listener_actions(ListenerState::Accepting, rest);
            assert forall|i: int| 0 <= i < events.len() implies ((#[trigger] acts[i])
                == ListenerAction::SpawnRelay <==> forall|j: int|
                0 <= j <= i ==> (#[trigger] events[j]) is Accepted) by {
                if i > 0 {
                    assert(acts[i] == racts[i - 1]);
                    if forall|j: int| 0 <= j <= i - 1 ==> (#[trigger] rest[j]) is Accepted {
                        assert forall|j: int| 0 <= j <= i implies (#[trigger] events[j]) is Accepted by {
                            if j > 0 {
                                assert(events[j] == rest[j - 1]);
                            }
                        }
                    } else {
                        let j = choose|j: int| 0 <= j <= i - 1 && !((#[trigger] rest[j]) is Accepted);
                        assert(events[j + 1] == rest[j]);
                    }
                }
            }
            assert forall|i: int| 0 <= i < events.len() implies ((#[trigger] acts[i])
                == ListenerAction::SpawnRelay || acts[i] == ListenerAction::Stop) by {
                if i > 0 {
                    assert(acts[i] == racts[i - 1]);
                }
            }
        } else {
            lemma_stopped_stays_stopped(rest);
            let racts = listener_actions(ListenerState::Stopped, rest);
            assert forall|i: int| 0 <= i < events.len() implies (#[trigger] acts[i])
                == ListenerAction::Stop && !(forall|j: int|
                0 <= j <= i ==> (#[trigger] events[j]) is Accepted) by {
                if i > 0 {
                    assert(acts[i] == racts[i - 1]);
                }
                assert(!(events[0] is Accepted));
            }
        }
    }
}

} // verus!
