use rust_proxy::config::Mode;
use rust_proxy::relay::{
    relay_start, relay_step, ConnectFailure, Direction, RelayAction, RelayEvent, RelayState,
};

fn finished(direction: Direction, failed: bool) -> RelayEvent {
    RelayEvent::CopyFinished { direction, failed }
}

fn drive(mut state: RelayState, events: &[RelayEvent]) -> (RelayState, Vec<RelayAction>) {
    let mut actions = Vec::new();
    for e in events {
        let (s, a) = relay_step(state, *e);
        state = s;
        actions.push(a);
    }
    (state, actions)
}

#[test]
fn echo_task_starts_one_copy() {
    let (s, a) = relay_start(Mode::Echo);
    assert_eq!(s, RelayState::Echoing);
    assert!(matches!(a, RelayAction::StartEcho));
}

#[test]
fn proxy_task_races_connect_to_echo_port_for_250_ms() {
    let (s, a) = relay_start(Mode::Proxy);
    assert_eq!(s, RelayState::Connecting);
    match a {
        RelayAction::Connect { upstream, timeout_ms } => {
            assert_eq!(upstream.ip, [127, 0, 0, 1]);
            assert_eq!(upstream.port, 2000);
            assert_eq!(timeout_ms, 250);
        }
        _ => panic!("expected a connect"),
    }
}

#[test]
fn timer_first_aborts_with_timeout() {
    let (s, a) = relay_step(RelayState::Connecting, RelayEvent::TimerFired);
    assert_eq!(s, RelayState::Aborted { failure: ConnectFailure::TimedOut });
    assert!(matches!(a, RelayAction::Abort { failure: ConnectFailure::TimedOut }));
}

#[test]
fn refused_connect_aborts_without_waiting_for_timer() {
    let (s, a) = relay_step(RelayState::Connecting, RelayEvent::ConnectFailed);
    assert_eq!(s, RelayState::Aborted { failure: ConnectFailure::Failed });
    assert!(matches!(a, RelayAction::Abort { failure: ConnectFailure::Failed }));
}

#[test]
fn unreachable_upstream_never_relays() {
    let (s, actions) = drive(
        RelayState::Connecting,
        &[
            RelayEvent::TimerFired,
            RelayEvent::Connected,
            finished(Direction::ToDownstream, false),
            RelayEvent::ConnectFailed,
        ],
    );
    assert_eq!(s, RelayState::Aborted { failure: ConnectFailure::TimedOut });
    assert!(matches!(actions[0], RelayAction::Abort { .. }));
    assert!(actions[1..].iter().all(|a| matches!(a, RelayAction::Continue)));
}

#[test]
fn connect_first_starts_both_copies() {
    let (s, a) = relay_step(RelayState::Connecting, RelayEvent::Connected);
    assert_eq!(s, RelayState::Relaying { to_downstream: true, to_upstream: true });
    assert!(matches!(a, RelayAction::StartCopies));
}

#[test]
fn timer_after_connect_is_ignored() {
    let start = RelayState::Relaying { to_downstream: true, to_upstream: true };
    let (s, a) = relay_step(start, RelayEvent::TimerFired);
    assert_eq!(s, start);
    assert!(matches!(a, RelayAction::Continue));
}

#[test]
fn client_half_close_keeps_upstream_to_client_running() {
    let (s, actions) = drive(
        RelayState::Connecting,
        &[RelayEvent::Connected, finished(Direction::ToUpstream, false)],
    );
    assert_eq!(s, RelayState::Relaying { to_downstream: true, to_upstream: false });
    assert!(matches!(actions[1], RelayAction::CloseUpstreamWrite));
    let (s, a) = relay_step(s, finished(Direction::ToDownstream, false));
    assert_eq!(s, RelayState::Closed);
    assert!(matches!(a, RelayAction::Release));
}

#[test]
fn upstream_closing_at_once_shuts_client_write_side() {
    let (s, actions) = drive(
        RelayState::Connecting,
        &[RelayEvent::Connected, finished(Direction::ToDownstream, false)],
    );
    assert_eq!(s, RelayState::Relaying { to_downstream: false, to_upstream: true });
    assert!(matches!(actions[1], RelayAction::CloseDownstreamWrite));
}

#[test]
fn client_leaving_after_upstream_closed_releases_task() {
    let (s, actions) = drive(
        RelayState::Connecting,
        &[
            RelayEvent::Connected,
            finished(Direction::ToDownstream, false),
            finished(Direction::ToUpstream, false),
        ],
    );
    assert_eq!(s, RelayState::Closed);
    assert!(matches!(actions[2], RelayAction::Release));
}

#[test]
fn write_to_closed_upstream_fails_and_releases_task() {
    let (s, a) = relay_step(
        RelayState::Relaying { to_downstream: false, to_upstream: true },
        finished(Direction::ToUpstream, true),
    );
    assert_eq!(s, RelayState::Closed);
    assert!(matches!(a, RelayAction::Release));
}

#[test]
fn copy_error_does_not_cancel_other_direction() {
    let start = RelayState::Relaying { to_downstream: true, to_upstream: true };
    let (s_err, a_err) = relay_step(start, finished(Direction::ToDownstream, true));
    let (s_ok, a_ok) = relay_step(start, finished(Direction::ToDownstream, false));
    assert_eq!(s_err, s_ok);
    assert_eq!(s_err, RelayState::Relaying { to_downstream: false, to_upstream: true });
    assert!(matches!(a_err, RelayAction::CloseDownstreamWrite));
    assert!(matches!(a_ok, RelayAction::CloseDownstreamWrite));
}

#[test]
fn repeated_finish_of_one_direction_does_not_close() {
    let (s, _) = drive(
        RelayState::Connecting,
        &[
            RelayEvent::Connected,
            finished(Direction::ToDownstream, false),
            finished(Direction::ToDownstream, true),
            finished(Direction::Loopback, false),
        ],
    );
    assert_eq!(s, RelayState::Relaying { to_downstream: false, to_upstream: true });
}

#[test]
fn echo_task_closes_when_copy_ends() {
    for failed in [false, true] {
        let (s, a) = relay_step(RelayState::Echoing, finished(Direction::Loopback, failed));
        assert_eq!(s, RelayState::Closed);
        assert!(matches!(a, RelayAction::Release));
    }
}

#[test]
fn echo_task_ignores_connect_events() {
    let (s, actions) = drive(
        RelayState::Echoing,
        &[RelayEvent::Connected, RelayEvent::TimerFired, finished(Direction::ToUpstream, false)],
    );
    assert_eq!(s, RelayState::Echoing);
    assert!(actions.iter().all(|a| matches!(a, RelayAction::Continue)));
}

#[test]
fn closed_task_stays_closed() {
    let (s, a) = relay_step(RelayState::Closed, RelayEvent::Connected);
    assert_eq!(s, RelayState::Closed);
    assert!(matches!(a, RelayAction::Continue));
}

#[test]
fn interleaved_tasks_do_not_affect_each_other() {
    let mut a = relay_start(Mode::Proxy).0;
    let mut b = relay_start(Mode::Proxy).0;
    a = relay_step(a, RelayEvent::Connected).0;
    b = relay_step(b, RelayEvent::TimerFired).0;
    a = relay_step(a, finished(Direction::ToUpstream, false)).0;
    assert_eq!(a, RelayState::Relaying { to_downstream: true, to_upstream: false });
    assert_eq!(b, RelayState::Aborted { failure: ConnectFailure::TimedOut });
    a = relay_step(a, finished(Direction::ToDownstream, false)).0;
    assert_eq!(a, RelayState::Closed);
    assert_eq!(b, RelayState::Aborted { failure: ConnectFailure::TimedOut });
}
