use tunnel_client::dispatch::{Connector, Listener, ReverseProtocol, ReverseTunnel};
use tunnel_client::endpoint::{
    Direction, Host, LocalAddr, LocalToRemote, Platform, Protocol, Target,
};
use tunnel_client::error::ConfigError;
use tunnel_client::supervisor::{
    Action, Event, Phase, Supervisor, TunnelId, EXIT_SUCCESS, GRACE_PERIOD_MILLIS,
};

fn bind(port: u16) -> LocalAddr {
    LocalAddr::V4 { ip: [127, 0, 0, 1], port }
}

fn target() -> Target {
    Target { host: Host::Domain(String::from("example.com")), port: 443 }
}

fn local(port: u16, local_protocol: Protocol) -> LocalToRemote {
    LocalToRemote {
        direction: Direction::LocalInitiated,
        local_protocol,
        local: bind(port),
        remote: target(),
    }
}

fn remote(port: u16, local_protocol: Protocol) -> LocalToRemote {
    LocalToRemote {
        direction: Direction::RemoteInitiated,
        local_protocol,
        local: bind(port),
        remote: target(),
    }
}

fn tcp() -> Protocol {
    Protocol::Tcp { proxy_protocol: false }
}

fn stdio() -> Protocol {
    Protocol::Stdio { proxy_protocol: false }
}

fn forward_id(index: usize) -> TunnelId {
    TunnelId { direction: Direction::LocalInitiated, index }
}

fn reverse_id(index: usize) -> TunnelId {
    TunnelId { direction: Direction::RemoteInitiated, index }
}

fn tcp_listener(port: u16) -> Listener {
    Listener::Tcp { bind: bind(port), remote: target(), proxy_protocol: false }
}

fn supervisor(locals: Vec<LocalToRemote>, remotes: Vec<LocalToRemote>) -> Supervisor {
    match Supervisor::new(locals, remotes, Platform::Linux) {
        Ok(supervisor) => supervisor,
        Err(error) => panic!("the configuration was refused: {:?}", error),
    }
}

#[test]
fn nothing_to_do_is_done_at_once() {
    let s = supervisor(vec![], vec![]);
    assert_eq!(s.phase(), Phase::Dispatching);
    assert_eq!(s.pending(), 0);
    let (s, action) = s.step(Event::Next);
    assert_eq!(action, Action::Done);
    assert_eq!(s.phase(), Phase::Dispatching);
    let (_, action) = s.step(Event::Next);
    assert_eq!(action, Action::Done);
}

#[test]
fn reverse_tunnels_run_before_forward_tunnels() {
    let s = supervisor(vec![local(1000, tcp())], vec![remote(2000, tcp()), remote(2001, tcp())]);
    assert_eq!(s.pending(), 3);
    let (s, first) = s.step(Event::Next);
    assert_eq!(
        first,
        Action::RunReverse {
            id: reverse_id(0),
            connector: Connector::Tcp { target: target() },
            announce: ReverseTunnel {
                protocol: ReverseProtocol::Tcp,
                listen: Target { host: Host::Ipv4([127, 0, 0, 1]), port: 2000 },
            },
        }
    );
    let (s, second) = s.step(Event::Next);
    assert!(matches!(second, Action::RunReverse { id, .. } if id == reverse_id(1)));
    let (s, third) = s.step(Event::Next);
    assert_eq!(third, Action::BuildListener { id: forward_id(0), listener: tcp_listener(1000) });
    assert_eq!(s.phase(), Phase::AwaitingListener { id: forward_id(0), stdio: false });
    let (s, fourth) = s.step(Event::ListenerReady);
    assert_eq!(fourth, Action::RunForward { id: forward_id(0) });
    let (s, last) = s.step(Event::Next);
    assert_eq!(last, Action::Done);
    assert_eq!(s.started(), &vec![reverse_id(0), reverse_id(1), forward_id(0)]);
    assert_eq!(s.pending(), 0);
}

#[test]
fn a_listener_that_fails_does_not_stop_the_next_tunnel() {
    let s = supervisor(vec![local(1000, tcp()), local(1001, tcp())], vec![]);
    let (s, action) = s.step(Event::Next);
    assert_eq!(action, Action::BuildListener { id: forward_id(0), listener: tcp_listener(1000) });
    let (s, action) = s.step(Event::ListenerFailed);
    assert_eq!(action, Action::ReportFailure { id: forward_id(0) });
    assert_eq!(s.phase(), Phase::Dispatching);
    let (s, action) = s.step(Event::Next);
    assert_eq!(action, Action::BuildListener { id: forward_id(1), listener: tcp_listener(1001) });
    let (s, action) = s.step(Event::ListenerReady);
    assert_eq!(action, Action::RunForward { id: forward_id(1) });
    let (s, action) = s.step(Event::Next);
    assert_eq!(action, Action::Done);
    assert_eq!(s.started(), &vec![forward_id(1)]);
}

#[test]
fn a_failing_reverse_neighbour_changes_nothing_either() {
    let s = supervisor(vec![local(1000, tcp())], vec![remote(2000, tcp())]);
    let (s, _) = s.step(Event::Next);
    let (s, action) = s.step(Event::Next);
    assert!(matches!(action, Action::BuildListener { .. }));
    let (s, action) = s.step(Event::ListenerFailed);
    assert_eq!(action, Action::ReportFailure { id: forward_id(0) });
    let (s, action) = s.step(Event::Next);
    assert_eq!(action, Action::Done);
    assert_eq!(s.started(), &vec![reverse_id(0)]);
}

#[test]
fn stdio_closing_ends_the_process_after_the_grace_period() {
    let s = supervisor(vec![local(0, stdio()), local(1001, tcp())], vec![]);
    let (s, action) = s.step(Event::Next);
    assert_eq!(
        action,
        Action::BuildListener {
            id: forward_id(0),
            listener: Listener::Stdio { remote: target(), proxy_protocol: false },
        }
    );
    assert_eq!(s.phase(), Phase::AwaitingListener { id: forward_id(0), stdio: true });
    let (s, action) = s.step(Event::ListenerReady);
    assert_eq!(action, Action::RunForward { id: forward_id(0) });
    assert_eq!(s.phase(), Phase::StdioRunning);
    let (s, action) = s.step(Event::Next);
    assert_eq!(action, Action::AwaitShutdown);
    let (s, action) = s.step(Event::StdioClosed);
    assert_eq!(action, Action::Sleep { millis: 1000 });
    assert_eq!(s.phase(), Phase::Grace);
    let (s, action) = s.step(Event::GraceElapsed);
    assert_eq!(action, Action::Exit { status: 0 });
    assert_eq!(s.phase(), Phase::Exited);
    assert_eq!(s.pending(), 1);
    assert_eq!(s.started(), &vec![forward_id(0)]);
}

#[test]
fn an_interrupt_ends_the_process_like_a_closed_stdio() {
    let s = supervisor(vec![local(0, stdio())], vec![]);
    let (s, _) = s.step(Event::Next);
    let (s, _) = s.step(Event::ListenerReady);
    let (s, action) = s.step(Event::Interrupted);
    assert_eq!(action, Action::Sleep { millis: GRACE_PERIOD_MILLIS });
    let (s, action) = s.step(Event::GraceElapsed);
    assert_eq!(action, Action::Exit { status: EXIT_SUCCESS });
    let (_, action) = s.step(Event::Next);
    assert_eq!(action, Action::Exit { status: 0 });
}

#[test]
fn the_first_of_close_and_interrupt_counts() {
    let s = supervisor(vec![local(0, stdio())], vec![]);
    let (s, _) = s.step(Event::Next);
    let (s, _) = s.step(Event::ListenerReady);
    let (s, first) = s.step(Event::StdioClosed);
    assert_eq!(first, Action::Sleep { millis: 1000 });
    let (s, second) = s.step(Event::Interrupted);
    assert_eq!(second, Action::Idle);
    assert_eq!(s.phase(), Phase::Grace);
    let (s, third) = s.step(Event::StdioClosed);
    assert_eq!(third, Action::Idle);
    let (_, action) = s.step(Event::GraceElapsed);
    assert_eq!(action, Action::Exit { status: 0 });
}

#[test]
fn a_stdio_listener_that_fails_lets_the_rest_start() {
    let s = supervisor(vec![local(0, stdio()), local(1001, tcp())], vec![]);
    let (s, _) = s.step(Event::Next);
    let (s, action) = s.step(Event::ListenerFailed);
    assert_eq!(action, Action::ReportFailure { id: forward_id(0) });
    assert_eq!(s.phase(), Phase::Dispatching);
    let (_, action) = s.step(Event::Next);
    assert_eq!(action, Action::BuildListener { id: forward_id(1), listener: tcp_listener(1001) });
}

#[test]
fn an_interrupt_without_stdio_is_not_the_supervisors_business() {
    let s = supervisor(vec![local(1000, tcp())], vec![]);
    let (s, action) = s.step(Event::Interrupted);
    assert_eq!(action, Action::Idle);
    assert_eq!(s.pending(), 1);
    let (s, _) = s.step(Event::Next);
    let (s, action) = s.step(Event::Interrupted);
    assert_eq!(action, Action::Idle);
    assert_eq!(s.phase(), Phase::AwaitingListener { id: forward_id(0), stdio: false });
    let (s, action) = s.step(Event::StdioClosed);
    assert_eq!(action, Action::Idle);
    let (s, action) = s.step(Event::GraceElapsed);
    assert_eq!(action, Action::Idle);
    let (_, action) = s.step(Event::Next);
    assert_eq!(action, Action::Idle);
}

#[test]
fn events_out_of_place_are_idle() {
    let s = supervisor(vec![local(1000, tcp())], vec![]);
    let (s, action) = s.step(Event::ListenerReady);
    assert_eq!(action, Action::Idle);
    let (s, action) = s.step(Event::ListenerFailed);
    assert_eq!(action, Action::Idle);
    let (s, action) = s.step(Event::GraceElapsed);
    assert_eq!(action, Action::Idle);
    assert_eq!(s.phase(), Phase::Dispatching);
    assert_eq!(s.pending(), 1);
    assert!(s.started().is_empty());
}

#[test]
fn descriptions_that_run_nothing_take_no_place_in_the_queue() {
    let s = supervisor(
        vec![local(1000, tcp())],
        vec![remote(2000, stdio()), remote(2001, Protocol::TransparentTcp), remote(2002, tcp())],
    );
    assert_eq!(s.pending(), 2);
    let (s, action) = s.step(Event::Next);
    assert!(matches!(action, Action::RunReverse { id, .. } if id == reverse_id(2)));
    let (_, action) = s.step(Event::Next);
    assert!(matches!(action, Action::BuildListener { id, .. } if id == forward_id(0)));
}

#[test]
fn a_description_in_the_wrong_list_is_passed_over() {
    let s = supervisor(vec![remote(2000, tcp()), local(1000, tcp())], vec![local(1001, tcp())]);
    assert_eq!(s.pending(), 1);
    let (s, action) = s.step(Event::Next);
    assert_eq!(action, Action::BuildListener { id: forward_id(1), listener: tcp_listener(1000) });
    let (s, _) = s.step(Event::ListenerReady);
    let (_, action) = s.step(Event::Next);
    assert_eq!(action, Action::Done);
}

#[test]
fn a_rejected_description_refuses_the_whole_configuration() {
    let refused = Supervisor::new(
        vec![local(1000, tcp()), local(1001, Protocol::TransparentTcp)],
        vec![remote(2000, tcp())],
        Platform::Unix,
    );
    assert_eq!(refused, Err(ConfigError::TransparentProxyUnavailable));
}

#[test]
fn the_first_rejection_is_reported_remote_list_first() {
    let unix = Protocol::Unix { path: String::from("/tmp/s"), proxy_protocol: false };
    let refused = Supervisor::new(
        vec![local(1000, Protocol::TransparentTcp), local(1001, unix.clone())],
        vec![remote(2000, tcp()), remote(2001, unix.clone())],
        Platform::Other,
    );
    assert_eq!(refused, Err(ConfigError::UnixSocketUnavailable));
    let refused = Supervisor::new(
        vec![local(1000, Protocol::TransparentTcp), local(1001, unix)],
        vec![remote(2000, tcp())],
        Platform::Other,
    );
    assert_eq!(refused, Err(ConfigError::TransparentProxyUnavailable));
}

#[test]
fn a_misplaced_description_is_never_rejected() {
    let s = Supervisor::new(
        vec![],
        vec![local(1000, Protocol::TransparentTcp)],
        Platform::Other,
    );
    assert!(matches!(s, Ok(ref supervisor) if supervisor.pending() == 0));
}

#[test]
fn fifty_tunnels_are_each_handed_out_once() {
    let mut locals = Vec::new();
    for port in 0..50u16 {
        locals.push(local(10_000 + port, tcp()));
    }
    let mut s = supervisor(locals, vec![]);
    for index in 0..50u16 {
        let (next, action) = s.step(Event::Next);
        assert_eq!(
            action,
            Action::BuildListener {
                id: forward_id(usize::from(index)),
                listener: tcp_listener(10_000 + index),
            }
        );
        let event = if index % 2 == 0 { Event::ListenerReady } else { Event::ListenerFailed };
        let (next, _) = next.step(event);
        s = next;
    }
    let (s, action) = s.step(Event::Next);
    assert_eq!(action, Action::Done);
    assert_eq!(s.started().len(), 25);
    for (place, id) in s.started().iter().enumerate() {
        assert_eq!(*id, forward_id(2 * place));
    }
}
