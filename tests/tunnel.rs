use docker_tunnel::client::{DEFAULT_MAX_RELAYS, DEFAULT_SSH_PORT};
use docker_tunnel::listener::Listener;
use docker_tunnel::relay::{Direction, EndCause, RelayAction, RelayPhase, RelayTask};
use docker_tunnel::session::{bytes_equal, Session, SessionState, TrustPolicy, TunnelError};
use docker_tunnel::ForwardClient;

fn forwarded(action: RelayAction) -> (Direction, Vec<u8>) {
    match action {
        RelayAction::Forward { dir, bytes } => (dir, bytes),
        _ => panic!("expected bytes to forward"),
    }
}

fn is_cancel(action: &RelayAction, want: Direction) -> bool {
    matches!(action, RelayAction::Cancel { dir } if *dir == want)
}

fn authenticated_client(max_relays: usize) -> ForwardClient {
    let mut client = ForwardClient::new().with_max_relays(max_relays);
    assert_eq!(client.on_authenticated(true), Ok(()));
    client
}

/// Accepts a connection and pairs it with `channel`; returns its number.
fn open_relay(client: &mut ForwardClient, channel: u32) -> u64 {
    let conn = client.on_accept().expect("accepted");
    assert_eq!(client.on_channel_result(conn, Some(channel)), Ok(()));
    conn
}

#[test]
fn new_has_documented_defaults() {
    let client = ForwardClient::new();
    assert_eq!(client.host(), "");
    assert_eq!(client.port(), 22);
    assert_eq!(DEFAULT_SSH_PORT, 22);
    assert_eq!(client.user(), "root");
    assert_eq!(client.password(), "");
    assert_eq!(client.bind_address(), "127.0.0.1:8181");
    assert_eq!(client.socket_path(), "/var/run/docker.sock");
    assert_eq!(client.session_state(), SessionState::Connecting);
    assert_eq!(client.listener().active(), 0);
    assert!(client.check_server_key(&vec![1, 2, 3]));
}

#[test]
fn builders_set_configuration() {
    let client = ForwardClient::new()
        .with_host("10.0.0.5".to_string(), 2222)
        .with_credentials("admin".to_string(), "pw".to_string())
        .with_bind_address("0.0.0.0:9000".to_string())
        .with_socket_path("/run/other.sock".to_string())
        .with_trust(TrustPolicy::PinnedKey(vec![7, 7]));
    assert_eq!(client.host(), "10.0.0.5");
    assert_eq!(client.port(), 2222);
    assert_eq!(client.user(), "admin");
    assert_eq!(client.password(), "pw");
    assert_eq!(client.bind_address(), "0.0.0.0:9000");
    assert_eq!(client.socket_path(), "/run/other.sock");
    assert!(client.check_server_key(&vec![7, 7]));
    assert!(!client.check_server_key(&vec![7, 8]));
}

#[test]
fn trust_policies_judge_keys() {
    assert!(TrustPolicy::AcceptAny.accepts(&vec![]));
    let pinned = TrustPolicy::PinnedKey(vec![1, 2, 3]);
    assert!(pinned.accepts(&vec![1, 2, 3]));
    assert!(!pinned.accepts(&vec![1, 2]));
    assert!(!pinned.accepts(&vec![1, 2, 4]));
    let known = TrustPolicy::KnownHosts(vec![vec![9], vec![4, 5]]);
    assert!(known.accepts(&vec![4, 5]));
    assert!(known.accepts(&vec![9]));
    assert!(!known.accepts(&vec![4]));
    assert!(!TrustPolicy::KnownHosts(vec![]).accepts(&vec![]));
    assert!(bytes_equal(&vec![], &vec![]));
    assert!(!bytes_equal(&vec![0], &vec![]));
}

#[test]
fn session_authentication_outcomes() {
    let mut s = Session::new(TrustPolicy::AcceptAny);
    assert!(!s.can_open_channel());
    assert_eq!(s.on_authenticated(true), Ok(()));
    assert_eq!(s.state(), SessionState::Authenticated);
    assert!(s.can_open_channel());
    assert_eq!(s.on_authenticated(false), Ok(()));
    s.shutdown();
    assert_eq!(s.state(), SessionState::Closed);
    assert_eq!(s.on_authenticated(true), Err(TunnelError::Network));

    let mut refused = Session::new(TrustPolicy::AcceptAny);
    assert_eq!(refused.on_authenticated(false), Err(TunnelError::Auth));
    assert_eq!(refused.state(), SessionState::Closed);
    assert!(!refused.can_open_channel());

    let mut unreachable = Session::new(TrustPolicy::AcceptAny);
    assert_eq!(unreachable.on_connect_failed(), TunnelError::Network);
    assert_eq!(unreachable.state(), SessionState::Closed);
}

#[test]
fn error_descriptions() {
    assert_eq!(TunnelError::Auth.describe(), "authentication failed");
    assert_eq!(TunnelError::Network.describe(), "network unreachable");
    assert_eq!(
        TunnelError::ChannelOpen.describe(),
        "forwarded channel could not be opened"
    );
    assert_eq!(TunnelError::RelayIo.describe(), "relay failed mid-transfer");
    assert_eq!(EndCause::Failed(Direction::Upstream).error(), Some(TunnelError::RelayIo));
    assert_eq!(EndCause::Finished(Direction::Downstream).error(), None);
}

#[test]
fn unauthenticated_client_refuses_connections() {
    let mut client = ForwardClient::new();
    assert_eq!(client.on_accept(), None);
    assert_eq!(client.on_authenticated(false), Err(TunnelError::Auth));
    assert_eq!(client.on_accept(), None);
    assert_eq!(client.listener().active(), 0);
}

#[test]
fn connect_failure_is_network_error() {
    let mut client = ForwardClient::new();
    assert_eq!(client.on_connect_failed(), TunnelError::Network);
    assert_eq!(client.session_state(), SessionState::Closed);
    assert_eq!(client.on_accept(), None);
}

#[test]
fn ping_pong_is_relayed_unchanged() {
    let mut client = authenticated_client(DEFAULT_MAX_RELAYS);
    let conn = open_relay(&mut client, 0);
    let (dir, bytes) = forwarded(client.relay_data(conn, Direction::Upstream, b"PING".to_vec()));
    assert_eq!(dir, Direction::Upstream);
    assert_eq!(bytes, b"PING".to_vec());
    let (dir, bytes) = forwarded(client.relay_data(conn, Direction::Downstream, b"PONG".to_vec()));
    assert_eq!(dir, Direction::Downstream);
    assert_eq!(bytes, b"PONG".to_vec());
    assert_eq!(client.listener().channel_of(conn), Some(0));
    assert_eq!(client.listener().transferred(conn, Direction::Upstream), Some(4));
    assert_eq!(client.listener().transferred(conn, Direction::Downstream), Some(4));
    assert_eq!(client.listener().transferred(conn + 1, Direction::Upstream), None);
}

#[test]
fn unreachable_socket_closes_connection_and_keeps_accepting() {
    let mut client = authenticated_client(DEFAULT_MAX_RELAYS);
    let conn = client.on_accept().expect("accepted");
    assert!(client.listener().is_opening(conn));
    assert_eq!(client.on_channel_result(conn, None), Err(TunnelError::ChannelOpen));
    assert!(!client.listener().is_opening(conn));
    assert_eq!(client.listener().channel_of(conn), None);
    assert_eq!(client.listener().active(), 0);
    assert!(matches!(
        client.relay_data(conn, Direction::Upstream, vec![1]),
        RelayAction::Idle
    ));
    let next = client.on_accept().expect("still accepting");
    assert_eq!(next, conn + 1);
    assert_eq!(client.on_channel_result(next, Some(3)), Ok(()));
}

#[test]
fn client_close_mid_transfer_releases_channel() {
    let mut client = authenticated_client(DEFAULT_MAX_RELAYS);
    let conn = open_relay(&mut client, 5);
    forwarded(client.relay_data(conn, Direction::Upstream, vec![1, 2, 3]));
    let act = client.relay_end(conn, Direction::Upstream, false);
    assert!(is_cancel(&act, Direction::Downstream));
    assert_eq!(client.listener().channel_of(conn), Some(5));
    // the cancelled read of the channel side comes back with late data: dropped
    let act = client.relay_data(conn, Direction::Downstream, vec![9, 9]);
    assert!(matches!(act, RelayAction::Release));
    assert_eq!(client.listener().channel_of(conn), None);
    assert_eq!(client.listener().active(), 0);
    assert!(matches!(
        client.relay_data(conn, Direction::Downstream, vec![9]),
        RelayAction::Idle
    ));
    // the channel number is free again
    let again = open_relay(&mut client, 5);
    assert_eq!(client.listener().channel_of(again), Some(5));
}

#[test]
fn byte_order_within_a_direction() {
    let mut task = RelayTask::new();
    task.start();
    let chunks: Vec<Vec<u8>> = vec![b"GET ".to_vec(), vec![], b"/info".to_vec(), b" HTTP/1.1".to_vec()];
    let mut out = Vec::new();
    for c in chunks.iter() {
        let (dir, bytes) = forwarded(task.on_data(Direction::Upstream, c.clone()));
        assert_eq!(dir, Direction::Upstream);
        out.extend_from_slice(&bytes);
        let (_, back) = forwarded(task.on_data(Direction::Downstream, vec![0]));
        assert_eq!(back, vec![0]);
    }
    assert_eq!(out, b"GET /info HTTP/1.1".to_vec());
    assert_eq!(task.transferred(Direction::Upstream), 18);
    assert_eq!(task.transferred(Direction::Downstream), 4);
    assert_eq!(task.phase(), RelayPhase::Running);
}

#[test]
fn termination_stops_relaying() {
    let mut task = RelayTask::new();
    assert_eq!(task.phase(), RelayPhase::Created);
    assert!(matches!(task.on_data(Direction::Upstream, vec![1]), RelayAction::Idle));
    task.start();
    assert_eq!(task.phase(), RelayPhase::Running);
    let act = task.on_end(Direction::Downstream, true);
    assert!(is_cancel(&act, Direction::Upstream));
    assert_eq!(task.phase(), RelayPhase::Terminating);
    assert_eq!(task.cause(), Some(EndCause::Failed(Direction::Downstream)));
    task.start();
    assert_eq!(task.phase(), RelayPhase::Terminating);
    assert!(matches!(task.on_end(Direction::Upstream, false), RelayAction::Release));
    assert_eq!(task.phase(), RelayPhase::Closed);
    assert!(matches!(task.on_data(Direction::Upstream, vec![1]), RelayAction::Idle));
    assert!(matches!(task.on_end(Direction::Upstream, false), RelayAction::Idle));
    assert_eq!(task.cause(), Some(EndCause::Failed(Direction::Downstream)));
    assert_eq!(task.transferred(Direction::Upstream), 0);
}

#[test]
fn end_before_start_closes_at_once() {
    let mut task = RelayTask::new();
    assert!(matches!(task.on_end(Direction::Upstream, false), RelayAction::Release));
    assert_eq!(task.phase(), RelayPhase::Closed);
    assert_eq!(task.cause(), Some(EndCause::Finished(Direction::Upstream)));
}

#[test]
fn failing_relay_leaves_others_alone() {
    let mut client = authenticated_client(DEFAULT_MAX_RELAYS);
    let a = open_relay(&mut client, 10);
    let b = open_relay(&mut client, 11);
    let act = client.relay_end(a, Direction::Upstream, true);
    assert!(is_cancel(&act, Direction::Downstream));
    let (dir, bytes) = forwarded(client.relay_data(b, Direction::Downstream, b"ok".to_vec()));
    assert_eq!(dir, Direction::Downstream);
    assert_eq!(bytes, b"ok".to_vec());
    assert!(matches!(client.relay_end(a, Direction::Downstream, false), RelayAction::Release));
    assert_eq!(client.listener().channel_of(a), None);
    assert_eq!(client.listener().channel_of(b), Some(11));
    assert_eq!(client.listener().active(), 1);
}

#[test]
fn simultaneous_connections_get_their_own_channels() {
    let mut client = authenticated_client(DEFAULT_MAX_RELAYS);
    let n: u32 = 8;
    let mut conns = Vec::new();
    for i in 0..n {
        conns.push(client.on_accept().expect("accepted"));
        assert_eq!(client.listener().active(), (i + 1) as usize);
    }
    for (i, c) in conns.iter().enumerate() {
        assert_eq!(client.on_channel_result(*c, Some(100 + i as u32)), Ok(()));
    }
    for (i, c) in conns.iter().enumerate() {
        assert_eq!(client.listener().channel_of(*c), Some(100 + i as u32));
        let payload = vec![i as u8; i + 1];
        let (_, bytes) = forwarded(client.relay_data(*c, Direction::Upstream, payload.clone()));
        assert_eq!(bytes, payload);
    }
    assert_eq!(client.listener().active(), n as usize);
}

#[test]
fn channel_already_in_use_is_refused() {
    let mut client = authenticated_client(DEFAULT_MAX_RELAYS);
    let a = open_relay(&mut client, 42);
    let b = client.on_accept().expect("accepted");
    assert_eq!(client.on_channel_result(b, Some(42)), Err(TunnelError::ChannelOpen));
    assert_eq!(client.listener().channel_of(a), Some(42));
    assert_eq!(client.listener().channel_of(b), None);
    assert_eq!(client.listener().active(), 1);
}

#[test]
fn answer_for_unknown_connection_is_refused() {
    let mut client = authenticated_client(DEFAULT_MAX_RELAYS);
    assert_eq!(client.on_channel_result(77, Some(1)), Err(TunnelError::ChannelOpen));
    let a = open_relay(&mut client, 1);
    assert_eq!(client.on_channel_result(a, Some(2)), Err(TunnelError::ChannelOpen));
    assert_eq!(client.listener().channel_of(a), Some(1));
}

#[test]
fn cap_on_live_connections() {
    let mut client = authenticated_client(2);
    let a = client.on_accept().expect("first");
    let _b = client.on_accept().expect("second");
    assert_eq!(client.on_accept(), None);
    assert_eq!(client.on_channel_result(a, None), Err(TunnelError::ChannelOpen));
    assert!(client.on_accept().is_some());

    let mut zero = Listener::new(0);
    assert_eq!(zero.on_accept(), None);
}

#[test]
fn shutdown_refuses_new_connections() {
    let mut client = authenticated_client(DEFAULT_MAX_RELAYS);
    let a = open_relay(&mut client, 1);
    client.shutdown();
    assert_eq!(client.session_state(), SessionState::Closed);
    assert_eq!(client.on_accept(), None);
    assert_eq!(client.listener().channel_of(a), Some(1));
}

#[test]
fn direction_other() {
    assert_eq!(Direction::Upstream.other(), Direction::Downstream);
    assert_eq!(Direction::Downstream.other(), Direction::Upstream);
}
