use vstd::prelude::*;

use crate::listener::{accept, empty_listener, relay_step, settle, wf, Listener, ListenerModel};
use crate::relay::{Direction, Ev, RelayAction};
use crate::session::{trusts, Session, SessionState, TrustModel, TrustPolicy, TunnelError};

verus! {

/// Cap on live connections unless configured otherwise.
pub const DEFAULT_MAX_RELAYS: usize = 256;

/// Port of the SSH server unless configured otherwise.
pub const DEFAULT_SSH_PORT: u16 = 22;

pub open spec fn default_bind_address() -> Seq<char> {
    "127.0.0.1:8181"@
}

pub open spec fn default_socket_path() -> Seq<char> {
    "/var/run/docker.sock"@
}

pub open spec fn default_user() -> Seq<char> {
    "root"@
}

/// The tunnel: where to reach the SSH server and with which credentials, the
/// local address to listen on, the remote socket to forward to, and the state
/// of the session and of the accepted connections.
pub struct ForwardClient {
    host: String,
    port: u16,
    user: String,
    password: String,
    bind_address: String,
    socket_path: String,
    session: Session,
    listener: Listener,
}

impl ForwardClient {
    pub closed spec fn host_spec(&self) -> Seq<char> {
        self.host@
    }

    pub closed spec fn port_spec(&self) -> u16 {
        self.port
    }

    pub closed spec fn user_spec(&self) -> Seq<char> {
        self.user@
    }

    pub closed spec fn password_spec(&self) -> Seq<char> {
        self.password@
    }

    pub closed spec fn bind_address_spec(&self) -> Seq<char> {
        self.bind_address@
    }

    pub closed spec fn socket_path_spec(&self) -> Seq<char> {
        self.socket_path@
    }

    pub closed spec fn session_spec(&self) -> SessionState {
        self.session.state_spec()
    }

    pub closed spec fn trust_spec(&self) -> TrustModel {
        self.session.trust_spec()
    }

    pub closed spec fn connections(&self) -> ListenerModel {
        self.listener@
    }

    /// The well-formedness of the connection table.
    pub open spec fn inv(&self) -> bool {
        wf(self.connections())
    }

    /// A tunnel with the documented defaults: no host yet, SSH port 22, user
    /// `root` with an empty password, listening on `127.0.0.1:8181`,
    /// forwarding to `/var/run/docker.sock`, accepting any server key, and at
    /// most `DEFAULT_MAX_RELAYS` live connections.
    pub fn new() -> (r: ForwardClient)
        ensures
            r.inv(),
            r.host_spec() == Seq::<char>::empty(),
            r.port_spec() == DEFAULT_SSH_PORT,
            r.user_spec() == default_user(),
            r.password_spec() == Seq::<char>::empty(),
            r.bind_address_spec() == default_bind_address(),
            r.socket_path_spec() == default_socket_path(),
            r.session_spec() == SessionState::Connecting,
            r.trust_spec() == TrustModel::AcceptAny,
            r.connections() == empty_listener(DEFAULT_MAX_RELAYS),
    {
        ForwardClient {
            host: String::new(),
            port: DEFAULT_SSH_PORT,
            user: "root".to_owned(),
            password: String::new(),
            bind_address: "127.0.0.1:8181".to_owned(),
            socket_path: "/var/run/docker.sock".to_owned(),
            session: Session::new(TrustPolicy::AcceptAny),
            listener: Listener::new(DEFAULT_MAX_RELAYS),
        }
    }

    /// Checks a server key against the session's trust policy.
    pub fn check_server_key(&self, key: &Vec<u8>) -> (r: bool)
        ensures
            r == trusts(self.trust_spec(), key@),
    {
        self.session.check_server_key(key)
    }

    /// Records that the SSH server could not be reached: the session closes
    /// and the error is `Network`.
    pub fn on_connect_failed(&mut self) -> (r: TunnelError)
        ensures
            r == TunnelError::Network,
            final(self).session_spec() == SessionState::Closed,
            final(self).trust_spec() == old(self).trust_spec(),
            final(self).connections() == old(self).connections(),
    {
        self.session.on_connect_failed()
    }

    /// Records the outcome of password authentication; see `Session::on_authenticated`.
    pub fn on_authenticated(&mut self, accepted: bool) -> (r: Result<(), TunnelError>)
        ensures
            final(self).trust_spec() == old(self).trust_spec(),
            final(self).connections() == old(self).connections(),
            old(self).session_spec() == SessionState::Connecting ==> {
                &&& accepted ==> r is Ok && final(self).session_spec()
                    == SessionState::Authenticated
                &&& !accepted ==> r == Err::<(), TunnelError>(TunnelError::Auth)
                    && final(self).session_spec() == SessionState::Closed
            },
            old(self).session_spec() == SessionState::Authenticated ==> r is Ok
                && final(self).session_spec() == SessionState::Authenticated,
            old(self).session_spec() == SessionState::Closed ==> r == Err::<(), TunnelError>(
                TunnelError::Network,
            ) && final(self).session_spec() == SessionState::Closed,
    {
        self.session.on_authenticated(accepted)
    }

    /// Handles a newly accepted local connection. `Some(conn)`: open a
    /// forwarded channel to the socket path for it; `None`: close it, because
    /// the session is not authenticated or the listener refuses it.
    pub fn on_accept(&mut self) -> (r: Option<u64>)
        requires
            old(self).inv(),
        ensures
            final(self).inv(),
            final(self).session_spec() == old(self).session_spec(),
            final(self).trust_spec() == old(self).trust_spec(),
            old(self).session_spec() != SessionState::Authenticated ==> r is None
                && final(self).connections() == old(self).connections(),
            old(self).session_spec() == SessionState::Authenticated ==> (final(self).connections(), r)
                == accept(old(self).connections()),
    {
        if !self.session.can_open_channel() {
            return None;
        }
        self.listener.on_accept()
    }

    /// Handles the answer to the channel request of connection `conn`; see
    /// `Listener::on_channel_result`.
    pub fn on_channel_result(&mut self, conn: u64, opened: Option<u32>) -> (r: Result<
        (),
        TunnelError,
    >)
        requires
            old(self).inv(),
        ensures
            final(self).inv(),
            final(self).session_spec() == old(self).session_spec(),
            final(self).trust_spec() == old(self).trust_spec(),
            final(self).connections() == settle(old(self).connections(), conn, opened).0,
            r is Ok <==> settle(old(self).connections(), conn, opened).1,
            r is Err ==> r == Err::<(), TunnelError>(TunnelError::ChannelOpen),
    {
        self.listener.on_channel_result(conn, opened)
    }

    /// Hands a chunk read in direction `dir` to the relay of connection `conn`.
    pub fn relay_data(&mut self, conn: u64, dir: Direction, bytes: Vec<u8>) -> (r: RelayAction)
        requires
            old(self).inv(),
        ensures
            final(self).inv(),
            final(self).session_spec() == old(self).session_spec(),
            final(self).trust_spec() == old(self).trust_spec(),
            (final(self).connections(), r@) == relay_step(
                old(self).connections(),
                conn,
                Ev::Data(dir, bytes@),
            ),
    {
        self.listener.relay_data(conn, dir, bytes)
    }

    /// Tells the relay of connection `conn` that direction `dir` ended.
    pub fn relay_end(&mut self, conn: u64, dir: Direction, failed: bool) -> (r: RelayAction)
        requires
            old(self).inv(),
        ensures
            final(self).inv(),
            final(self).session_spec() == old(self).session_spec(),
            final(self).trust_spec() == old(self).trust_spec(),
            (final(self).connections(), r@) == relay_step(
                old(self).connections(),
                conn,
                Ev::End(dir, failed),
            ),
    {
        self.listener.relay_end(conn, dir, failed)
    }

    /// Closes the session; later connections are refused.
    pub fn shutdown(&mut self)
        ensures
            final(self).session_spec() == SessionState::Closed,
            final(self).trust_spec() == old(self).trust_spec(),
            final(self).connections() == old(self).connections(),
    {
        self.session.shutdown();
    }

    pub fn session_state(&self) -> (r: SessionState)
        ensures
            r == self.session_spec(),
    {
        self.session.state()
    }

    /// The listener, for queries on the connections.
    pub fn listener(&self) -> (r: &Listener)
        ensures
            r@ == self.connections(),
    {
        &self.listener
    }

    pub fn host(&self) -> (r: &str)
        ensures
            r@ == self.host_spec(),
    {
        self.host.as_str()
    }

    pub fn port(&self) -> (r: u16)
        ensures
            r == self.port_spec(),
    {
        self.port
    }

    pub fn user(&self) -> (r: &str)
        ensures
            r@ == self.user_spec(),
    {
        self.user.as_str()
    }

    pub fn password(&self) -> (r: &str)
        ensures
            r@ == self.password_spec(),
    {
        self.password.as_str()
    }

    pub fn bind_address(&self) -> (r: &str)
        ensures
            r@ == self.bind_address_spec(),
    {
        self.bind_address.as_str()
    }

    pub fn socket_path(&self) -> (r: &str)
        ensures
            r@ == self.socket_path_spec(),
    {
        self.socket_path.as_str()
    }

    /// Sets the SSH server to reach.
    pub fn with_host(self, host: String, port: u16) -> (r: ForwardClient)
        ensures
            r.host_spec() == host@,
            r.port_spec() == port,
            r.user_spec() == self.user_spec(),
            r.password_spec() == self.password_spec(),
            r.bind_address_spec() == self.bind_address_spec(),
            r.socket_path_spec() == self.socket_path_spec(),
            r.session_spec() == self.session_spec(),
            r.trust_spec() == self.trust_spec(),
            r.connections() == self.connections(),
    {
        ForwardClient { host, port, ..self }
    }

    /// Sets the user name and password for authentication.
    pub fn with_credentials(self, user: String, password: String) -> (r: ForwardClient)
        ensures
            r.host_spec() == self.host_spec(),
            r.port_spec() == self.port_spec(),
            r.user_spec() == user@,
            r.password_spec() == password@,
            r.bind_address_spec() == self.bind_address_spec(),
            r.socket_path_spec() == self.socket_path_spec(),
            r.session_spec() == self.session_spec(),
            r.trust_spec() == self.trust_spec(),
            r.connections() == self.connections(),
    {
        ForwardClient { user, password, ..self }
    }

    /// Sets the local address to listen on.
    pub fn with_bind_address(self, bind_address: String) -> (r: ForwardClient)
        ensures
            r.host_spec() == self.host_spec(),
            r.port_spec() == self.port_spec(),
            r.user_spec() == self.user_spec(),
            r.password_spec() == self.password_spec(),
            r.bind_address_spec() == bind_address@,
            r.socket_path_spec() == self.socket_path_spec(),
            r.session_spec() == self.session_spec(),
            r.trust_spec() == self.trust_spec(),
            r.connections() == self.connections(),
    {
        ForwardClient { bind_address, ..self }
    }

    /// Sets the remote Unix socket that connections are forwarded to.
    pub fn with_socket_path(self, socket_path: String) -> (r: ForwardClient)
        ensures
            r.host_spec() == self.host_spec(),
            r.port_spec() == self.port_spec(),
            r.user_spec() == self.user_spec(),
            r.password_spec() == self.password_spec(),
            r.bind_address_spec() == self.bind_address_spec(),
            r.socket_path_spec() == socket_path@,
            r.session_spec() == self.session_spec(),
            r.trust_spec() == self.trust_spec(),
            r.connections() == self.connections(),
    {
        ForwardClient { socket_path, ..self }
    }

    /// Sets the policy that judges the server's key.
    pub fn with_trust(self, trust: TrustPolicy) -> (r: ForwardClient)
        ensures
            r.host_spec() == self.host_spec(),
            r.port_spec() == self.port_spec(),
            r.user_spec() == self.user_spec(),
            r.password_spec() == self.password_spec(),
            r.bind_address_spec() == self.bind_address_spec(),
            r.socket_path_spec() == self.socket_path_spec(),
            r.session_spec() == self.session_spec(),
            r.trust_spec() == trust@,
            r.connections() == self.connections(),
    {
        let mut r = self;
        r.session.set_trust(trust);
        r
    }

    /// Sets the cap on live connections; meant for configuration, before any
    /// connection is accepted, as the connection table starts afresh.
    pub fn with_max_relays(self, max_relays: usize) -> (r: ForwardClient)
        ensures
            r.inv(),
            r.host_spec() == self.host_spec(),
            r.port_spec() == self.port_spec(),
            r.user_spec() == self.user_spec(),
            r.password_spec() == self.password_spec(),
            r.bind_address_spec() == self.bind_address_spec(),
            r.socket_path_spec() == self.socket_path_spec(),
            r.session_spec() == self.session_spec(),
            r.trust_spec() == self.trust_spec(),
            r.connections() == empty_listener(max_relays),
    {
        ForwardClient { listener: Listener::new(max_relays), ..self }
    }
}

} // verus!
