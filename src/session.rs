use vstd::prelude::*;

verus! {

/// The failures of the tunnel, by where they arise.
#[derive(Clone, Copy, PartialEq, Eq, Debug, Structural)]
pub enum TunnelError {
    /// The SSH server refused the credentials, or its key was not trusted.
    Auth,
    /// The transport could not be reached, or the local address could not be bound.
    Network,
    /// A forwarded channel could not be opened for one connection.
    ChannelOpen,
    /// A relay failed in the middle of a transfer.
    RelayIo,
}

impl TunnelError {
    /// A short human-readable description.
    pub fn describe(&self) -> (r: String)
        ensures
            r@ == describe_spec(*self),
    {
        match self {
            TunnelError::Auth => "authentication failed".to_owned(),
            TunnelError::Network => "network unreachable".to_owned(),
            TunnelError::ChannelOpen => "forwarded channel could not be opened".to_owned(),
            TunnelError::RelayIo => "relay failed mid-transfer".to_owned(),
        }
    }
}

pub open spec fn describe_spec(e: TunnelError) -> Seq<char> {
    match e {
        TunnelError::Auth => "authentication failed"@,
        TunnelError::Network => "network unreachable"@,
        TunnelError::ChannelOpen => "forwarded channel could not be opened"@,
        TunnelError::RelayIo => "relay failed mid-transfer"@,
    }
}

/// Which server keys a session accepts.
pub enum TrustPolicy {
    /// Any key at all.
    AcceptAny,
    /// Exactly this key.
    PinnedKey(Vec<u8>),
    /// Any of the keys recorded for the host.
    KnownHosts(Vec<Vec<u8>>),
}

/// Mathematical form of a `TrustPolicy`.
pub enum TrustModel {
    AcceptAny,
    Pinned(Seq<u8>),
    Known(Seq<Seq<u8>>),
}

impl View for TrustPolicy {
    type V = TrustModel;

    open spec fn view(&self) -> TrustModel {
        match self {
            TrustPolicy::AcceptAny => TrustModel::AcceptAny,
            TrustPolicy::PinnedKey(k) => TrustModel::Pinned(k@),
            TrustPolicy::KnownHosts(ks) => TrustModel::Known(key_views(ks@)),
        }
    }
}

/// The byte strings held by a list of keys.
pub open spec fn key_views(ks: Seq<Vec<u8>>) -> Seq<Seq<u8>> {
    ks.map_values(|k: Vec<u8>| k@)
}

/// Whether a policy accepts the server key `key`.
pub open spec fn trusts(p: TrustModel, key: Seq<u8>) -> bool {
    match p {
        TrustModel::AcceptAny => true,
        TrustModel::Pinned(k) => k == key,
        TrustModel::Known(ks) => ks.contains(key),
    }
}

/// Compares two byte strings.
pub fn bytes_equal(a: &Vec<u8>, b: &Vec<u8>) -> (r: bool)
    ensures
        r == (a@ == b@),
{
    if a.len() != b.len() {
        return false;
    }
    let mut i: usize = 0;
    while i < a.len()
        invariant
            a@.len() == b@.len(),
            i <= a@.len(),
            forall|j: int| 0 <= j < i ==> a@[j] == b@[j],
        decreases a@.len() - i,
    {
        if a[i] != b[i] {
            return false;
        }
        i = i + 1;
    }
    assert(a@ =~= b@);
    true
}

impl TrustPolicy {
    /// Decides whether the server presenting `key` is trusted.
    pub fn accepts(&self, key: &Vec<u8>) -> (r: bool)
        ensures
            r == trusts(self@, key@),
    {
        match self {
            TrustPolicy::AcceptAny => true,
            TrustPolicy::PinnedKey(k) => bytes_equal(k, key),
            TrustPolicy::KnownHosts(ks) => {
                let ghost model = key_views(ks@);
                let mut i: usize = 0;
                while i < ks.len()
                    invariant
                        i <= ks@.len(),
                        model == key_views(ks@),
                        self@ == TrustModel::Known(model),
                        forall|j: int| 0 <= j < i ==> model[j] != key@,
                    decreases ks@.len() - i,
                {
                    if bytes_equal(&ks[i], key) {
                        assert(model[i as int] == key@);
                        assert(model.contains(key@));
                        return true;
                    }
                    i = i + 1;
                }
                assert(!model.contains(key@));
                false
            },
        }
    }
}

/// Liveness of the SSH session.
#[derive(Clone, Copy, PartialEq, Eq, Debug, Structural)]
pub enum SessionState {
    Connecting,
    Authenticated,
    Closed,
}

/// The one authenticated SSH session that all forwarded channels share.
pub struct Session {
    state: SessionState,
    trust: TrustPolicy,
}

impl Session {
    pub closed spec fn state_spec(&self) -> SessionState {
        self.state
    }

    pub closed spec fn trust_spec(&self) -> TrustModel {
        self.trust@
    }

    /// A session that is about to connect, judging server keys by `trust`.
    pub fn new(trust: TrustPolicy) -> (r: Session)
        ensures
            r.state_spec() == SessionState::Connecting,
            r.trust_spec() == trust@,
    {
        Session { state: SessionState::Connecting, trust }
    }

    pub fn state(&self) -> (r: SessionState)
        ensures
            r == self.state_spec(),
    {
        self.state
    }

    /// Whether the server presenting `key` is trusted by the session's policy.
    pub fn check_server_key(&self, key: &Vec<u8>) -> (r: bool)
        ensures
            r == trusts(self.trust_spec(), key@),
    {
        self.trust.accepts(key)
    }

    /// Records that the transport could not be reached.
    pub fn on_connect_failed(&mut self) -> (r: TunnelError)
        ensures
            r == TunnelError::Network,
            final(self).state_spec() == SessionState::Closed,
            final(self).trust_spec() == old(self).trust_spec(),
    {
        self.state = SessionState::Closed;
        TunnelError::Network
    }

    /// Records the outcome of authentication. A connecting session becomes
    /// authenticated when `accepted`, and is closed with `Auth` otherwise; an
    /// authenticated session stays so; a closed one reports `Network`.
    pub fn on_authenticated(&mut self, accepted: bool) -> (r: Result<(), TunnelError>)
        ensures
            final(self).trust_spec() == old(self).trust_spec(),
            old(self).state_spec() == SessionState::Connecting ==> {
                &&& accepted ==> r is Ok && final(self).state_spec()
                    == SessionState::Authenticated
                &&& !accepted ==> r == Err::<(), TunnelError>(TunnelError::Auth)
                    && final(self).state_spec() == SessionState::Closed
            },
            old(self).state_spec() == SessionState::Authenticated ==> r is Ok
                && final(self).state_spec() == SessionState::Authenticated,
            old(self).state_spec() == SessionState::Closed ==> r == Err::<(), TunnelError>(
                TunnelError::Network,
            ) && final(self).state_spec() == SessionState::Closed,
    {
        match self.state {
            SessionState::Connecting => {
                if accepted {
                    self.state = SessionState::Authenticated;
                    Ok(())
                } else {
                    self.state = SessionState::Closed;
                    Err(TunnelError::Auth)
                }
            },
            SessionState::Authenticated => Ok(()),
            SessionState::Closed => Err(TunnelError::Network),
        }
    }

    /// Whether a forwarded channel may be requested now.
    pub fn can_open_channel(&self) -> (r: bool)
        ensures
            r == (self.state_spec() == SessionState::Authenticated),
    {
        self.state == SessionState::Authenticated
    }

    /// Replaces the trust policy; the session state is kept.
    pub fn set_trust(&mut self, trust: TrustPolicy)
        ensures
            final(self).state_spec() == old(self).state_spec(),
            final(self).trust_spec() == trust@,
    {
        self.trust = trust;
    }

    /// Ends the session; no channel can be opened afterwards.
    pub fn shutdown(&mut self)
        ensures
            final(self).state_spec() == SessionState::Closed,
            final(self).trust_spec() == old(self).trust_spec(),
    {
        self.state = SessionState::Closed;
    }
}

} // verus!
