use std::collections::HashMap;
use vstd::prelude::*;

use crate::relay::{
    initial_model, step, with_phase, Act, Direction, Ev, RelayAction, RelayModel, RelayPhase,
    RelayTask,
};
use crate::session::TunnelError;

verus! {

broadcast use vstd::std_specs::hash::group_hash_axioms;

/// Where one accepted connection stands.
pub enum Slot {
    /// Its forwarded channel has been requested and not yet granted.
    Opening,
    /// It is paired with `channel` and relayed by `task`.
    Relaying { channel: u32, task: RelayTask },
}

/// Mathematical form of a `Slot`.
pub enum SlotModel {
    Opening,
    Relaying(u32, RelayModel),
}

impl View for Slot {
    type V = SlotModel;

    open spec fn view(&self) -> SlotModel {
        match self {
            Slot::Opening => SlotModel::Opening,
            Slot::Relaying { channel, task } => SlotModel::Relaying(*channel, task@),
        }
    }
}

pub open spec fn slot_views(m: Map<u64, Slot>) -> Map<u64, SlotModel> {
    m.map_values(|s: Slot| s@)
}

/// Model of the listener: the slot of each live connection, the connection
/// that owns each open channel, the next connection number, and the cap on
/// live connections.
pub struct ListenerModel {
    pub slots: Map<u64, SlotModel>,
    pub channels: Map<u32, u64>,
    pub next_conn: u64,
    pub max_relays: usize,
}

pub open spec fn is_live(p: RelayPhase) -> bool {
    p == RelayPhase::Running || p == RelayPhase::Terminating
}

pub open spec fn relaying_on(m: ListenerModel, c: u64, ch: u32) -> bool {
    m.slots.contains_key(c) && m.slots[c] is Relaying && m.slots[c]->0 == ch
}

/// Well-formedness: connection numbers come from the counter, live
/// connections stay under the cap, every relayed connection owns exactly one
/// channel and every open channel belongs to exactly one relayed connection.
pub open spec fn wf(m: ListenerModel) -> bool {
    &&& m.slots.dom().finite()
    &&& m.channels.dom().finite()
    &&& m.slots.len() <= m.max_relays
    &&& forall|c: u64| #[trigger] m.slots.contains_key(c) ==> c < m.next_conn
    &&& forall|c: u64|
        #[trigger] m.slots.contains_key(c) && m.slots[c] is Relaying ==> {
            &&& m.channels.contains_key(m.slots[c]->0)
            &&& m.channels[m.slots[c]->0] == c
            &&& is_live(m.slots[c]->1.phase)
        }
    &&& forall|ch: u32| #[trigger]
        m.channels.contains_key(ch) ==> relaying_on(m, m.channels[ch], ch)
}

pub open spec fn empty_listener(max_relays: usize) -> ListenerModel {
    ListenerModel { slots: Map::empty(), channels: Map::empty(), next_conn: 0, max_relays }
}

/// Accepting a connection: it gets the next number and waits for its channel,
/// unless the cap is reached or the numbers are spent, in which case it is
/// refused and nothing changes.
pub open spec fn accept(m: ListenerModel) -> (ListenerModel, Option<u64>) {
    if m.slots.len() >= m.max_relays || m.next_conn == u64::MAX {
        (m, None)
    } else {
        (
            ListenerModel {
                slots: m.slots.insert(m.next_conn, SlotModel::Opening),
                next_conn: (m.next_conn + 1) as u64,
                ..m
            },
            Some(m.next_conn),
        )
    }
}

pub open spec fn running_model() -> RelayModel {
    with_phase(initial_model(), RelayPhase::Running)
}

/// The outcome of a channel request for connection `conn`: with a fresh
/// channel the connection is paired with it and its relay runs (`true`);
/// with none, or with a channel that another connection holds, the
/// connection is dropped (`false`). A connection that is not waiting for a
/// channel changes nothing.
pub open spec fn settle(m: ListenerModel, conn: u64, opened: Option<u32>) -> (ListenerModel, bool) {
    if m.slots.contains_key(conn) && m.slots[conn] is Opening {
        match opened {
            Some(ch) => if !m.channels.contains_key(ch) {
                (
                    ListenerModel {
                        slots: m.slots.insert(conn, SlotModel::Relaying(ch, running_model())),
                        channels: m.channels.insert(ch, conn),
                        ..m
                    },
                    true,
                )
            } else {
                (ListenerModel { slots: m.slots.remove(conn), ..m }, false)
            },
            None => (ListenerModel { slots: m.slots.remove(conn), ..m }, false),
        }
    } else {
        (m, false)
    }
}

/// An event of the relay of connection `conn`: only that relay moves, and a
/// relay that closes gives up its slot and its channel.
pub open spec fn relay_step(m: ListenerModel, conn: u64, e: Ev) -> (ListenerModel, Act) {
    if m.slots.contains_key(conn) && m.slots[conn] is Relaying {
        let ch = m.slots[conn]->0;
        let next = step(m.slots[conn]->1, e);
        if next.0.phase == RelayPhase::Closed {
            (
                ListenerModel {
                    slots: m.slots.remove(conn),
                    channels: m.channels.remove(ch),
                    ..m
                },
                next.1,
            )
        } else {
            (
                ListenerModel { slots: m.slots.insert(conn, SlotModel::Relaying(ch, next.0)), ..m },
                next.1,
            )
        }
    } else {
        (m, Act::Idle)
    }
}

proof fn lemma_views_insert(m: Map<u64, Slot>, k: u64, s: Slot)
    ensures
        slot_views(m.insert(k, s)) == slot_views(m).insert(k, s@),
{
    assert(slot_views(m.insert(k, s)) =~= slot_views(m).insert(k, s@));
}

proof fn lemma_views_remove(m: Map<u64, Slot>, k: u64)
    ensures
        slot_views(m.remove(k)) == slot_views(m).remove(k),
{
    assert(slot_views(m.remove(k)) =~= slot_views(m).remove(k));
}

proof fn lemma_views_dom(m: Map<u64, Slot>)
    ensures
        slot_views(m).dom() == m.dom(),
{
    assert(slot_views(m).dom() =~= m.dom());
}

/// The accept side of the tunnel: which connections wait for a channel,
/// which are relayed and on which channel.
pub struct Listener {
    slots: HashMap<u64, Slot>,
    channels: HashMap<u32, u64>,
    next_conn: u64,
    max_relays: usize,
}

impl View for Listener {
    type V = ListenerModel;

    closed spec fn view(&self) -> ListenerModel {
        ListenerModel {
            slots: slot_views(self.slots@),
            channels: self.channels@,
            next_conn: self.next_conn,
            max_relays: self.max_relays,
        }
    }
}

impl Listener {
    /// A listener with no connections that keeps at most `max_relays` alive.
    pub fn new(max_relays: usize) -> (r: Listener)
        ensures
            r@ == empty_listener(max_relays),
            wf(r@),
    {
        let r = Listener {
            slots: HashMap::new(),
            channels: HashMap::new(),
            next_conn: 0,
            max_relays,
        };
        assert(r@.slots =~= Map::<u64, SlotModel>::empty());
        r
    }

    /// Number of live connections, waiting or relayed.
    pub fn active(&self) -> (r: usize)
        requires
            wf(self@),
        ensures
            r == self@.slots.len(),
    {
        proof {
            lemma_views_dom(self.slots@);
            assert(self@.slots.dom() == self.slots@.dom());
        }
        self.slots.len()
    }

    /// Handles a newly accepted connection. `Some(conn)`: request a forwarded
    /// channel for it under the number `conn`; `None`: close it at once.
    pub fn on_accept(&mut self) -> (r: Option<u64>)
        requires
            wf(old(self)@),
        ensures
            wf(final(self)@),
            (final(self)@, r) == accept(old(self)@),
    {
        proof {
            lemma_views_dom(self.slots@);
        }
        if self.slots.len() >= self.max_relays || self.next_conn == u64::MAX {
            return None;
        }
        let conn = self.next_conn;
        self.slots.insert(conn, Slot::Opening);
        self.next_conn = self.next_conn + 1;
        proof {
            lemma_views_insert(old(self).slots@, conn, Slot::Opening);
            lemma_views_dom(self.slots@);
            let m = self@;
            assert(m.slots == old(self)@.slots.insert(conn, SlotModel::Opening));
            assert forall|c: u64| #[trigger] m.slots.contains_key(c) && m.slots[c] is Relaying implies {
                &&& m.channels.contains_key(m.slots[c]->0)
                &&& m.channels[m.slots[c]->0] == c
                &&& is_live(m.slots[c]->1.phase)
            } by {
                assert(c != conn);
                assert(old(self)@.slots.contains_key(c));
            }
            assert forall|ch: u32| #[trigger] m.channels.contains_key(ch) implies relaying_on(
                m,
                m.channels[ch],
                ch,
            ) by {
                assert(m.channels == old(self)@.channels);
                assert(old(self)@.channels.contains_key(ch));
                assert(relaying_on(old(self)@, m.channels[ch], ch));
                assert(old(self)@.slots.contains_key(m.channels[ch]));
            }
        }
        Some(conn)
    }

    /// Handles the outcome of the channel request of connection `conn`:
    /// `Some(channel)` when the channel was opened, `None` when it was not.
    /// `Ok` means the relay now runs; `ChannelOpen` means the local connection
    /// (and any channel handed in) must be closed.
    pub fn on_channel_result(&mut self, conn: u64, opened: Option<u32>) -> (r: Result<
        (),
        TunnelError,
    >)
        requires
            wf(old(self)@),
        ensures
            wf(final(self)@),
            final(self)@ == settle(old(self)@, conn, opened).0,
            r is Ok <==> settle(old(self)@, conn, opened).1,
            r is Err ==> r == Err::<(), TunnelError>(TunnelError::ChannelOpen),
    {
        let ghost m0 = self@;
        let slot = self.slots.remove(&conn);
        proof {
            lemma_views_remove(old(self).slots@, conn);
        }
        match slot {
            Some(Slot::Opening) => {
                assert(m0.slots.contains_key(conn) && m0.slots[conn] is Opening);
                match opened {
                    Some(channel) => {
                        if self.channels.contains_key(&channel) {
                            proof {
                                self.lemma_wf_after_remove(m0, conn);
                            }
                            Err(TunnelError::ChannelOpen)
                        } else {
                            let mut task = RelayTask::new();
                            task.start();
                            let ghost t = task;
                            self.slots.insert(conn, Slot::Relaying { channel, task });
                            self.channels.insert(channel, conn);
                            proof {
                                lemma_views_insert(
                                    old(self).slots@.remove(conn),
                                    conn,
                                    Slot::Relaying { channel, task: t },
                                );
                                assert(old(self).slots@.remove(conn).insert(
                                    conn,
                                    Slot::Relaying { channel, task: t },
                                ) =~= old(self).slots@.insert(
                                    conn,
                                    Slot::Relaying { channel, task: t },
                                ));
                                lemma_views_insert(
                                    old(self).slots@,
                                    conn,
                                    Slot::Relaying { channel, task: t },
                                );
                                lemma_views_dom(old(self).slots@);
                                lemma_views_dom(self.slots@);
                                let m = self@;
                                assert(m.slots == m0.slots.insert(
                                    conn,
                                    SlotModel::Relaying(channel, running_model()),
                                ));
                                assert(m.slots.dom() =~= m0.slots.dom());
                                assert forall|c: u64| #[trigger]
                                    m.slots.contains_key(c) && m.slots[c] is Relaying implies {
                                    &&& m.channels.contains_key(m.slots[c]->0)
                                    &&& m.channels[m.slots[c]->0] == c
                                    &&& is_live(m.slots[c]->1.phase)
                                } by {
                                    if c != conn {
                                        assert(m0.slots.contains_key(c));
                                        assert(m0.channels.contains_key(m0.slots[c]->0));
                                    }
                                }
                                assert forall|ch: u32| #[trigger]
                                    m.channels.contains_key(ch) implies relaying_on(
                                    m,
                                    m.channels[ch],
                                    ch,
                                ) by {
                                    if ch != channel {
                                        assert(relaying_on(m0, m0.channels[ch], ch));
                                        assert(m0.channels[ch] != conn);
                                    }
                                }
                            }
                            Ok(())
                        }
                    },
                    None => {
                        proof {
                            self.lemma_wf_after_remove(m0, conn);
                        }
                        Err(TunnelError::ChannelOpen)
                    },
                }
            },
            Some(s) => {
                let ghost gs = s;
                self.slots.insert(conn, s);
                proof {
                    lemma_views_insert(old(self).slots@.remove(conn), conn, gs);
                    assert(old(self).slots@.remove(conn).insert(conn, gs) =~= old(self).slots@);
                }
                Err(TunnelError::ChannelOpen)
            },
            None => {
                proof {
                    assert(old(self).slots@.remove(conn) =~= old(self).slots@);
                }
                Err(TunnelError::ChannelOpen)
            },
        }
    }

    /// After a waiting connection is dropped the listener is still well formed.
    proof fn lemma_wf_after_remove(&self, m0: ListenerModel, conn: u64)
        requires
            wf(m0),
            m0.slots.contains_key(conn),
            m0.slots[conn] is Opening,
            self@ == (ListenerModel { slots: m0.slots.remove(conn), ..m0 }),
        ensures
            wf(self@),
    {
        let m = self@;
        assert forall|ch: u32| #[trigger] m.channels.contains_key(ch) implies relaying_on(
            m,
            m.channels[ch],
            ch,
        ) by {
            assert(relaying_on(m0, m0.channels[ch], ch));
        }
        assert forall|c: u64| #[trigger] m.slots.contains_key(c) && m.slots[c] is Relaying implies {
            &&& m.channels.contains_key(m.slots[c]->0)
            &&& m.channels[m.slots[c]->0] == c
            &&& is_live(m.slots[c]->1.phase)
        } by {
            assert(m0.slots.contains_key(c));
        }
    }
}


/// A step of a live relay that does not close it leaves it live.
proof fn lemma_step_stays_live(t: RelayModel, e: Ev)
    requires
        is_live(t.phase),
        step(t, e).0.phase != RelayPhase::Closed,
    ensures
        is_live(step(t, e).0.phase),
{
}

/// Routing an event to one relay keeps the listener well formed.
pub proof fn lemma_relay_step_wf(m: ListenerModel, conn: u64, e: Ev)
    requires
        wf(m),
    ensures
        wf(relay_step(m, conn, e).0),
{
    if m.slots.contains_key(conn) && m.slots[conn] is Relaying {
        let ch = m.slots[conn]->0;
        let next = step(m.slots[conn]->1, e);
        let m2 = relay_step(m, conn, e).0;
        if next.0.phase == RelayPhase::Closed {
            assert forall|c: u64| #[trigger]
                m2.slots.contains_key(c) && m2.slots[c] is Relaying implies {
                &&& m2.channels.contains_key(m2.slots[c]->0)
                &&& m2.channels[m2.slots[c]->0] == c
                &&& is_live(m2.slots[c]->1.phase)
            } by {
                assert(m.slots.contains_key(c));
                assert(m.channels[m.slots[c]->0] == c);
            }
            assert forall|ch2: u32| #[trigger] m2.channels.contains_key(ch2) implies relaying_on(
                m2,
                m2.channels[ch2],
                ch2,
            ) by {
                assert(m.channels.contains_key(ch2));
                assert(relaying_on(m, m.channels[ch2], ch2));
            }
        } else {
            lemma_step_stays_live(m.slots[conn]->1, e);
            assert(m2.slots.dom() =~= m.slots.dom());
            assert forall|c: u64| #[trigger]
                m2.slots.contains_key(c) && m2.slots[c] is Relaying implies {
                &&& m2.channels.contains_key(m2.slots[c]->0)
                &&& m2.channels[m2.slots[c]->0] == c
                &&& is_live(m2.slots[c]->1.phase)
            } by {
                assert(m.slots.contains_key(c));
            }
            assert forall|ch2: u32| #[trigger] m2.channels.contains_key(ch2) implies relaying_on(
                m2,
                m2.channels[ch2],
                ch2,
            ) by {
                assert(relaying_on(m, m.channels[ch2], ch2));
            }
        }
    }
}

/// Every accepted connection is handled: it is refused on the spot, or it
/// waits for its channel, and once the channel request is answered it is
/// either relayed by a running task or dropped, freeing its place so that
/// later connections are still accepted. No other connection is touched.
pub proof fn lemma_connection_handled(m: ListenerModel, opened: Option<u32>)
    requires
        wf(m),
    ensures
        accept(m).1 is None ==> accept(m).0 == m,
        accept(m).1 is Some ==> ({
            let c = accept(m).1->0;
            let m1 = accept(m).0;
            let (m2, ok) = settle(m1, c, opened);
            &&& !m.slots.contains_key(c)
            &&& m1.slots.contains_key(c) && m1.slots[c] is Opening
            &&& ok ==> m2.slots.contains_key(c) && m2.slots[c] is Relaying && m2.slots[c]->1.phase
                == RelayPhase::Running
            &&& !ok ==> m2.slots == m.slots && m2.channels == m.channels
            &&& m2.next_conn == m1.next_conn
            &&& forall|b: u64|
                b != c ==> (#[trigger] m2.slots.contains_key(b) == m.slots.contains_key(b)
                    && (m.slots.contains_key(b) ==> m2.slots[b] == m.slots[b]))
        }),
{
    let (m1, r) = accept(m);
    if r is Some {
        let c = r->0;
        assert(!m.slots.contains_key(c));
        let (m2, ok) = settle(m1, c, opened);
        if !ok {
            assert(m2.slots =~= m.slots);
        }
    }
}

/// Independence: an event routed to relay `a`, and the answer to the channel
/// request of connection `a`, leave every other connection `b` exactly as it
/// was, with the same channel.
pub proof fn lemma_relays_independent(m: ListenerModel, a: u64, b: u64, e: Ev, opened: Option<u32>)
    requires
        wf(m),
        a != b,
    ensures
        relay_step(m, a, e).0.slots.contains_key(b) == m.slots.contains_key(b),
        m.slots.contains_key(b) ==> relay_step(m, a, e).0.slots[b] == m.slots[b],
        settle(m, a, opened).0.slots.contains_key(b) == m.slots.contains_key(b),
        m.slots.contains_key(b) ==> settle(m, a, opened).0.slots[b] == m.slots[b],
        forall|ch: u32|
            relaying_on(m, b, ch) ==> {
                &&& #[trigger] relay_step(m, a, e).0.channels.contains_key(ch)
                &&& relay_step(m, a, e).0.channels[ch] == b
                &&& settle(m, a, opened).0.channels.contains_key(ch)
                &&& settle(m, a, opened).0.channels[ch] == b
            },
{
    assert forall|ch: u32| relaying_on(m, b, ch) implies {
        &&& #[trigger] relay_step(m, a, e).0.channels.contains_key(ch)
        &&& relay_step(m, a, e).0.channels[ch] == b
        &&& settle(m, a, opened).0.channels.contains_key(ch)
        &&& settle(m, a, opened).0.channels[ch] == b
    } by {
        assert(m.slots.contains_key(b) && m.slots[b] is Relaying);
        assert(m.channels.contains_key(ch) && m.channels[ch] == b);
    }
}

/// No cross-talk: in a well-formed listener, two different relayed
/// connections never share a forwarded channel, and each open channel is
/// owned by the one connection relayed on it.
pub proof fn lemma_channels_exclusive(m: ListenerModel, a: u64, b: u64, ch: u32)
    requires
        wf(m),
        relaying_on(m, a, ch),
    ensures
        m.channels.contains_key(ch) && m.channels[ch] == a,
        a != b ==> !relaying_on(m, b, ch),
{
    assert(m.slots.contains_key(a) && m.slots[a] is Relaying);
    if relaying_on(m, b, ch) {
        assert(m.slots.contains_key(b) && m.slots[b] is Relaying);
    }
}

/// Concurrency: every channel request answered with a fresh channel adds
/// exactly one relayed connection and one open channel, owned by that
/// connection alone, so N connections opened this way hold N distinct
/// channels over the one session.
pub proof fn lemma_open_adds_one_channel(m: ListenerModel, conn: u64, ch: u32)
    requires
        wf(m),
        settle(m, conn, Some(ch)).1,
    ensures
        wf(settle(m, conn, Some(ch)).0),
        !m.channels.contains_key(ch),
        settle(m, conn, Some(ch)).0.channels == m.channels.insert(ch, conn),
        settle(m, conn, Some(ch)).0.channels.len() == m.channels.len() + 1,
        settle(m, conn, Some(ch)).0.slots.len() == m.slots.len(),
        relaying_on(settle(m, conn, Some(ch)).0, conn, ch),
{
    let m2 = settle(m, conn, Some(ch)).0;
    assert(m2.slots.dom() =~= m.slots.dom());
    assert forall|c: u64| #[trigger] m2.slots.contains_key(c) && m2.slots[c] is Relaying implies {
        &&& m2.channels.contains_key(m2.slots[c]->0)
        &&& m2.channels[m2.slots[c]->0] == c
        &&& is_live(m2.slots[c]->1.phase)
    } by {
        if c != conn {
            assert(m.slots.contains_key(c));
            assert(m.channels.contains_key(m.slots[c]->0));
        }
    }
    assert forall|ch2: u32| #[trigger] m2.channels.contains_key(ch2) implies relaying_on(
        m2,
        m2.channels[ch2],
        ch2,
    ) by {
        if ch2 != ch {
            assert(relaying_on(m, m.channels[ch2], ch2));
        }
    }
}

impl Listener {
    /// Puts a relay back after a step, or frees its slot and channel if it closed.
    fn put_back(
        &mut self,
        Ghost(m0): Ghost<ListenerModel>,
        Ghost(e): Ghost<Ev>,
        conn: u64,
        channel: u32,
        task: RelayTask,
    )
        requires
            wf(m0),
            m0.slots.contains_key(conn),
            m0.slots[conn] is Relaying,
            m0.slots[conn]->0 == channel,
            task@ == step(m0.slots[conn]->1, e).0,
            old(self)@ == (ListenerModel { slots: m0.slots.remove(conn), ..m0 }),
        ensures
            final(self)@ == relay_step(m0, conn, e).0,
            wf(final(self)@),
    {
        let ghost before = self.slots@;
        if task.phase() == RelayPhase::Closed {
            self.channels.remove(&channel);
        } else {
            let ghost s = Slot::Relaying { channel, task };
            self.slots.insert(conn, Slot::Relaying { channel, task });
            proof {
                lemma_views_insert(before, conn, s);
                assert(self@.slots =~= m0.slots.remove(conn).insert(
                    conn,
                    SlotModel::Relaying(channel, step(m0.slots[conn]->1, e).0),
                ));
                assert(self@.slots =~= m0.slots.insert(
                    conn,
                    SlotModel::Relaying(channel, step(m0.slots[conn]->1, e).0),
                ));
            }
        }
        proof {
            lemma_relay_step_wf(m0, conn, e);
        }
    }

    /// Puts back a slot that was taken out but is not relayed.
    fn restore(&mut self, Ghost(m0): Ghost<ListenerModel>, conn: u64, s: Slot)
        requires
            m0.slots.contains_key(conn),
            m0.slots[conn] == s@,
            old(self)@ == (ListenerModel { slots: m0.slots.remove(conn), ..m0 }),
        ensures
            final(self)@ == m0,
    {
        let ghost before = self.slots@;
        let ghost gs = s;
        self.slots.insert(conn, s);
        proof {
            lemma_views_insert(before, conn, gs);
            assert(self@.slots =~= m0.slots);
        }
    }

    /// Hands a chunk read in direction `dir` to the relay of connection `conn`.
    pub fn relay_data(&mut self, conn: u64, dir: Direction, bytes: Vec<u8>) -> (r: RelayAction)
        requires
            wf(old(self)@),
        ensures
            wf(final(self)@),
            (final(self)@, r@) == relay_step(old(self)@, conn, Ev::Data(dir, bytes@)),
    {
        let ghost m0 = self@;
        let ghost e = Ev::Data(dir, bytes@);
        let slot = self.slots.remove(&conn);
        proof {
            lemma_views_remove(old(self).slots@, conn);
        }
        match slot {
            Some(Slot::Relaying { channel, mut task }) => {
                let act = task.on_data(dir, bytes);
                self.put_back(Ghost(m0), Ghost(e), conn, channel, task);
                act
            },
            Some(s) => {
                self.restore(Ghost(m0), conn, s);
                RelayAction::Idle
            },
            None => {
                assert(old(self).slots@.remove(conn) =~= old(self).slots@);
                RelayAction::Idle
            },
        }
    }

    /// Tells the relay of connection `conn` that direction `dir` ended, with
    /// an error if `failed`.
    pub fn relay_end(&mut self, conn: u64, dir: Direction, failed: bool) -> (r: RelayAction)
        requires
            wf(old(self)@),
        ensures
            wf(final(self)@),
            (final(self)@, r@) == relay_step(old(self)@, conn, Ev::End(dir, failed)),
    {
        let ghost m0 = self@;
        let ghost e = Ev::End(dir, failed);
        let slot = self.slots.remove(&conn);
        proof {
            lemma_views_remove(old(self).slots@, conn);
        }
        match slot {
            Some(Slot::Relaying { channel, mut task }) => {
                let act = task.on_end(dir, failed);
                self.put_back(Ghost(m0), Ghost(e), conn, channel, task);
                act
            },
            Some(s) => {
                self.restore(Ghost(m0), conn, s);
                RelayAction::Idle
            },
            None => {
                assert(old(self).slots@.remove(conn) =~= old(self).slots@);
                RelayAction::Idle
            },
        }
    }

    /// The channel that connection `conn` is relayed on, if it is.
    pub fn channel_of(&self, conn: u64) -> (r: Option<u32>)
        ensures
            r is Some <==> self@.slots.contains_key(conn) && self@.slots[conn] is Relaying,
            r is Some ==> r->0 == self@.slots[conn]->0,
    {
        match self.slots.get(&conn) {
            Some(Slot::Relaying { channel, .. }) => Some(*channel),
            _ => None,
        }
    }

    /// Bytes relayed so far in direction `dir` for connection `conn`, if it is relayed.
    pub fn transferred(&self, conn: u64, dir: Direction) -> (r: Option<u64>)
        ensures
            r is Some <==> self@.slots.contains_key(conn) && self@.slots[conn] is Relaying,
            r is Some ==> r->0 == (match dir {
                Direction::Upstream => (self@.slots[conn]->1).upstream,
                Direction::Downstream => (self@.slots[conn]->1).downstream,
            }),
    {
        match self.slots.get(&conn) {
            Some(Slot::Relaying { task, .. }) => Some(task.transferred(dir)),
            _ => None,
        }
    }

    /// Whether connection `conn` is waiting for its channel.
    pub fn is_opening(&self, conn: u64) -> (r: bool)
        ensures
            r == (self@.slots.contains_key(conn) && self@.slots[conn] is Opening),
    {
        match self.slots.get(&conn) {
            Some(Slot::Opening) => true,
            _ => false,
        }
    }
}

} // verus!
