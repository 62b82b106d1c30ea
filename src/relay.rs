use vstd::prelude::*;

use crate::session::TunnelError;

verus! {

/// One of the two copy directions of a relay.
#[derive(Clone, Copy, PartialEq, Eq, Debug, Structural)]
pub enum Direction {
    /// From the local connection into the forwarded channel.
    Upstream,
    /// From the forwarded channel back to the local connection.
    Downstream,
}

pub open spec fn opposite(d: Direction) -> Direction {
    match d {
        Direction::Upstream => Direction::Downstream,
        Direction::Downstream => Direction::Upstream,
    }
}

impl Direction {
    /// The direction that runs the other way.
    pub fn other(self) -> (r: Direction)
        ensures
            r == opposite(self),
    {
        match self {
            Direction::Upstream => Direction::Downstream,
            Direction::Downstream => Direction::Upstream,
        }
    }
}

/// Lifecycle of a relay: `Created -> Running -> Terminating -> Closed`, never back.
#[derive(Clone, Copy, PartialEq, Eq, Debug, Structural)]
pub enum RelayPhase {
    Created,
    Running,
    Terminating,
    Closed,
}

/// Why a relay stopped: the direction that ended first, and whether it failed.
#[derive(Clone, Copy, PartialEq, Eq, Debug, Structural)]
pub enum EndCause {
    Finished(Direction),
    Failed(Direction),
}

impl EndCause {
    /// The error a cause stands for: `RelayIo` for a failed direction, none
    /// for one that reached end of stream.
    pub fn error(&self) -> (r: Option<TunnelError>)
        ensures
            r == (match *self {
                EndCause::Failed(_) => Some(TunnelError::RelayIo),
                EndCause::Finished(_) => None::<TunnelError>,
            }),
    {
        match self {
            EndCause::Failed(_) => Some(TunnelError::RelayIo),
            EndCause::Finished(_) => None,
        }
    }
}

pub open spec fn cause_of(d: Direction, failed: bool) -> EndCause {
    if failed {
        EndCause::Failed(d)
    } else {
        EndCause::Finished(d)
    }
}

/// What the driver of a relay must do next.
pub enum RelayAction {
    /// Write `bytes`, unchanged, to the destination of `dir`.
    Forward { dir: Direction, bytes: Vec<u8> },
    /// Cancel the outstanding operation of `dir`.
    Cancel { dir: Direction },
    /// Release both halves of the pair; no further I/O.
    Release,
    /// Nothing to do.
    Idle,
}

/// Mathematical form of a `RelayAction`.
pub enum Act {
    Forward(Direction, Seq<u8>),
    Cancel(Direction),
    Release,
    Idle,
}

impl View for RelayAction {
    type V = Act;

    open spec fn view(&self) -> Act {
        match self {
            RelayAction::Forward { dir, bytes } => Act::Forward(*dir, bytes@),
            RelayAction::Cancel { dir } => Act::Cancel(*dir),
            RelayAction::Release => Act::Release,
            RelayAction::Idle => Act::Idle,
        }
    }
}

/// What happens to a relay: it is started, a chunk is read in one direction,
/// or one direction reaches end of stream (`true`: with an error).
pub enum Ev {
    Start,
    Data(Direction, Seq<u8>),
    End(Direction, bool),
}

/// Model of a relay task: its phase, the bytes relayed each way, and the cause
/// of termination once there is one.
pub struct RelayModel {
    pub phase: RelayPhase,
    pub upstream: u64,
    pub downstream: u64,
    pub cause: Option<EndCause>,
}

/// A byte count that grows by `n` and stops at `u64::MAX`.
pub open spec fn grow(count: u64, n: nat) -> u64 {
    if count + n > u64::MAX {
        u64::MAX
    } else {
        (count + n) as u64
    }
}

pub open spec fn initial_model() -> RelayModel {
    RelayModel { phase: RelayPhase::Created, upstream: 0, downstream: 0, cause: None }
}

pub open spec fn with_phase(m: RelayModel, p: RelayPhase) -> RelayModel {
    RelayModel { phase: p, ..m }
}

pub open spec fn counted(m: RelayModel, d: Direction, n: nat) -> RelayModel {
    match d {
        Direction::Upstream => RelayModel { upstream: grow(m.upstream, n), ..m },
        Direction::Downstream => RelayModel { downstream: grow(m.downstream, n), ..m },
    }
}

/// One transition of the relay state machine and the action it asks for.
pub open spec fn step(m: RelayModel, e: Ev) -> (RelayModel, Act) {
    match e {
        Ev::Start => {
            if m.phase == RelayPhase::Created {
                (with_phase(m, RelayPhase::Running), Act::Idle)
            } else {
                (m, Act::Idle)
            }
        },
        Ev::Data(d, bytes) => match m.phase {
            RelayPhase::Running => (counted(m, d, bytes.len()), Act::Forward(d, bytes)),
            RelayPhase::Terminating => (with_phase(m, RelayPhase::Closed), Act::Release),
            _ => (m, Act::Idle),
        },
        Ev::End(d, failed) => match m.phase {
            RelayPhase::Running => (
                RelayModel {
                    phase: RelayPhase::Terminating,
                    cause: Some(cause_of(d, failed)),
                    ..m
                },
                Act::Cancel(opposite(d)),
            ),
            RelayPhase::Created => (
                RelayModel { phase: RelayPhase::Closed, cause: Some(cause_of(d, failed)), ..m },
                Act::Release,
            ),
            RelayPhase::Terminating => (with_phase(m, RelayPhase::Closed), Act::Release),
            RelayPhase::Closed => (m, Act::Idle),
        },
    }
}

/// The state reached after a sequence of events.
pub open spec fn run(m: RelayModel, evs: Seq<Ev>) -> RelayModel
    decreases evs.len(),
{
    if evs.len() == 0 {
        m
    } else {
        run(step(m, evs[0]).0, evs.drop_first())
    }
}

/// The bytes that an action writes in direction `d`.
pub open spec fn written(a: Act, d: Direction) -> Seq<u8> {
    match a {
        Act::Forward(d2, bytes) => if d2 == d {
            bytes
        } else {
            Seq::empty()
        },
        _ => Seq::empty(),
    }
}

/// Everything written in direction `d` while a sequence of events is handled.
pub open spec fn relayed(m: RelayModel, evs: Seq<Ev>, d: Direction) -> Seq<u8>
    decreases evs.len(),
{
    if evs.len() == 0 {
        Seq::empty()
    } else {
        written(step(m, evs[0]).1, d) + relayed(step(m, evs[0]).0, evs.drop_first(), d)
    }
}

/// The bytes that a single event reads in direction `d`.
pub open spec fn read_in(e: Ev, d: Direction) -> Seq<u8> {
    match e {
        Ev::Data(d2, bytes) => if d2 == d {
            bytes
        } else {
            Seq::empty()
        },
        _ => Seq::empty(),
    }
}

/// Everything read in direction `d`, in order.
pub open spec fn sent(evs: Seq<Ev>, d: Direction) -> Seq<u8>
    decreases evs.len(),
{
    if evs.len() == 0 {
        Seq::empty()
    } else {
        read_in(evs[0], d) + sent(evs.drop_first(), d)
    }
}

pub open spec fn is_end(e: Ev) -> bool {
    e is End
}

pub open spec fn is_winding_down(p: RelayPhase) -> bool {
    p == RelayPhase::Terminating || p == RelayPhase::Closed
}

/// The two copy directions of one local connection and its forwarded channel.
pub struct RelayTask {
    phase: RelayPhase,
    upstream: u64,
    downstream: u64,
    cause: Option<EndCause>,
}

impl View for RelayTask {
    type V = RelayModel;

    closed spec fn view(&self) -> RelayModel {
        RelayModel {
            phase: self.phase,
            upstream: self.upstream,
            downstream: self.downstream,
            cause: self.cause,
        }
    }
}

impl RelayTask {
    pub fn new() -> (r: RelayTask)
        ensures
            r@ == initial_model(),
    {
        RelayTask { phase: RelayPhase::Created, upstream: 0, downstream: 0, cause: None }
    }

    /// Moves a created relay to `Running`; any other relay is left as it is.
    pub fn start(&mut self)
        ensures
            final(self)@ == step(old(self)@, Ev::Start).0,
    {
        if self.phase == RelayPhase::Created {
            self.phase = RelayPhase::Running;
        }
    }

    /// Handles a chunk read in direction `dir`.
    pub fn on_data(&mut self, dir: Direction, bytes: Vec<u8>) -> (r: RelayAction)
        ensures
            (final(self)@, r@) == step(old(self)@, Ev::Data(dir, bytes@)),
    {
        match self.phase {
            RelayPhase::Running => {
                let n = bytes.len() as u64;
                match dir {
                    Direction::Upstream => {
                        self.upstream = self.upstream.saturating_add(n);
                    },
                    Direction::Downstream => {
                        self.downstream = self.downstream.saturating_add(n);
                    },
                }
                RelayAction::Forward { dir, bytes }
            },
            RelayPhase::Terminating => {
                self.phase = RelayPhase::Closed;
                RelayAction::Release
            },
            _ => RelayAction::Idle,
        }
    }

    /// Handles the end of direction `dir`: end of stream, or an error if `failed`.
    pub fn on_end(&mut self, dir: Direction, failed: bool) -> (r: RelayAction)
        ensures
            (final(self)@, r@) == step(old(self)@, Ev::End(dir, failed)),
    {
        let cause = if failed {
            EndCause::Failed(dir)
        } else {
            EndCause::Finished(dir)
        };
        match self.phase {
            RelayPhase::Running => {
                self.phase = RelayPhase::Terminating;
                self.cause = Some(cause);
                RelayAction::Cancel { dir: dir.other() }
            },
            RelayPhase::Created => {
                self.phase = RelayPhase::Closed;
                self.cause = Some(cause);
                RelayAction::Release
            },
            RelayPhase::Terminating => {
                self.phase = RelayPhase::Closed;
                RelayAction::Release
            },
            RelayPhase::Closed => RelayAction::Idle,
        }
    }

    pub fn phase(&self) -> (r: RelayPhase)
        ensures
            r == self@.phase,
    {
        self.phase
    }

    /// Bytes relayed so far in direction `dir`.
    pub fn transferred(&self, dir: Direction) -> (r: u64)
        ensures
            r == (match dir {
                Direction::Upstream => self@.upstream,
                Direction::Downstream => self@.downstream,
            }),
    {
        match dir {
            Direction::Upstream => self.upstream,
            Direction::Downstream => self.downstream,
        }
    }

    pub fn cause(&self) -> (r: Option<EndCause>)
        ensures
            r == self@.cause,
    {
        self.cause
    }
}

/// Byte order: while a relay runs and neither direction has ended, each
/// direction writes exactly the concatenation of the chunks read in it, with
/// nothing reordered, lost or repeated, and the relay keeps running.
pub proof fn lemma_byte_order(m: RelayModel, evs: Seq<Ev>, d: Direction)
    requires
        m.phase == RelayPhase::Running,
        forall|i: int| 0 <= i < evs.len() ==> !is_end(#[trigger] evs[i]),
    ensures
        relayed(m, evs, d) == sent(evs, d),
        run(m, evs).phase == RelayPhase::Running,
    decreases evs.len(),
{
    if evs.len() > 0 {
        let rest = evs.drop_first();
        assert forall|i: int| 0 <= i < rest.len() implies !is_end(#[trigger] rest[i]) by {
            assert(rest[i] == evs[i + 1]);
        }
        assert(!is_end(evs[0]));
        lemma_byte_order(step(m, evs[0]).0, rest, d);
        assert(written(step(m, evs[0]).1, d) == read_in(evs[0], d));
    }
}

/// Once a relay is terminating or closed it writes nothing more and never runs again.
pub proof fn lemma_quiet_after_end(m: RelayModel, evs: Seq<Ev>, d: Direction)
    requires
        is_winding_down(m.phase),
    ensures
        relayed(m, evs, d) == Seq::<u8>::empty(),
        is_winding_down(run(m, evs).phase),
    decreases evs.len(),
{
    if evs.len() > 0 {
        lemma_quiet_after_end(step(m, evs[0]).0, evs.drop_first(), d);
        assert(relayed(m, evs, d) =~= Seq::<u8>::empty());
    }
}

/// Termination: when either direction of a running relay ends, the other
/// direction is cancelled at once, the next thing read or ended on either side
/// releases both halves,
/// and no byte is relayed in either direction afterwards.
pub proof fn lemma_termination(m: RelayModel, d: Direction, failed: bool, evs: Seq<Ev>)
    requires
        m.phase == RelayPhase::Running,
    ensures
        step(m, Ev::End(d, failed)).0.phase == RelayPhase::Terminating,
        step(m, Ev::End(d, failed)).1 == Act::Cancel(opposite(d)),
        evs.len() > 0 && !(evs[0] is Start) ==> step(step(m, Ev::End(d, failed)).0, evs[0]).0.phase
            == RelayPhase::Closed,
        evs.len() > 0 && !(evs[0] is Start) ==> step(step(m, Ev::End(d, failed)).0, evs[0]).1
            == Act::Release,
        relayed(step(m, Ev::End(d, failed)).0, evs, Direction::Upstream) == Seq::<u8>::empty(),
        relayed(step(m, Ev::End(d, failed)).0, evs, Direction::Downstream) == Seq::<u8>::empty(),
        is_winding_down(run(step(m, Ev::End(d, failed)).0, evs).phase),
{
    let m1 = step(m, Ev::End(d, failed)).0;
    lemma_quiet_after_end(m1, evs, Direction::Upstream);
    lemma_quiet_after_end(m1, evs, Direction::Downstream);
}

} // verus!
