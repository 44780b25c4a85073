//! The caller's side of a connection switch. Switching closes the current
//! worker, waits until it has terminated, and only then starts the worker for
//! the new connection. This module decides; the caller performs the actions
//! and reports what happened.

use vstd::prelude::*;

verus! {

/// Where the caller's session stands; the index names a connection.
#[derive(PartialEq, Eq, Structural, Clone, Copy, Debug)]
pub enum SessionPhase {
    /// No worker exists.
    Idle,
    /// A worker serves this connection.
    Active(usize),
    /// `Close` is being sent to the current worker; the switch goes to the index.
    Closing(usize),
    /// Waiting for the current worker to terminate.
    Joining(usize),
    /// The old worker is gone; the new one is being started.
    Spawning(usize),
}

/// What happened since the last action.
#[derive(PartialEq, Eq, Structural, Clone, Copy, Debug)]
pub enum SessionEvent {
    /// The caller asks for the connection with this index.
    SwitchTo(usize),
    /// `Close` was delivered to the current worker.
    CloseSent,
    /// `Close` could not be delivered: the channel is already broken.
    CloseFailed,
    /// The current worker has terminated.
    WorkerJoined,
    /// The new worker was started and its session published.
    WorkerSpawned,
}

/// What the caller must do next.
#[derive(PartialEq, Eq, Structural, Clone, Copy, Debug)]
pub enum SessionAction {
    SendClose,
    JoinWorker,
    SpawnWorker(usize),
    Nothing,
}

/// The transition table of a switch.
pub open spec fn session_next(p: SessionPhase, e: SessionEvent) -> (SessionPhase, SessionAction) {
    match p {
        SessionPhase::Idle => match e {
            SessionEvent::SwitchTo(i) => (SessionPhase::Spawning(i), SessionAction::SpawnWorker(i)),
            _ => (p, SessionAction::Nothing),
        },
        SessionPhase::Active(_) => match e {
            SessionEvent::SwitchTo(i) => (SessionPhase::Closing(i), SessionAction::SendClose),
            _ => (p, SessionAction::Nothing),
        },
        SessionPhase::Closing(i) => match e {
            SessionEvent::CloseSent => (SessionPhase::Joining(i), SessionAction::JoinWorker),
            SessionEvent::CloseFailed => (SessionPhase::Joining(i), SessionAction::JoinWorker),
            _ => (p, SessionAction::Nothing),
        },
        SessionPhase::Joining(i) => match e {
            SessionEvent::WorkerJoined => (SessionPhase::Spawning(i), SessionAction::SpawnWorker(i)),
            _ => (p, SessionAction::Nothing),
        },
        SessionPhase::Spawning(i) => match e {
            SessionEvent::WorkerSpawned => (SessionPhase::Active(i), SessionAction::Nothing),
            _ => (p, SessionAction::Nothing),
        },
    }
}

impl SessionPhase {
    /// Takes one event and gives the next phase and the action to perform.
    pub fn step(self, e: SessionEvent) -> (r: (SessionPhase, SessionAction))
        ensures
            r == session_next(self, e),
            r.1 is SpawnWorker ==> self is Idle || (self is Joining && e is WorkerJoined),
    {
        match self {
            SessionPhase::Idle => match e {
                SessionEvent::SwitchTo(i) => (SessionPhase::Spawning(i), SessionAction::SpawnWorker(i)),
                _ => (self, SessionAction::Nothing),
            },
            SessionPhase::Active(_) => match e {
                SessionEvent::SwitchTo(i) => (SessionPhase::Closing(i), SessionAction::SendClose),
                _ => (self, SessionAction::Nothing),
            },
            SessionPhase::Closing(i) => match e {
                SessionEvent::CloseSent => (SessionPhase::Joining(i), SessionAction::JoinWorker),
                SessionEvent::CloseFailed => (SessionPhase::Joining(i), SessionAction::JoinWorker),
                _ => (self, SessionAction::Nothing),
            },
            SessionPhase::Joining(i) => match e {
                SessionEvent::WorkerJoined => (SessionPhase::Spawning(i), SessionAction::SpawnWorker(i)),
                _ => (self, SessionAction::Nothing),
            },
            SessionPhase::Spawning(i) => match e {
                SessionEvent::WorkerSpawned => (SessionPhase::Active(i), SessionAction::Nothing),
                _ => (self, SessionAction::Nothing),
            },
        }
    }

    /// The connection whose worker serves requests, if any.
    pub fn active(&self) -> (r: Option<usize>)
        ensures
            r == (match *self {
                SessionPhase::Active(i) => Some(i),
                _ => None::<usize>,
            }),
    {
        match *self {
            SessionPhase::Active(i) => Some(i),
            _ => None,
        }
    }
}

/// The connection to open at start: the requested one if it exists, else
/// the first saved one, else none.
pub fn initial_connection(requested: Option<usize>, available: usize) -> (r: Option<usize>)
    ensures
        r == (match requested {
            Some(i) => if i < available { Some(i) } else { None::<usize> },
            None => if available > 0 { Some(0usize) } else { None::<usize> },
        }),
{
    match requested {
        Some(i) => if i < available { Some(i) } else { None },
        None => if available > 0 { Some(0) } else { None },
    }
}

/// The phase reached after a sequence of events.
pub open spec fn session_run(p: SessionPhase, events: Seq<SessionEvent>) -> SessionPhase
    decreases events.len(),
{
    if events.len() == 0 {
        p
    } else {
        session_run(session_next(p, events[0]).0, events.drop_first())
    }
}

/// Switching is sequential: along any run of events, a new worker is started
/// only when none was ever started, or on the report that the previous worker
/// has terminated; and that report is awaited only after `Close` was sent or
/// found undeliverable.
pub proof fn lemma_spawn_only_after_join(p: SessionPhase, events: Seq<SessionEvent>, k: int)
    requires
        0 <= k < events.len(),
        session_next(session_run(p, events.take(k)), events[k]).1 is SpawnWorker,
    ensures
        session_run(p, events.take(k)) is Idle || (session_run(p, events.take(k)) is Joining && events[k] is WorkerJoined),
{
}

/// A phase that waits for the old worker is entered only from `Closing`,
/// once `Close` was sent or found undeliverable.
pub proof fn lemma_join_only_after_close(p: SessionPhase, e: SessionEvent)
    requires
        !(p is Joining),
        session_next(p, e).0 is Joining,
    ensures
        p is Closing,
        e is CloseSent || e is CloseFailed,
{
}

/// While a switch is under way, at most one worker exists and none serves: a
/// switch that started from an active worker reaches `Active` again only by
/// way of closing, joining and spawning.
pub proof fn lemma_switch_sequence(i: usize, j: usize)
    ensures
        session_next(SessionPhase::Active(i), SessionEvent::SwitchTo(j)) == (SessionPhase::Closing(j), SessionAction::SendClose),
        session_run(
            SessionPhase::Active(i),
            seq![SessionEvent::SwitchTo(j), SessionEvent::CloseSent, SessionEvent::WorkerJoined, SessionEvent::WorkerSpawned],
        ) == SessionPhase::Active(j),
{
    reveal_with_fuel(session_run, 5);
    let evs = seq![SessionEvent::SwitchTo(j), SessionEvent::CloseSent, SessionEvent::WorkerJoined, SessionEvent::WorkerSpawned];
    assert(evs.drop_first() =~= seq![SessionEvent::CloseSent, SessionEvent::WorkerJoined, SessionEvent::WorkerSpawned]);
    assert(evs.drop_first().drop_first() =~= seq![SessionEvent::WorkerJoined, SessionEvent::WorkerSpawned]);
    assert(evs.drop_first().drop_first().drop_first() =~= seq![SessionEvent::WorkerSpawned]);
    assert(evs.drop_first().drop_first().drop_first().drop_first() =~= Seq::<SessionEvent>::empty());
}

} // verus!
