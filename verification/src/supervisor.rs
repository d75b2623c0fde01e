//! The life cycle of the listener: accepting connections, keeping count of
//! those in flight, and shutting down.
//!
//! The accepting, the waiting and the timer are the caller's.
//! `Supervisor::step` decides: it takes what has happened and says what to do
//! next. After an interrupt no connection is accepted any more; the
//! connections in flight get the grace period to finish, and what is left of
//! them when it has run out is aborted.

use vstd::prelude::*;

verus! {

/// The grace period of a shutdown where none is configured, in seconds.
pub const DEFAULT_GRACE_SECS: u64 = 10;

/// The pause after a failed accept where none is configured, in seconds.
pub const DEFAULT_BACKOFF_SECS: u64 = 1;

/// How a shutdown ended.
#[derive(Clone, Copy, Debug, PartialEq, Eq, Structural)]
pub enum Shutdown {
    /// Every connection had finished.
    Clean,
    /// The grace period ran out with connections still in flight.
    Forced,
}

/// What the listener is doing.
#[derive(Clone, Copy, Debug, PartialEq, Eq, Structural)]
pub enum ServerPhase {
    /// Connections are accepted.
    Accepting,
    /// An interrupt has come: nothing is accepted, connections finish.
    Draining,
    /// The listener has returned.
    Stopped(Shutdown),
}

/// What has happened to the listener.
#[derive(Clone, Copy, Debug, PartialEq, Eq, Structural)]
pub enum ServerEvent {
    /// A connection has been accepted.
    Accepted,
    /// An attempt to accept a connection failed.
    AcceptFailed,
    /// A connection that was being served has finished.
    ConnectionClosed,
    /// The interrupt signal has come.
    Interrupt,
    /// The grace period has run out.
    GraceElapsed,
}

/// What the listener is to do next.
#[derive(Clone, Copy, Debug, PartialEq, Eq, Structural)]
pub enum ServerAction {
    /// Serve the accepted connection on its own, and go on accepting.
    Serve,
    /// Close the accepted connection unserved.
    Refuse,
    /// Pause for this many seconds, then go on accepting.
    RetryAfter(u64),
    /// Stop accepting, ask the connections in flight to finish, and start
    /// the grace period of this many seconds.
    Drain(u64),
    /// Abort what is still in flight and return.
    Exit(Shutdown),
    /// Nothing: go on waiting.
    Wait,
}

/// The state of the listener.
#[derive(Clone, Copy, Debug, PartialEq, Eq, Structural)]
pub struct Supervisor {
    pub phase: ServerPhase,
    pub in_flight: u64,
    pub grace_secs: u64,
    pub backoff_secs: u64,
}

/// The state and the action that follow an event.
pub open spec fn step_of(s: Supervisor, event: ServerEvent) -> (Supervisor, ServerAction) {
    match s.phase {
        ServerPhase::Accepting => match event {
            ServerEvent::Accepted => if s.in_flight < u64::MAX {
                (Supervisor { in_flight: (s.in_flight + 1) as u64, ..s }, ServerAction::Serve)
            } else {
                (s, ServerAction::Refuse)
            },
            ServerEvent::AcceptFailed => (s, ServerAction::RetryAfter(s.backoff_secs)),
            ServerEvent::ConnectionClosed => if s.in_flight > 0 {
                (Supervisor { in_flight: (s.in_flight - 1) as u64, ..s }, ServerAction::Wait)
            } else {
                (s, ServerAction::Wait)
            },
            ServerEvent::Interrupt => if s.in_flight == 0 {
                (
                    Supervisor { phase: ServerPhase::Stopped(Shutdown::Clean), ..s },
                    ServerAction::Exit(Shutdown::Clean),
                )
            } else {
                (
                    Supervisor { phase: ServerPhase::Draining, ..s },
                    ServerAction::Drain(s.grace_secs),
                )
            },
            ServerEvent::GraceElapsed => (s, ServerAction::Wait),
        },
        ServerPhase::Draining => match event {
            ServerEvent::Accepted => (s, ServerAction::Refuse),
            ServerEvent::ConnectionClosed => if s.in_flight <= 1 {
                (
                    Supervisor {
                        phase: ServerPhase::Stopped(Shutdown::Clean),
                        in_flight: 0,
                        ..s
                    },
                    ServerAction::Exit(Shutdown::Clean),
                )
            } else {
                (Supervisor { in_flight: (s.in_flight - 1) as u64, ..s }, ServerAction::Wait)
            },
            ServerEvent::GraceElapsed => (
                Supervisor { phase: ServerPhase::Stopped(Shutdown::Forced), ..s },
                ServerAction::Exit(Shutdown::Forced),
            ),
            _ => (s, ServerAction::Wait),
        },
        ServerPhase::Stopped(_) => match event {
            ServerEvent::Accepted => (s, ServerAction::Refuse),
            _ => (s, ServerAction::Wait),
        },
    }
}

impl Supervisor {
    /// A listener that drains only while something is in flight.
    pub open spec fn wf(self) -> bool {
        self.phase == ServerPhase::Draining ==> self.in_flight > 0
    }

    /// A listener that accepts, with nothing in flight yet.
    pub fn new(grace_secs: u64, backoff_secs: u64) -> (s: Supervisor)
        ensures
            s == (Supervisor {
                phase: ServerPhase::Accepting,
                in_flight: 0,
                grace_secs,
                backoff_secs,
            }),
            s.wf(),
    {
        Supervisor { phase: ServerPhase::Accepting, in_flight: 0, grace_secs, backoff_secs }
    }

    /// A listener with a grace period of ten seconds and a pause of one
    /// second after a failed accept.
    pub fn with_defaults() -> (s: Supervisor)
        ensures
            s == (Supervisor {
                phase: ServerPhase::Accepting,
                in_flight: 0,
                grace_secs: 10,
                backoff_secs: 1,
            }),
    {
        Supervisor::new(DEFAULT_GRACE_SECS, DEFAULT_BACKOFF_SECS)
    }

    /// Takes an event and says what to do next.
    ///
    /// While accepting, an accepted connection is served and counted, a
    /// failed accept is tried again after the pause, and an interrupt starts
    /// the shutdown: at once where nothing is in flight, by draining
    /// otherwise. While draining, an accepted connection is refused; the
    /// last connection to finish ends the shutdown cleanly, and the end of
    /// the grace period ends it by force. A stopped listener refuses and
    /// waits.
    pub fn step(&mut self, event: ServerEvent) -> (action: ServerAction)
        ensures
            (*final(self), action) == step_of(*old(self), event),
            old(self).wf() ==> final(self).wf(),
    {
        match self.phase {
            ServerPhase::Accepting => match event {
                ServerEvent::Accepted => {
                    if self.in_flight < u64::MAX {
                        self.in_flight = self.in_flight + 1;
                        ServerAction::Serve
                    } else {
                        ServerAction::Refuse
                    }
                },
                ServerEvent::AcceptFailed => ServerAction::RetryAfter(self.backoff_secs),
                ServerEvent::ConnectionClosed => {
                    if self.in_flight > 0 {
                        self.in_flight = self.in_flight - 1;
                    }
                    ServerAction::Wait
                },
                ServerEvent::Interrupt => {
                    if self.in_flight == 0 {
                        self.phase = ServerPhase::Stopped(Shutdown::Clean);
                        ServerAction::Exit(Shutdown::Clean)
                    } else {
                        self.phase = ServerPhase::Draining;
                        ServerAction::Drain(self.grace_secs)
                    }
                },
                ServerEvent::GraceElapsed => ServerAction::Wait,
            },
            ServerPhase::Draining => match event {
                ServerEvent::Accepted => ServerAction::Refuse,
                ServerEvent::ConnectionClosed => {
                    if self.in_flight <= 1 {
                        self.in_flight = 0;
                        self.phase = ServerPhase::Stopped(Shutdown::Clean);
                        ServerAction::Exit(Shutdown::Clean)
                    } else {
                        self.in_flight = self.in_flight - 1;
                        ServerAction::Wait
                    }
                },
                ServerEvent::GraceElapsed => {
                    self.phase = ServerPhase::Stopped(Shutdown::Forced);
                    ServerAction::Exit(Shutdown::Forced)
                },
                _ => ServerAction::Wait,
            },
            ServerPhase::Stopped(_) => match event {
                ServerEvent::Accepted => ServerAction::Refuse,
                _ => ServerAction::Wait,
            },
        }
    }
}

/// The state after a run of events.
pub open spec fn state_after(s: Supervisor, events: Seq<ServerEvent>) -> Supervisor
    decreases events.len(),
{
    if events.len() == 0 {
        s
    } else {
        step_of(state_after(s, events.drop_last()), events.last()).0
    }
}

/// The action that the last event of a run leads to.
pub open spec fn last_action(s: Supervisor, events: Seq<ServerEvent>) -> ServerAction
    recommends
        events.len() > 0,
{
    step_of(state_after(s, events.drop_last()), events.last()).1
}

/// A run of `count` connections finishing, and nothing else.
pub open spec fn closings(count: nat) -> Seq<ServerEvent> {
    Seq::new(count, |i: int| ServerEvent::ConnectionClosed)
}

/// An interrupt while connections are in flight starts the draining with the
/// configured grace period and keeps the count; with nothing in flight it
/// ends the listener cleanly at once.
pub proof fn lemma_interrupt_starts_shutdown(s: Supervisor)
    requires
        s.phase == ServerPhase::Accepting,
    ensures
        s.in_flight > 0 ==> step_of(s, ServerEvent::Interrupt) == (
            Supervisor { phase: ServerPhase::Draining, ..s },
            ServerAction::Drain(s.grace_secs),
        ),
        s.in_flight == 0 ==> step_of(s, ServerEvent::Interrupt).1 == ServerAction::Exit(
            Shutdown::Clean,
        ),
        step_of(s, ServerEvent::Interrupt).0.wf(),
{
}

/// Once the shutdown has begun, whatever happens: no connection is accepted
/// any more, the count of those in flight does not grow, and the listener
/// does not go back to accepting.
pub proof fn lemma_no_accept_after_interrupt(s: Supervisor, events: Seq<ServerEvent>)
    requires
        s.phase != ServerPhase::Accepting,
    ensures
        state_after(s, events).phase != ServerPhase::Accepting,
        state_after(s, events).in_flight <= s.in_flight,
        events.len() > 0 && events.last() == ServerEvent::Accepted ==> last_action(s, events)
            == ServerAction::Refuse,
        events.len() > 0 ==> last_action(s, events) != ServerAction::Serve,
    decreases events.len(),
{
    if events.len() > 0 {
        lemma_no_accept_after_interrupt(s, events.drop_last());
    }
}

/// While the listener drains with `s.in_flight` connections in flight, and
/// the grace period has not run out: as long as fewer than all of them have
/// finished it goes on draining, and when the last one finishes it ends
/// cleanly.
pub proof fn lemma_drain_completes(s: Supervisor, finished: nat)
    requires
        s.phase == ServerPhase::Draining,
        s.wf(),
        finished <= s.in_flight,
    ensures
        finished < s.in_flight ==> state_after(s, closings(finished)) == (Supervisor {
            in_flight: (s.in_flight - finished) as u64,
            ..s
        }),
        finished == s.in_flight ==> state_after(s, closings(finished)).phase
            == ServerPhase::Stopped(Shutdown::Clean),
        finished == s.in_flight ==> last_action(s, closings(finished)) == ServerAction::Exit(
            Shutdown::Clean,
        ),
        0 < finished < s.in_flight ==> last_action(s, closings(finished)) == ServerAction::Wait,
    decreases finished,
{
    if finished > 0 {
        lemma_drain_completes(s, (finished - 1) as nat);
        assert(closings(finished).drop_last() =~= closings((finished - 1) as nat));
        assert(closings(finished).last() == ServerEvent::ConnectionClosed);
    }
}

/// Where the grace period runs out while the listener still drains, it ends
/// by force, and that end is told apart from a clean one.
pub proof fn lemma_grace_forces(s: Supervisor)
    requires
        s.phase == ServerPhase::Draining,
    ensures
        step_of(s, ServerEvent::GraceElapsed).0.phase == ServerPhase::Stopped(Shutdown::Forced),
        step_of(s, ServerEvent::GraceElapsed).1 == ServerAction::Exit(Shutdown::Forced),
        ServerAction::Exit(Shutdown::Forced) != ServerAction::Exit(Shutdown::Clean),
        step_of(s, ServerEvent::GraceElapsed).0.in_flight == s.in_flight,
{
}

/// A failed accept does not end the listener: it goes on accepting after the
/// pause, with the same connections in flight.
pub proof fn lemma_accept_failure_is_retried(s: Supervisor)
    requires
        s.phase == ServerPhase::Accepting,
    ensures
        step_of(s, ServerEvent::AcceptFailed) == (s, ServerAction::RetryAfter(s.backoff_secs)),
{
}

} // verus!
