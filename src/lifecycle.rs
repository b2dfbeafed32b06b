use vstd::prelude::*;
use crate::ServerMessage;

verus! {

/// If the server is idle for this many milliseconds, it shuts down.
pub const DEFAULT_IDLE_TIMEOUT: u64 = 600_000;

/// How long, in milliseconds, in-flight work may still run after shutdown.
pub const DEFAULT_GRACE: u64 = 1_000;

/// Where the server stands in its life.
#[derive(Clone, Copy, PartialEq, Eq, Structural, Debug)]
pub enum Phase {
    /// Accepting connections.
    Running,
    /// No longer accepting; in-flight handlers may finish until `until`.
    Draining { until: u64 },
    /// Done: the server exits.
    Stopped,
}

/// Something the event loop observed, with the time in milliseconds where
/// the decision depends on it.
#[derive(Clone, Copy, PartialEq, Eq, Structural, Debug)]
pub enum Event {
    /// A request arrived.
    Request { now: u64 },
    /// A client asked the server to shut down.
    ShutdownRequested { now: u64 },
    /// The host asked the server to shut down.
    ExternalShutdown { now: u64 },
    /// Time passed.
    Tick { now: u64 },
    /// A connection handler started.
    HandlerStarted,
    /// A connection handler finished.
    HandlerFinished { now: u64 },
}

/// What the event loop does next.
#[derive(Clone, Copy, PartialEq, Eq, Structural, Debug)]
pub enum Action {
    Continue,
    StopAccepting,
    Exit,
}

/// Decides when the server stops: on an external shutdown, on a shutdown
/// request, or when no request has arrived before the idle deadline. Then it
/// waits for the live handlers, at most for the grace window.
#[derive(Clone, Copy, PartialEq, Eq, Structural, Debug)]
pub struct Supervisor {
    pub idle_timeout: u64,
    pub grace: u64,
    /// When the last request arrived; the start time before any request.
    pub last_request: u64,
    /// The instant after which the server stops if no request came.
    pub deadline: u64,
    /// The number of live connection handlers.
    pub active: u64,
    pub phase: Phase,
}

/// The supervisor once a trigger to stop has fired at `now`.
pub open spec fn terminated(s: Supervisor, now: u64) -> (Supervisor, Action) {
    if s.active == 0 {
        (Supervisor { phase: Phase::Stopped, ..s }, Action::Exit)
    } else {
        (
            Supervisor { phase: Phase::Draining { until: now.saturating_add(s.grace) }, ..s },
            Action::StopAccepting,
        )
    }
}

/// The transition on one event.
pub open spec fn next(s: Supervisor, e: Event) -> (Supervisor, Action) {
    match s.phase {
        Phase::Running => match e {
            Event::Request { now } => (
                Supervisor { last_request: now, deadline: now.saturating_add(s.idle_timeout), ..s },
                Action::Continue,
            ),
            Event::ShutdownRequested { now } => terminated(s, now),
            Event::ExternalShutdown { now } => terminated(s, now),
            Event::Tick { now } => if now >= s.deadline {
                terminated(s, now)
            } else {
                (s, Action::Continue)
            },
            Event::HandlerStarted => (
                Supervisor { active: s.active.saturating_add(1), ..s },
                Action::Continue,
            ),
            Event::HandlerFinished { now } => (
                Supervisor { active: if s.active > 0 { (s.active - 1) as u64 } else { 0 }, ..s },
                Action::Continue,
            ),
        },
        Phase::Draining { until } => match e {
            Event::HandlerStarted => (
                Supervisor { active: s.active.saturating_add(1), ..s },
                Action::Continue,
            ),
            Event::HandlerFinished { now } => {
                let active: u64 = if s.active > 0 { (s.active - 1) as u64 } else { 0 };
                if active == 0 || now >= until {
                    (Supervisor { active, phase: Phase::Stopped, ..s }, Action::Exit)
                } else {
                    (Supervisor { active, ..s }, Action::Continue)
                }
            },
            Event::Tick { now } => if now >= until {
                (Supervisor { phase: Phase::Stopped, ..s }, Action::Exit)
            } else {
                (s, Action::Continue)
            },
            _ => (s, Action::Continue),
        },
        Phase::Stopped => (s, Action::Exit),
    }
}

/// The event that a message from a request handler stands for.
pub open spec fn event_of(msg: ServerMessage, now: u64) -> Event {
    match msg {
        ServerMessage::Request => Event::Request { now },
        ServerMessage::Shutdown => Event::ShutdownRequested { now },
    }
}

impl Supervisor {
    /// A supervisor started at `now` with the given idle timeout and grace
    /// window, in milliseconds.
    pub fn new(idle_timeout: u64, grace: u64, now: u64) -> (r: Supervisor)
        ensures
            r == (Supervisor {
                idle_timeout,
                grace,
                last_request: now,
                deadline: now.saturating_add(idle_timeout),
                active: 0,
                phase: Phase::Running,
            }),
    {
        Supervisor {
            idle_timeout,
            grace,
            last_request: now,
            deadline: now.saturating_add(idle_timeout),
            active: 0,
            phase: Phase::Running,
        }
    }

    /// A supervisor with the default idle timeout and grace window.
    pub fn with_defaults(now: u64) -> (r: Supervisor)
        ensures
            r == Supervisor::spec_new(DEFAULT_IDLE_TIMEOUT, DEFAULT_GRACE, now),
    {
        Supervisor::new(DEFAULT_IDLE_TIMEOUT, DEFAULT_GRACE, now)
    }

    pub open spec fn spec_new(idle_timeout: u64, grace: u64, now: u64) -> Supervisor {
        Supervisor {
            idle_timeout,
            grace,
            last_request: now,
            deadline: now.saturating_add(idle_timeout),
            active: 0,
            phase: Phase::Running,
        }
    }

    /// Changes how long the server may stay idle: the deadline becomes the
    /// time of the last request (or of the start) plus the new timeout.
    pub fn set_idle_timeout(&mut self, timeout: u64)
        ensures
            *final(self) == (Supervisor {
                idle_timeout: timeout,
                deadline: old(self).last_request.saturating_add(timeout),
                ..*old(self)
            }),
    {
        self.idle_timeout = timeout;
        self.deadline = self.last_request.saturating_add(timeout);
    }

    /// Changes how long, in milliseconds, in-flight work may still run
    /// after a shutdown that has not begun yet.
    pub fn set_grace(&mut self, grace: u64)
        ensures
            *final(self) == (Supervisor { grace, ..*old(self) }),
    {
        self.grace = grace;
    }

    pub open spec fn spec_accepting(&self) -> bool {
        self.phase == Phase::Running
    }

    /// Whether new connections are accepted.
    pub fn accepting(&self) -> (r: bool)
        ensures
            r == self.spec_accepting(),
    {
        match self.phase {
            Phase::Running => true,
            _ => false,
        }
    }

    fn terminate(&mut self, now: u64) -> (r: Action)
        ensures
            (*final(self), r) == terminated(*old(self), now),
    {
        if self.active == 0 {
            self.phase = Phase::Stopped;
            Action::Exit
        } else {
            self.phase = Phase::Draining { until: now.saturating_add(self.grace) };
            Action::StopAccepting
        }
    }

    /// Takes a message from a request handler, received at `now`.
    pub fn receive(&mut self, msg: ServerMessage, now: u64) -> (r: Action)
        ensures
            (*final(self), r) == next(*old(self), event_of(msg, now)),
    {
        let e = match msg {
            ServerMessage::Request => Event::Request { now },
            ServerMessage::Shutdown => Event::ShutdownRequested { now },
        };
        self.step(e)
    }

    /// Takes one event and says what the event loop does next.
    pub fn step(&mut self, e: Event) -> (r: Action)
        ensures
            (*final(self), r) == next(*old(self), e),
    {
        match self.phase {
            Phase::Running => match e {
                Event::Request { now } => {
                    self.last_request = now;
                    self.deadline = now.saturating_add(self.idle_timeout);
                    Action::Continue
                },
                Event::ShutdownRequested { now } => self.terminate(now),
                Event::ExternalShutdown { now } => self.terminate(now),
                Event::Tick { now } => {
                    if now >= self.deadline {
                        self.terminate(now)
                    } else {
                        Action::Continue
                    }
                },
                Event::HandlerStarted => {
                    self.active = self.active.saturating_add(1);
                    Action::Continue
                },
                Event::HandlerFinished { now: _ } => {
                    if self.active > 0 {
                        self.active = self.active - 1;
                    }
                    Action::Continue
                },
            },
            Phase::Draining { until } => match e {
                Event::HandlerStarted => {
                    self.active = self.active.saturating_add(1);
                    Action::Continue
                },
                Event::HandlerFinished { now } => {
                    if self.active > 0 {
                        self.active = self.active - 1;
                    }
                    if self.active == 0 || now >= until {
                        self.phase = Phase::Stopped;
                        Action::Exit
                    } else {
                        Action::Continue
                    }
                },
                Event::Tick { now } => {
                    if now >= until {
                        self.phase = Phase::Stopped;
                        Action::Exit
                    } else {
                        Action::Continue
                    }
                },
                _ => Action::Continue,
            },
            Phase::Stopped => Action::Exit,
        }
    }
}

/// Once a shutdown request has been taken, new connections are refused,
/// and they stay refused whatever comes next.
pub proof fn lemma_shutdown_stops_accepting(s: Supervisor, now: u64, e: Event)
    ensures
        !next(s, Event::ShutdownRequested { now }).0.spec_accepting(),
        !next(next(s, Event::ShutdownRequested { now }).0, e).0.spec_accepting(),
{
}

/// A supervisor that no longer accepts connections never accepts again.
pub proof fn lemma_refusal_is_permanent(s: Supervisor, e: Event)
    requires
        !s.spec_accepting(),
    ensures
        !next(s, e).0.spec_accepting(),
{
}

/// The idle deadline moves only when a request arrives, never on the
/// progress of in-flight work.
pub proof fn lemma_deadline_moves_only_on_request(s: Supervisor, e: Event)
    requires
        !(e is Request),
    ensures
        next(s, e).0.deadline == s.deadline,
{
}

/// With no live handlers, any trigger to stop makes the server exit at once.
pub proof fn lemma_idle_server_exits(s: Supervisor, now: u64)
    requires
        s.phase == Phase::Running,
        s.active == 0,
        now >= s.deadline,
    ensures
        next(s, Event::Tick { now }).1 == Action::Exit,
        next(s, Event::ShutdownRequested { now }).1 == Action::Exit,
        next(s, Event::ExternalShutdown { now }).1 == Action::Exit,
{
}

/// While draining, a handler that finishes before the grace window ends is
/// waited for: the server exits only when the last one is done.
pub proof fn lemma_drain_waits_for_handlers(s: Supervisor, now: u64)
    requires
        s.phase is Draining,
        now < s.phase->until,
        s.active > 1,
    ensures
        next(s, Event::HandlerFinished { now }).1 == Action::Continue,
        next(s, Event::HandlerFinished { now }).0.active == s.active - 1,
{
}

/// A server configured with an idle timeout and sent no request exits once
/// that timeout has passed since it started, when no handler is live.
pub proof fn lemma_configured_idle_timeout_exits(
    idle_timeout: u64,
    grace: u64,
    start: u64,
    timeout: u64,
    now: u64,
)
    requires
        now >= start.saturating_add(timeout),
    ensures
        ({
            let s = Supervisor {
                idle_timeout: timeout,
                deadline: start.saturating_add(timeout),
                ..Supervisor::spec_new(idle_timeout, grace, start)
            };
            &&& s.deadline == Supervisor::spec_new(idle_timeout, grace, start).last_request.saturating_add(timeout)
            &&& next(s, Event::Tick { now }) == (
                Supervisor { phase: Phase::Stopped, ..s },
                Action::Exit,
            )
        }),
{
}

} // verus!
