//! The life of the process that runs both listeners: they start together,
//! and when a cancellation arrives or either of them ends, both are stopped
//! and awaited before the run is over.
//!
//! The supervisor here only decides. Whoever drives it binds the sockets,
//! sends the stop signals it asks for, and reports back what happened.

use vstd::prelude::*;

verus! {

/// One of the two listeners.
#[derive(Debug, Clone, Copy, PartialEq, Eq, Structural)]
pub enum Listener {
    /// The listener of the text protocol.
    Http,
    /// The listener of the RPC protocol.
    Grpc,
}

/// Where a listener stands.
#[derive(Debug, Clone, Copy, PartialEq, Eq, Structural)]
pub enum ListenerState {
    /// Not bound yet.
    Binding,
    /// Bound and accepting new connections.
    Accepting,
    /// Told to stop: accepts nothing new and finishes what is in flight.
    Draining,
    /// Gone.
    Exited,
}

/// Where the process stands.
#[derive(Debug, Clone, Copy, PartialEq, Eq, Structural)]
pub enum Phase {
    Starting,
    Running,
    Stopping,
    Stopped,
}

/// What the driver reports to the supervisor.
#[derive(Debug, Clone, Copy, PartialEq, Eq, Structural)]
pub enum Event {
    /// The listener has bound its address.
    Bound(Listener),
    /// The listener could not bind its address.
    BindFailed(Listener),
    /// The cancellation signal arrived.
    Cancelled,
    /// The listener ended; `clean` tells a clean shutdown from an error.
    Exited { listener: Listener, clean: bool },
    /// The grace period for draining is over.
    GraceElapsed,
}

/// What the supervisor asks the driver to do.
#[derive(Debug, Clone, Copy, PartialEq, Eq, Structural)]
pub struct Commands {
    /// Tell the text-protocol listener to stop accepting and to drain.
    pub stop_http: bool,
    /// Tell the RPC listener to stop accepting and to drain.
    pub stop_grpc: bool,
}

/// The supervisor's state: where each listener stands, and whether
/// anything has failed so far.
#[derive(Debug, Clone, Copy, PartialEq, Eq, Structural)]
pub struct Supervisor {
    pub http: ListenerState,
    pub grpc: ListenerState,
    /// Whether a listener failed to bind or ended with an error.
    pub failed: bool,
}

/// A listener's state once it is told to stop: one that accepts begins to
/// drain, one that never bound is gone at once, and the others stay as they
/// are.
pub open spec fn stopped(state: ListenerState) -> ListenerState {
    match state {
        ListenerState::Binding => ListenerState::Exited,
        ListenerState::Accepting => ListenerState::Draining,
        ListenerState::Draining => ListenerState::Draining,
        ListenerState::Exited => ListenerState::Exited,
    }
}

/// A listener's state once the grace period is over: what was still
/// draining is abandoned.
pub open spec fn abandoned(state: ListenerState) -> ListenerState {
    match state {
        ListenerState::Draining => ListenerState::Exited,
        other => other,
    }
}

impl Supervisor {
    /// The state of one listener.
    pub open spec fn state_of(self, listener: Listener) -> ListenerState {
        match listener {
            Listener::Http => self.http,
            Listener::Grpc => self.grpc,
        }
    }

    /// Whether the listener accepts new connections.
    pub open spec fn accepting(self, listener: Listener) -> bool {
        self.state_of(listener) == ListenerState::Accepting
    }

    /// Whether shutdown has begun for some listener.
    pub open spec fn shutting_down(self) -> bool {
        self.http == ListenerState::Draining || self.http == ListenerState::Exited || self.grpc
            == ListenerState::Draining || self.grpc == ListenerState::Exited
    }

    /// The invariant: shutdown is never partial. Once one listener drains or
    /// is gone, the other one drains or is gone too.
    pub open spec fn wf(self) -> bool {
        self.shutting_down() ==> {
            &&& self.http == ListenerState::Draining || self.http == ListenerState::Exited
            &&& self.grpc == ListenerState::Draining || self.grpc == ListenerState::Exited
        }
    }

    /// Where the process stands: stopped when both listeners are gone,
    /// stopping while shutdown is under way, running when both accept, and
    /// starting before that.
    pub open spec fn spec_phase(self) -> Phase {
        if self.http == ListenerState::Exited && self.grpc == ListenerState::Exited {
            Phase::Stopped
        } else if self.shutting_down() {
            Phase::Stopping
        } else if self.http == ListenerState::Accepting && self.grpc == ListenerState::Accepting {
            Phase::Running
        } else {
            Phase::Starting
        }
    }

    /// The state with one listener's state replaced.
    pub open spec fn with(self, listener: Listener, state: ListenerState) -> Supervisor {
        match listener {
            Listener::Http => Supervisor { http: state, ..self },
            Listener::Grpc => Supervisor { grpc: state, ..self },
        }
    }

    /// The state with both listeners told to stop.
    pub open spec fn stop_all(self) -> Supervisor {
        Supervisor { http: stopped(self.http), grpc: stopped(self.grpc), ..self }
    }

    /// The state that follows `event`.
    ///
    /// A listener that binds starts to accept. A failure to bind is fatal:
    /// the listener is gone, the run has failed, and the other listener is
    /// stopped. A cancellation stops both. A listener that ends is gone, the
    /// run has failed if it ended with an error, and the other listener is
    /// stopped. The end of the grace period abandons whatever still drains.
    /// A report that does not fit the listener's state, and any report after
    /// the process has stopped, changes nothing.
    pub open spec fn next(self, event: Event) -> Supervisor {
        match event {
            Event::Bound(listener) => if self.state_of(listener) == ListenerState::Binding {
                self.with(listener, ListenerState::Accepting)
            } else {
                self
            },
            Event::BindFailed(listener) => if self.state_of(listener) == ListenerState::Binding {
                Supervisor { failed: true, ..self.with(listener, ListenerState::Exited).stop_all() }
            } else {
                self
            },
            Event::Cancelled => if self.spec_phase() == Phase::Stopped {
                self
            } else {
                self.stop_all()
            },
            Event::Exited { listener, clean } => if self.state_of(listener)
                == ListenerState::Accepting || self.state_of(listener) == ListenerState::Draining {
                Supervisor {
                    failed: self.failed || !clean,
                    ..self.with(listener, ListenerState::Exited).stop_all()
                }
            } else {
                self
            },
            Event::GraceElapsed => if self.spec_phase() == Phase::Stopping {
                Supervisor { http: abandoned(self.http), grpc: abandoned(self.grpc), ..self }
            } else {
                self
            },
        }
    }

    /// The stop signals that `event` calls for: one for each listener that
    /// accepted before the event and drains after it.
    pub open spec fn commands_for(self, event: Event) -> Commands {
        Commands {
            stop_http: self.http == ListenerState::Accepting && self.next(event).http
                == ListenerState::Draining,
            stop_grpc: self.grpc == ListenerState::Accepting && self.next(event).grpc
                == ListenerState::Draining,
        }
    }

    /// The supervisor of a process that has not bound anything yet.
    pub fn new() -> (supervisor: Supervisor)
        ensures
            supervisor == (Supervisor {
                http: ListenerState::Binding,
                grpc: ListenerState::Binding,
                failed: false,
            }),
            supervisor.wf(),
            supervisor.spec_phase() == Phase::Starting,
    {
        Supervisor { http: ListenerState::Binding, grpc: ListenerState::Binding, failed: false }
    }

    /// Where the process stands.
    #[verifier::when_used_as_spec(spec_phase)]
    pub fn phase(self) -> (phase: Phase)
        ensures
            phase == self.spec_phase(),
    {
        let http_down = matches!(self.http, ListenerState::Draining | ListenerState::Exited);
        let grpc_down = matches!(self.grpc, ListenerState::Draining | ListenerState::Exited);
        if matches!(self.http, ListenerState::Exited) && matches!(self.grpc, ListenerState::Exited) {
            Phase::Stopped
        } else if http_down || grpc_down {
            Phase::Stopping
        } else if matches!(self.http, ListenerState::Accepting) && matches!(
            self.grpc,
            ListenerState::Accepting
        ) {
            Phase::Running
        } else {
            Phase::Starting
        }
    }

    /// Whether the state satisfies the invariant.
    pub fn is_wf(self) -> (holds: bool)
        ensures
            holds == self.wf(),
    {
        let http_down = matches!(self.http, ListenerState::Draining | ListenerState::Exited);
        let grpc_down = matches!(self.grpc, ListenerState::Draining | ListenerState::Exited);
        !(http_down || grpc_down) || (http_down && grpc_down)
    }

    /// Whether the run, once stopped, counts as failed: a listener could not
    /// bind or ended with an error, even if the other one stopped cleanly.
    pub fn has_failed(self) -> (failed: bool)
        ensures
            failed == self.failed,
    {
        self.failed
    }

    /// Takes in one report from the driver, moves to the state that follows
    /// it, and returns the stop signals the driver has to send now.
    pub fn handle(&mut self, event: Event) -> (commands: Commands)
        requires
            old(self).wf(),
        ensures
            final(self).wf(),
            *final(self) == old(self).next(event),
            commands == old(self).commands_for(event),
    {
        let before = *self;
        match event {
            Event::Bound(listener) => {
                if matches!(before.get(listener), ListenerState::Binding) {
                    self.set(listener, ListenerState::Accepting);
                }
            },
            Event::BindFailed(listener) => {
                if matches!(before.get(listener), ListenerState::Binding) {
                    self.set(listener, ListenerState::Exited);
                    self.stop_both();
                    self.failed = true;
                }
            },
            Event::Cancelled => {
                if !matches!(before.phase(), Phase::Stopped) {
                    self.stop_both();
                }
            },
            Event::Exited { listener, clean } => {
                if matches!(
                    before.get(listener),
                    ListenerState::Accepting | ListenerState::Draining
                ) {
                    self.set(listener, ListenerState::Exited);
                    self.stop_both();
                    self.failed = before.failed || !clean;
                }
            },
            Event::GraceElapsed => {
                if matches!(before.phase(), Phase::Stopping) {
                    if matches!(self.http, ListenerState::Draining) {
                        self.http = ListenerState::Exited;
                    }
                    if matches!(self.grpc, ListenerState::Draining) {
                        self.grpc = ListenerState::Exited;
                    }
                }
            },
        }
        Commands {
            stop_http: matches!(before.http, ListenerState::Accepting) && matches!(
                self.http,
                ListenerState::Draining
            ),
            stop_grpc: matches!(before.grpc, ListenerState::Accepting) && matches!(
                self.grpc,
                ListenerState::Draining
            ),
        }
    }

    /// The state of one listener.
    fn get(self, listener: Listener) -> (state: ListenerState)
        ensures
            state == self.state_of(listener),
    {
        match listener {
            Listener::Http => self.http,
            Listener::Grpc => self.grpc,
        }
    }

    /// Replaces the state of one listener.
    fn set(&mut self, listener: Listener, state: ListenerState)
        ensures
            *final(self) == old(self).with(listener, state),
    {
        match listener {
            Listener::Http => { self.http = state; },
            Listener::Grpc => { self.grpc = state; },
        }
    }

    /// Tells both listeners to stop.
    fn stop_both(&mut self)
        ensures
            *final(self) == old(self).stop_all(),
    {
        self.http = match self.http {
            ListenerState::Binding => ListenerState::Exited,
            ListenerState::Accepting => ListenerState::Draining,
            other => other,
        };
        self.grpc = match self.grpc {
            ListenerState::Binding => ListenerState::Exited,
            ListenerState::Accepting => ListenerState::Draining,
            other => other,
        };
    }
}

/// How far a phase is along the way from starting to stopped.
pub open spec fn rank(phase: Phase) -> int {
    match phase {
        Phase::Starting => 0,
        Phase::Running => 1,
        Phase::Stopping => 2,
        Phase::Stopped => 3,
    }
}

/// The process never goes back: whatever is reported, the phase stays or
/// advances, and once stopped nothing changes any more.
pub proof fn lemma_phase_only_advances(state: Supervisor, event: Event)
    requires
        state.wf(),
    ensures
        state.next(event).wf(),
        rank(state.spec_phase()) <= rank(state.next(event).spec_phase()),
        state.spec_phase() == Phase::Stopped ==> state.next(event) == state,
        state.failed ==> state.next(event).failed,
{
}

/// Outside the start-up, the two listeners accept together or not at all:
/// the process is never left with exactly one of them accepting. While it
/// runs both accept; while it stops and once it has stopped neither does.
pub proof fn lemma_never_half_up(state: Supervisor)
    requires
        state.wf(),
    ensures
        state.spec_phase() == Phase::Running ==> state.accepting(Listener::Http)
            && state.accepting(Listener::Grpc),
        state.spec_phase() == Phase::Stopping || state.spec_phase() == Phase::Stopped
            ==> !state.accepting(Listener::Http) && !state.accepting(Listener::Grpc),
        state.spec_phase() != Phase::Starting ==> (state.accepting(Listener::Http)
            <==> state.accepting(Listener::Grpc)),
{
}

/// A cancellation takes effect at once: after it no listener accepts, every
/// listener that accepted is sent its stop signal, and no later report makes
/// a listener accept again.
pub proof fn lemma_cancellation_stops_accepting(state: Supervisor, later: Event)
    requires
        state.wf(),
    ensures
        !state.next(Event::Cancelled).accepting(Listener::Http),
        !state.next(Event::Cancelled).accepting(Listener::Grpc),
        state.accepting(Listener::Http) ==> state.commands_for(Event::Cancelled).stop_http,
        state.accepting(Listener::Grpc) ==> state.commands_for(Event::Cancelled).stop_grpc,
        !state.next(Event::Cancelled).next(later).accepting(Listener::Http),
        !state.next(Event::Cancelled).next(later).accepting(Listener::Grpc),
{
}

/// When a listener ends while the process runs, the other one is stopped as
/// well, and the run counts as failed exactly when the listener ended with an
/// error.
pub proof fn lemma_unexpected_exit_stops_sibling(state: Supervisor, listener: Listener, clean: bool)
    requires
        state.wf(),
        state.spec_phase() == Phase::Running,
        !state.failed,
    ensures
        state.next(Event::Exited { listener, clean }).spec_phase() == Phase::Stopping,
        state.next(Event::Exited { listener, clean }).failed == !clean,
        state.commands_for(Event::Exited { listener, clean }) == (Commands {
            stop_http: listener == Listener::Grpc,
            stop_grpc: listener == Listener::Http,
        }),
{
}

} // verus!
