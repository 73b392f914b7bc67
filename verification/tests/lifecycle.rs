use blog_core::lifecycle::{Commands, Event, Listener, ListenerState, Phase, Supervisor};

const NOTHING: Commands = Commands { stop_http: false, stop_grpc: false };
const STOP_BOTH: Commands = Commands { stop_http: true, stop_grpc: true };

fn running() -> Supervisor {
    let mut supervisor = Supervisor::new();
    supervisor.handle(Event::Bound(Listener::Http));
    supervisor.handle(Event::Bound(Listener::Grpc));
    supervisor
}

#[test]
fn process_runs_once_both_listeners_are_bound() {
    let mut supervisor = Supervisor::new();
    assert_eq!(supervisor.phase(), Phase::Starting);
    assert_eq!(supervisor.handle(Event::Bound(Listener::Grpc)), NOTHING);
    assert_eq!(supervisor.phase(), Phase::Starting);
    assert_eq!(supervisor.handle(Event::Bound(Listener::Http)), NOTHING);
    assert_eq!(supervisor.phase(), Phase::Running);
    assert_eq!(supervisor.http, ListenerState::Accepting);
    assert_eq!(supervisor.grpc, ListenerState::Accepting);
    assert!(!supervisor.has_failed());
}

#[test]
fn cancellation_stops_both_listeners_at_once() {
    let mut supervisor = running();
    assert_eq!(supervisor.handle(Event::Cancelled), STOP_BOTH);
    assert_eq!(supervisor.phase(), Phase::Stopping);
    assert_eq!(supervisor.http, ListenerState::Draining);
    assert_eq!(supervisor.grpc, ListenerState::Draining);
    assert_eq!(supervisor.handle(Event::Bound(Listener::Http)), NOTHING);
    assert_eq!(supervisor.http, ListenerState::Draining);
    assert_eq!(supervisor.handle(Event::Cancelled), NOTHING);
    assert_eq!(supervisor.phase(), Phase::Stopping);
}

#[test]
fn process_stops_only_after_both_listeners_have_drained() {
    let mut supervisor = running();
    supervisor.handle(Event::Cancelled);
    assert_eq!(
        supervisor.handle(Event::Exited { listener: Listener::Http, clean: true }),
        NOTHING
    );
    assert_eq!(supervisor.phase(), Phase::Stopping);
    assert_eq!(supervisor.grpc, ListenerState::Draining);
    assert_eq!(
        supervisor.handle(Event::Exited { listener: Listener::Grpc, clean: true }),
        NOTHING
    );
    assert_eq!(supervisor.phase(), Phase::Stopped);
    assert!(!supervisor.has_failed());
}

#[test]
fn grace_period_abandons_what_still_drains() {
    let mut supervisor = running();
    supervisor.handle(Event::Cancelled);
    supervisor.handle(Event::Exited { listener: Listener::Grpc, clean: true });
    assert_eq!(supervisor.phase(), Phase::Stopping);
    assert_eq!(supervisor.handle(Event::GraceElapsed), NOTHING);
    assert_eq!(supervisor.phase(), Phase::Stopped);
    assert_eq!(supervisor.http, ListenerState::Exited);
    assert!(!supervisor.has_failed());
}

#[test]
fn grace_period_means_nothing_while_running() {
    let mut supervisor = running();
    assert_eq!(supervisor.handle(Event::GraceElapsed), NOTHING);
    assert_eq!(supervisor, running());
}

#[test]
fn listener_that_ends_takes_its_sibling_down() {
    let mut supervisor = running();
    let commands = supervisor.handle(Event::Exited { listener: Listener::Grpc, clean: false });
    assert_eq!(commands, Commands { stop_http: true, stop_grpc: false });
    assert_eq!(supervisor.phase(), Phase::Stopping);
    assert_eq!(supervisor.http, ListenerState::Draining);
    assert_eq!(supervisor.grpc, ListenerState::Exited);
    supervisor.handle(Event::Exited { listener: Listener::Http, clean: true });
    assert_eq!(supervisor.phase(), Phase::Stopped);
    assert!(supervisor.has_failed());
}

#[test]
fn clean_unexpected_exit_is_no_failure() {
    let mut supervisor = running();
    let commands = supervisor.handle(Event::Exited { listener: Listener::Http, clean: true });
    assert_eq!(commands, Commands { stop_http: false, stop_grpc: true });
    supervisor.handle(Event::Exited { listener: Listener::Grpc, clean: true });
    assert_eq!(supervisor.phase(), Phase::Stopped);
    assert!(!supervisor.has_failed());
}

#[test]
fn failing_to_bind_aborts_the_start() {
    let mut supervisor = Supervisor::new();
    supervisor.handle(Event::Bound(Listener::Http));
    let commands = supervisor.handle(Event::BindFailed(Listener::Grpc));
    assert_eq!(commands, Commands { stop_http: true, stop_grpc: false });
    assert_eq!(supervisor.phase(), Phase::Stopping);
    assert!(supervisor.has_failed());
    supervisor.handle(Event::Exited { listener: Listener::Http, clean: true });
    assert_eq!(supervisor.phase(), Phase::Stopped);
    assert!(supervisor.has_failed());
}

#[test]
fn failing_to_bind_first_stops_everything() {
    let mut supervisor = Supervisor::new();
    assert_eq!(supervisor.handle(Event::BindFailed(Listener::Http)), NOTHING);
    assert_eq!(supervisor.phase(), Phase::Stopped);
    assert!(supervisor.has_failed());
    assert_eq!(supervisor.handle(Event::Bound(Listener::Grpc)), NOTHING);
    assert_eq!(supervisor.grpc, ListenerState::Exited);
}

#[test]
fn cancellation_during_start_leaves_nothing_accepting() {
    let mut supervisor = Supervisor::new();
    supervisor.handle(Event::Bound(Listener::Http));
    let commands = supervisor.handle(Event::Cancelled);
    assert_eq!(commands, Commands { stop_http: true, stop_grpc: false });
    assert_eq!(supervisor.http, ListenerState::Draining);
    assert_eq!(supervisor.grpc, ListenerState::Exited);
    assert_eq!(supervisor.phase(), Phase::Stopping);
}

#[test]
fn stopped_is_final() {
    let mut supervisor = running();
    supervisor.handle(Event::Cancelled);
    supervisor.handle(Event::GraceElapsed);
    let stopped = supervisor;
    assert_eq!(stopped.phase(), Phase::Stopped);
    for event in [
        Event::Bound(Listener::Http),
        Event::BindFailed(Listener::Grpc),
        Event::Cancelled,
        Event::Exited { listener: Listener::Http, clean: false },
        Event::GraceElapsed,
    ] {
        assert_eq!(supervisor.handle(event), NOTHING);
        assert_eq!(supervisor, stopped);
    }
}
