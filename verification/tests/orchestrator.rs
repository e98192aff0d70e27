use spotty::event::PlayerEvent;
use spotty::notifier::LMS;
use spotty::orchestrator::Config;
use spotty::orchestrator::Credentials;
use spotty::orchestrator::Event;
use spotty::orchestrator::Orchestrator;
use spotty::orchestrator::Outcome;
use spotty::orchestrator::Step;

fn no_lms() -> LMS {
    LMS::new(None, None, None)
}

fn lms() -> LMS {
    LMS::new(
        Some("localhost:9000".to_string()),
        Some("aa:bb:cc:dd:ee:ff".to_string()),
        None,
    )
}

fn assert_no_action(step: &Step) {
    assert!(!step.shutdown_request);
    assert!(!step.detach_task);
    assert!(step.connect.is_none());
    assert!(!step.spawn_task);
    assert!(step.notify.is_none());
    assert!(!step.suppressed);
    assert!(step.outcome.is_none());
}

#[test]
fn discovery_preempts_live_session() {
    let config = Config { authenticate: false, enable_discovery: true };
    let (mut orch, step) = Orchestrator::new(config, no_lms(), None);
    assert_no_action(&step);

    let c1 = Credentials { token: 1 };
    let step = orch.handle_event(&Event::Discovered { credentials: c1 }, 10);
    assert!(!step.shutdown_request);
    assert!(!step.detach_task);
    assert_eq!(step.connect, Some(c1));

    let step = orch.handle_event(&Event::ConnectReady, 11);
    assert!(step.spawn_task);
    assert!(step.outcome.is_none());

    // A second discovery while a protocol task is live: the old pair is
    // asked to shut down and detached before the new connect begins.
    let c2 = Credentials { token: 2 };
    let step = orch.handle_event(&Event::Discovered { credentials: c2 }, 12);
    assert!(step.shutdown_request);
    assert!(step.detach_task);
    assert_eq!(step.connect, Some(c2));
    assert!(step.outcome.is_none());
}

#[test]
fn two_signals_always_terminate() {
    let config = Config { authenticate: false, enable_discovery: true };
    let (mut orch, _) = Orchestrator::new(
        config,
        no_lms(),
        Some(Credentials { token: 9 }),
    );
    let step = orch.handle_event(&Event::ConnectReady, 1);
    assert!(step.spawn_task);

    // First signal with a live task: cooperative shutdown request, not yet
    // terminated.
    let step = orch.handle_event(&Event::Signal, 2);
    assert!(step.shutdown_request);
    assert!(step.outcome.is_none());
    assert!(orch.outcome().is_none());

    // Second signal, even though the task never completed: terminate.
    let step = orch.handle_event(&Event::Signal, 3);
    assert_eq!(step.outcome, Some(Outcome::Clean));
    assert_eq!(orch.outcome(), Some(Outcome::Clean));

    // After termination every further event is a no-op.
    let step = orch.handle_event(&Event::TaskCompleted, 4);
    assert_no_action(&step);
    let step = orch.handle_event(
        &Event::Discovered { credentials: Credentials { token: 5 } },
        5,
    );
    assert_no_action(&step);
}

#[test]
fn signal_without_live_task_terminates_at_once() {
    let config = Config { authenticate: false, enable_discovery: true };
    let (mut orch, _) = Orchestrator::new(config, no_lms(), None);
    let step = orch.handle_event(&Event::Signal, 1);
    assert_eq!(step.outcome, Some(Outcome::Clean));
}

#[test]
fn task_completion_while_shutting_down_is_clean() {
    let config = Config { authenticate: false, enable_discovery: true };
    let (mut orch, _) = Orchestrator::new(
        config,
        no_lms(),
        Some(Credentials { token: 9 }),
    );
    orch.handle_event(&Event::ConnectReady, 1);
    let step = orch.handle_event(&Event::Signal, 2);
    assert!(step.shutdown_request);
    let step = orch.handle_event(&Event::TaskCompleted, 3);
    assert_eq!(step.outcome, Some(Outcome::Clean));
    assert!(step.connect.is_none());
}

#[test]
fn authenticate_only_never_spawns_or_notifies() {
    let config = Config { authenticate: true, enable_discovery: false };
    let (mut orch, step) = Orchestrator::new(
        config,
        lms(),
        Some(Credentials { token: 3 }),
    );
    assert_eq!(step.connect, Some(Credentials { token: 3 }));

    // A playback event before the connect resolves produces no
    // notification: no channel is held in authenticate-only mode.
    let step = orch.handle_event(
        &Event::Playback { event: PlayerEvent::Started { track_id: "abc".to_string() } },
        1,
    );
    assert!(step.notify.is_none());

    // Credentials validated: report success, never spawn a protocol task.
    let step = orch.handle_event(&Event::ConnectReady, 2);
    assert!(!step.spawn_task);
    assert!(step.notify.is_none());
    assert_eq!(step.outcome, Some(Outcome::Clean));

    // Terminated: nothing further happens.
    let step = orch.handle_event(
        &Event::Playback { event: PlayerEvent::Started { track_id: "abc".to_string() } },
        3,
    );
    assert_no_action(&step);
}

#[test]
fn unexpected_drop_without_credentials_is_fatal() {
    let config = Config { authenticate: false, enable_discovery: false };
    let (mut orch, _) = Orchestrator::new(config, no_lms(), None);
    let step = orch.handle_event(&Event::TaskCompleted, 1);
    assert_eq!(step.outcome, Some(Outcome::Fatal));
    assert!(step.connect.is_none());
    assert!(!step.suppressed);
    assert_eq!(orch.outcome(), Some(Outcome::Fatal));
}

#[test]
fn six_drops_in_a_minute_give_five_reconnects() {
    let config = Config { authenticate: false, enable_discovery: true };
    let creds = Credentials { token: 42 };
    let (mut orch, step) = Orchestrator::new(config, no_lms(), Some(creds));
    assert_eq!(step.connect, Some(creds));

    let mut reconnects = 0;
    let mut suppressed = 0;
    for i in 0..6u64 {
        let t = 10 * (i + 1);
        let step = orch.handle_event(&Event::ConnectReady, t);
        if i == 0 {
            assert!(step.spawn_task);
        }
        let step = orch.handle_event(&Event::TaskCompleted, t + 1);
        assert!(step.outcome.is_none());
        if step.connect.is_some() {
            assert_eq!(step.connect, Some(creds));
            reconnects += 1;
        }
        if step.suppressed {
            suppressed += 1;
        }
    }
    assert_eq!(reconnects, 5);
    assert_eq!(suppressed, 1);
    // The device stays disconnected but the orchestrator keeps running.
    assert!(orch.outcome().is_none());
}

#[test]
fn discovery_resets_the_reconnect_budget() {
    let config = Config { authenticate: false, enable_discovery: true };
    let creds = Credentials { token: 42 };
    let (mut orch, _) = Orchestrator::new(config, no_lms(), Some(creds));
    for i in 0..6u64 {
        orch.handle_event(&Event::ConnectReady, 10 * (i + 1));
        orch.handle_event(&Event::TaskCompleted, 10 * (i + 1) + 1);
    }
    // The budget is exhausted: another drop is suppressed.
    let step = orch.handle_event(&Event::ConnectReady, 70);
    assert!(!step.spawn_task); // no connect was admitted, none is in flight
    let step = orch.handle_event(&Event::TaskCompleted, 71);
    assert!(step.suppressed);

    // Discovery resets the window regardless of the current count.
    let fresh = Credentials { token: 43 };
    let step = orch.handle_event(&Event::Discovered { credentials: fresh }, 72);
    assert_eq!(step.connect, Some(fresh));
    orch.handle_event(&Event::ConnectReady, 73);
    let step = orch.handle_event(&Event::TaskCompleted, 74);
    assert_eq!(step.connect, Some(fresh));
    assert!(!step.suppressed);
}

#[test]
fn playback_events_are_forwarded_once_connected() {
    let config = Config { authenticate: false, enable_discovery: true };
    let (mut orch, _) = Orchestrator::new(
        config,
        lms(),
        Some(Credentials { token: 7 }),
    );
    orch.handle_event(&Event::ConnectReady, 1);
    let step = orch.handle_event(
        &Event::Playback { event: PlayerEvent::Started { track_id: "abc".to_string() } },
        2,
    );
    let req = step.notify.unwrap();
    assert_eq!(req.url, "http://localhost:9000/jsonrpc.js");
    assert_eq!(
        req.body,
        "{\"id\": 1,\"method\":\"slim.request\",\"params\":[\"aa:bb:cc:dd:ee:ff\",[\"spottyconnect\",\"start\",\"abc\"]]}"
    );
}

#[test]
fn playback_events_with_unconfigured_notifier_are_silent() {
    let config = Config { authenticate: false, enable_discovery: true };
    let (mut orch, _) = Orchestrator::new(
        config,
        no_lms(),
        Some(Credentials { token: 7 }),
    );
    orch.handle_event(&Event::ConnectReady, 1);
    let step = orch.handle_event(
        &Event::Playback { event: PlayerEvent::Started { track_id: "abc".to_string() } },
        2,
    );
    assert!(step.notify.is_none());
}
