//! Connection life-cycle orchestrator.
//!
//! The orchestrator owns the device's connection state end-to-end: it reacts
//! to discovery events that hand it fresh credentials, to completion of the
//! pending session connect, to the operator's shutdown signal, to completion
//! of the supervised protocol task, and to playback events, and it decides
//! which actions the surrounding cooperative event loop must perform. The
//! loop itself — polling the five sources in the fixed order discovery,
//! connect, signal, task completion, playback — lives outside the library;
//! every decision is taken here, by [`Orchestrator::handle_event`], whose
//! behaviour is pinned down by the transition function [`next`] and the
//! action function [`step_of`].

use vstd::prelude::*;

use crate::event::PlayerEvent;
use crate::notifier::LMS;
use crate::notifier::LmsView;
use crate::notifier::NotifyRequest;
use crate::notifier::RequestView;
use crate::notifier::spec_notify;
use crate::policy::PolicyView;
use crate::policy::ReconnectPolicy;
use crate::policy::allows;
use crate::policy::cleared;
use crate::policy::lemma_cleared_wf;
use crate::policy::lemma_prune_wf;
use crate::policy::lemma_record_wf;
use crate::policy::policy_wf;
use crate::policy::pruned;
use crate::policy::recorded;

verus! {

/// Opaque bearer credentials handed over by discovery or by the initial
/// configuration. The orchestrator never interprets them; it only passes
/// them to the session-connect operation and retains the most recent ones
/// for automatic reconnection. The token stands for the credential blob.
#[derive(Clone, Copy, Debug, PartialEq, Eq, Structural)]
pub struct Credentials {
    pub token: u64,
}

/// Connect-behaviour flags of the externally validated configuration.
#[derive(Clone, Copy, Debug, PartialEq, Eq, Structural)]
pub struct Config {
    /// Validate credentials once, report success and exit: never spawn a
    /// protocol task.
    pub authenticate: bool,
    /// Whether the surrounding loop runs a discovery source at all. The
    /// orchestrator itself never reads it; it is carried for the loop.
    pub enable_discovery: bool,
}

/// Terminal report of the orchestrator, made exactly once.
#[derive(Clone, Copy, Debug, PartialEq, Eq, Structural)]
pub enum Outcome {
    /// Orderly shutdown, or credentials validated in authenticate-only
    /// mode: the process should exit successfully.
    Clean,
    /// The protocol task ended unexpectedly and no reconnect is possible:
    /// the process should treat this as fatal and exit non-zero.
    Fatal,
}

/// One input to the orchestrator, drawn from the five event sources that
/// the surrounding loop multiplexes.
pub enum Event {
    /// Discovery handed over fresh credentials: a remote controller claimed
    /// the device.
    Discovered { credentials: Credentials },
    /// The pending session-connect operation succeeded.
    ConnectReady,
    /// The operator requested termination (an interrupt).
    Signal,
    /// The supervised protocol task completed, voluntarily or not.
    TaskCompleted,
    /// The protocol task reported a playback state change.
    Playback { event: PlayerEvent },
}

/// The actions the surrounding loop must perform after one event, applied
/// in field order.
pub struct Step {
    /// Ask the live protocol task, through its control handle, to shut
    /// down. Cooperative: the task is never force-terminated.
    pub shutdown_request: bool,
    /// Let the superseded task handle run out detached; its completion is
    /// no longer supervised.
    pub detach_task: bool,
    /// Begin a session connect with these credentials.
    pub connect: Option<Credentials>,
    /// Spawn the protocol task bound to the just-established session and
    /// start receiving its playback events.
    pub spawn_task: bool,
    /// Dispatch this notification fire-and-forget; errors are discarded.
    pub notify: Option<NotifyRequest>,
    /// An automatic reconnect was suppressed by the rate limiter: warn and
    /// stay disconnected until the next discovery event.
    pub suppressed: bool,
    /// Report this terminal outcome; the loop ends.
    pub outcome: Option<Outcome>,
}

/// Abstract content of a [`Step`].
#[verifier::ext_equal]
pub ghost struct StepView {
    pub shutdown_request: bool,
    pub detach_task: bool,
    pub connect: Option<Credentials>,
    pub spawn_task: bool,
    pub notify: Option<RequestView>,
    pub suppressed: bool,
    pub outcome: Option<Outcome>,
}

/// The abstract content of an optional notification request.
pub open spec fn opt_req_view(o: Option<NotifyRequest>) -> Option<RequestView> {
    match o {
        Some(r) => Some(r@),
        None => None,
    }
}

impl View for Step {
    type V = StepView;

    closed spec fn view(&self) -> StepView {
        StepView {
            shutdown_request: self.shutdown_request,
            detach_task: self.detach_task,
            connect: self.connect,
            spawn_task: self.spawn_task,
            notify: opt_req_view(self.notify),
            suppressed: self.suppressed,
            outcome: self.outcome,
        }
    }
}

/// The step that performs no action at all.
pub open spec fn empty_step() -> StepView {
    StepView {
        shutdown_request: false,
        detach_task: false,
        connect: None,
        spawn_task: false,
        notify: None,
        suppressed: false,
        outcome: None,
    }
}

/// Abstract state of the orchestrator.
#[verifier::ext_equal]
pub ghost struct OrchView {
    /// Authenticate-only mode.
    pub authenticate: bool,
    /// Discovery source present in the surrounding loop.
    pub enable_discovery: bool,
    /// A shutdown was requested and the orchestrator awaits the protocol
    /// task's exit.
    pub shutting_down: bool,
    /// A session-connect operation is in flight.
    pub connecting: bool,
    /// A control handle to a live protocol task is held.
    pub has_control: bool,
    /// A live protocol task handle is owned and supervised.
    pub has_task: bool,
    /// A playback-event channel is held.
    pub has_channel: bool,
    /// The most recent credentials handed to a connect, kept solely for
    /// automatic reconnection.
    pub last_credentials: Option<Credentials>,
    /// The reconnect rate limiter.
    pub policy: PolicyView,
    /// The terminal outcome, once reported.
    pub done: Option<Outcome>,
    /// The notifier configuration.
    pub lms: LmsView,
}

/// Well-formedness of an orchestrator state:
/// - the rate limiter is well formed (so its window bound holds);
/// - authenticate-only mode never holds a control handle, a task or a
///   playback channel;
/// - while a connect is in flight no control handle or task is held, so a
///   successful connect never overwrites (and thereby leaks) a live pair.
pub open spec fn orch_wf(v: OrchView) -> bool {
    &&& policy_wf(v.policy)
    &&& (v.authenticate ==> !v.has_control && !v.has_task && !v.has_channel)
    &&& (v.connecting ==> !v.has_control && !v.has_task)
}

/// State change common to every new connect: the credentials are retained
/// for automatic reconnection, the connect is in flight, and any previous
/// control handle or supervised task handle is released.
pub open spec fn begin_connect(v: OrchView, c: Credentials) -> OrchView {
    OrchView {
        last_credentials: Some(c),
        connecting: true,
        has_control: false,
        has_task: false,
        ..v
    }
}

/// The orchestrator's transition function: the state after handling
/// `event` at time `now` (seconds on a monotone clock). After the terminal
/// outcome has been reported every event leaves the state unchanged.
pub open spec fn next(v: OrchView, event: Event, now: u64) -> OrchView {
    if v.done is Some {
        v
    } else {
        match event {
            Event::Discovered { credentials } => begin_connect(
                OrchView { policy: cleared(v.policy), ..v },
                credentials,
            ),
            Event::ConnectReady => {
                if !v.connecting {
                    v
                } else if v.authenticate {
                    if !v.shutting_down {
                        OrchView {
                            connecting: false,
                            shutting_down: true,
                            done: Some(Outcome::Clean),
                            ..v
                        }
                    } else {
                        OrchView { connecting: false, ..v }
                    }
                } else {
                    OrchView {
                        connecting: false,
                        has_control: true,
                        has_task: true,
                        has_channel: true,
                        ..v
                    }
                }
            },
            Event::Signal => {
                if !v.shutting_down && v.has_control {
                    OrchView { shutting_down: true, ..v }
                } else {
                    OrchView { done: Some(Outcome::Clean), ..v }
                }
            },
            Event::TaskCompleted => {
                if v.shutting_down {
                    OrchView { has_task: false, done: Some(Outcome::Clean), ..v }
                } else {
                    match v.last_credentials {
                        None => OrchView {
                            has_task: false,
                            policy: pruned(v.policy, now),
                            done: Some(Outcome::Fatal),
                            ..v
                        },
                        Some(c) => {
                            if allows(v.policy, now) {
                                begin_connect(
                                    OrchView {
                                        has_task: false,
                                        policy: recorded(v.policy, now),
                                        ..v
                                    },
                                    c,
                                )
                            } else {
                                OrchView {
                                    has_task: false,
                                    policy: pruned(v.policy, now),
                                    ..v
                                }
                            }
                        },
                    }
                }
            },
            Event::Playback { .. } => v,
        }
    }
}

/// The actions performed while handling `event` at time `now`.
pub open spec fn step_of(v: OrchView, event: Event, now: u64) -> StepView {
    if v.done is Some {
        empty_step()
    } else {
        match event {
            Event::Discovered { credentials } => StepView {
                shutdown_request: v.has_control,
                detach_task: v.has_task,
                connect: Some(credentials),
                ..empty_step()
            },
            Event::ConnectReady => {
                if !v.connecting {
                    empty_step()
                } else if v.authenticate {
                    if !v.shutting_down {
                        StepView {
                            shutdown_request: v.has_control,
                            outcome: Some(Outcome::Clean),
                            ..empty_step()
                        }
                    } else {
                        empty_step()
                    }
                } else {
                    StepView { spawn_task: true, ..empty_step() }
                }
            },
            Event::Signal => {
                if !v.shutting_down && v.has_control {
                    StepView { shutdown_request: true, ..empty_step() }
                } else {
                    StepView { outcome: Some(Outcome::Clean), ..empty_step() }
                }
            },
            Event::TaskCompleted => {
                if v.shutting_down {
                    StepView { outcome: Some(Outcome::Clean), ..empty_step() }
                } else {
                    match v.last_credentials {
                        None => StepView { outcome: Some(Outcome::Fatal), ..empty_step() },
                        Some(c) => {
                            if allows(v.policy, now) {
                                StepView { connect: Some(c), ..empty_step() }
                            } else {
                                StepView { suppressed: true, ..empty_step() }
                            }
                        },
                    }
                }
            },
            Event::Playback { event: e } => StepView {
                notify: if v.has_channel {
                    spec_notify(v.lms, e)
                } else {
                    None
                },
                ..empty_step()
            },
        }
    }
}

/// The top-level connection orchestrator: owns the notifier, the reconnect
/// rate limiter and the abstract handles of the current session, and drives
/// the whole life cycle from discovery to shutdown.
pub struct Orchestrator {
    authenticate: bool,
    enable_discovery: bool,
    shutting_down: bool,
    connecting: bool,
    has_control: bool,
    has_task: bool,
    has_channel: bool,
    last_credentials: Option<Credentials>,
    policy: ReconnectPolicy,
    done: Option<Outcome>,
    lms: LMS,
}

impl View for Orchestrator {
    type V = OrchView;

    closed spec fn view(&self) -> OrchView {
        OrchView {
            authenticate: self.authenticate,
            enable_discovery: self.enable_discovery,
            shutting_down: self.shutting_down,
            connecting: self.connecting,
            has_control: self.has_control,
            has_task: self.has_task,
            has_channel: self.has_channel,
            last_credentials: self.last_credentials,
            policy: self.policy@,
            done: self.done,
            lms: self.lms@,
        }
    }
}

/// A step that performs nothing.
fn no_step() -> (r: Step)
    ensures
        r@ =~= empty_step(),
{
    Step {
        shutdown_request: false,
        detach_task: false,
        connect: None,
        spawn_task: false,
        notify: None,
        suppressed: false,
        outcome: None,
    }
}

impl Orchestrator {
    pub open spec fn wf(&self) -> bool {
        orch_wf(self@)
    }

    /// Creates the orchestrator in its idle state. When the configuration
    /// supplies initial credentials the returned step already carries the
    /// first connect to begin.
    pub fn new(config: Config, lms: LMS, credentials: Option<Credentials>) -> (r: (
        Orchestrator,
        Step,
    ))
        ensures
            r.0.wf(),
            r.0@.authenticate == config.authenticate,
            r.0@.enable_discovery == config.enable_discovery,
            r.0@.shutting_down == false,
            r.0@.connecting == credentials.is_some(),
            r.0@.has_control == false,
            r.0@.has_task == false,
            r.0@.has_channel == false,
            r.0@.last_credentials == credentials,
            r.0@.policy.pending =~= Seq::<u64>::empty(),
            r.0@.policy.admitted =~= Seq::<u64>::empty(),
            r.0@.policy.clock == 0u64,
            r.0@.done is None,
            r.0@.lms =~= lms@,
            r.1@ =~= (StepView { connect: credentials, ..empty_step() }),
    {
        let orch = Orchestrator {
            authenticate: config.authenticate,
            enable_discovery: config.enable_discovery,
            shutting_down: false,
            connecting: credentials.is_some(),
            has_control: false,
            has_task: false,
            has_channel: false,
            last_credentials: credentials,
            policy: ReconnectPolicy::new(),
            done: None,
            lms,
        };
        let mut step = no_step();
        step.connect = credentials;
        (orch, step)
    }

    /// Whether the surrounding loop should run a discovery source.
    pub fn discovery_enabled(&self) -> (r: bool)
        ensures
            r == self@.enable_discovery,
    {
        self.enable_discovery
    }

    /// The terminal outcome, once reported.
    pub fn outcome(&self) -> (r: Option<Outcome>)
        ensures
            r == self@.done,
    {
        self.done
    }

    /// Handles one event at time `now` (seconds on a monotone clock: `now`
    /// never decreases between calls) and returns the actions the loop must
    /// perform, in field order. The new state is exactly
    /// [`next`]`(old state, event, now)` and the actions are exactly
    /// [`step_of`]`(old state, event, now)`.
    pub fn handle_event(&mut self, event: &Event, now: u64) -> (r: Step)
        requires
            old(self).wf(),
            old(self)@.policy.clock <= now,
        ensures
            final(self).wf(),
            final(self)@ =~= next(old(self)@, *event, now),
            r@ =~= step_of(old(self)@, *event, now),
    {
        if self.done.is_some() {
            return no_step();
        }
        match event {
            Event::Discovered { credentials } => {
                let mut step = no_step();
                step.shutdown_request = self.has_control;
                step.detach_task = self.has_task;
                step.connect = Some(*credentials);
                // A human-initiated takeover restores the reconnect budget
                // and preempts whatever connection state exists.
                self.policy.clear();
                self.last_credentials = Some(*credentials);
                self.connecting = true;
                self.has_control = false;
                self.has_task = false;
                step
            },
            Event::ConnectReady => {
                if !self.connecting {
                    no_step()
                } else if self.authenticate {
                    if !self.shutting_down {
                        // Credentials are validated; never start a protocol
                        // task, report success instead.
                        let mut step = no_step();
                        step.shutdown_request = self.has_control;
                        step.outcome = Some(Outcome::Clean);
                        self.connecting = false;
                        self.shutting_down = true;
                        self.done = Some(Outcome::Clean);
                        step
                    } else {
                        self.connecting = false;
                        no_step()
                    }
                } else {
                    let mut step = no_step();
                    step.spawn_task = true;
                    self.connecting = false;
                    self.has_control = true;
                    self.has_task = true;
                    self.has_channel = true;
                    step
                }
            },
            Event::Signal => {
                let mut step = no_step();
                if !self.shutting_down && self.has_control {
                    // First signal with a live task: ask it to stop and wait
                    // for its completion.
                    step.shutdown_request = true;
                    self.shutting_down = true;
                } else {
                    // No live task, or a repeated signal: terminate at once.
                    step.outcome = Some(Outcome::Clean);
                    self.done = Some(Outcome::Clean);
                }
                step
            },
            Event::TaskCompleted => {
                let mut step = no_step();
                if self.shutting_down {
                    // Expected completion after a shutdown request.
                    self.has_task = false;
                    step.outcome = Some(Outcome::Clean);
                    self.done = Some(Outcome::Clean);
                } else {
                    // Unexpected drop: consult the rate limiter.
                    self.has_task = false;
                    match self.last_credentials {
                        None => {
                            // No controller ever connected this device:
                            // unrecoverable.
                            self.policy.prune(now);
                            step.outcome = Some(Outcome::Fatal);
                            self.done = Some(Outcome::Fatal);
                        },
                        Some(c) => {
                            if self.policy.try_attempt(now) {
                                step.connect = Some(c);
                                self.last_credentials = Some(c);
                                self.connecting = true;
                                self.has_control = false;
                                self.has_task = false;
                            } else {
                                step.suppressed = true;
                            }
                        },
                    }
                }
                step
            },
            Event::Playback { event: pe } => {
                let mut step = no_step();
                if self.has_channel {
                    step.notify = self.lms.signal_event(pe);
                }
                step
            },
        }
    }
}

/// LAW: every transition preserves well-formedness, so every reachable
/// orchestrator state is well formed; in particular the rate limiter's
/// window bound holds in every reachable state, and at most one live
/// session / protocol-task pair is ever held.
pub proof fn lemma_next_preserves_wf(v: OrchView, event: Event, now: u64)
    requires
        orch_wf(v),
        v.policy.clock <= now,
    ensures
        orch_wf(next(v, event, now)),
{
    if v.done is None {
        match event {
            Event::Discovered { .. } => {
                lemma_cleared_wf(v.policy);
            },
            Event::TaskCompleted => {
                if !v.shutting_down {
                    match v.last_credentials {
                        None => {
                            lemma_prune_wf(v.policy, now);
                        },
                        Some(_) => {
                            if allows(v.policy, now) {
                                lemma_record_wf(v.policy, now);
                            } else {
                                lemma_prune_wf(v.policy, now);
                            }
                        },
                    }
                }
            },
            _ => {},
        }
    }
}

/// LAW: a discovery event always preempts the current connection state: the
/// step requests shutdown of the live protocol task exactly when one is
/// held, detaches the superseded task handle exactly when one is owned, and
/// only then begins the connect with the fresh credentials; afterwards no
/// previous control or task handle is retained and the reconnect budget is
/// fully reset.
pub proof fn lemma_discovery_preempts(v: OrchView, c: Credentials, now: u64)
    requires
        orch_wf(v),
        v.done is None,
    ensures
        ({
            let e = Event::Discovered { credentials: c };
            let s = step_of(v, e, now);
            let v2 = next(v, e, now);
            &&& s.connect == Some(c)
            &&& s.shutdown_request == v.has_control
            &&& s.detach_task == v.has_task
            &&& !v2.has_control
            &&& !v2.has_task
            &&& v2.connecting
            &&& v2.policy.pending =~= Seq::<u64>::empty()
            &&& v2.policy.admitted =~= Seq::<u64>::empty()
            &&& orch_wf(v2)
        }),
{
    lemma_cleared_wf(v.policy);
}

/// LAW: a protocol task is only ever spawned out of a connecting state,
/// which by well-formedness holds neither a control handle nor a task; the
/// orchestrator therefore never owns two live pairs at once.
pub proof fn lemma_single_live_pair(v: OrchView, event: Event, now: u64)
    requires
        orch_wf(v),
    ensures
        step_of(v, event, now).spawn_task ==> !v.has_control && !v.has_task,
{
}

/// LAW: receiving the shutdown signal twice always results in termination
/// no later than the second signal, even if the protocol task never
/// completes: the first signal either terminates at once or marks the
/// orchestrator shutting down, and a signal while shutting down terminates.
pub proof fn lemma_two_signals_terminate(v: OrchView, now1: u64, now2: u64)
    ensures
        next(next(v, Event::Signal, now1), Event::Signal, now2).done is Some,
{
}

/// LAW: the terminal outcome is reported exactly once: once it is set,
/// every further event leaves the state unchanged and produces no action —
/// no connect attempt, no discovery update, no notification.
pub proof fn lemma_terminal_state_is_final(v: OrchView, event: Event, now: u64)
    requires
        v.done is Some,
    ensures
        next(v, event, now) =~= v,
        step_of(v, event, now) =~= empty_step(),
{
}

/// LAW: in authenticate-only mode the orchestrator never spawns a protocol
/// task and never emits a playback notification, whatever events arrive;
/// the mode is preserved by every transition.
pub proof fn lemma_authenticate_only(v: OrchView, event: Event, now: u64)
    requires
        orch_wf(v),
        v.authenticate,
    ensures
        !step_of(v, event, now).spawn_task,
        step_of(v, event, now).notify is None,
        next(v, event, now).authenticate,
{
}

} // verus!

