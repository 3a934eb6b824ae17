//! The host runtime lifecycle: process bootstrap, UI-surface attachment, the
//! event loop, and shutdown, as an explicit state machine.
//!
//! The runtime handle is created once at process start and threaded through
//! to whatever needs it — there is no global mutable state. Outside work
//! (running the setup callback, attaching the embedded rendering surface,
//! pumping the platform event loop) happens beyond this crate; the handle is
//! fed the outcome of each piece of outside work as an event and answers
//! with the next action to perform. Every decision — which state follows
//! which event, when the process must exit and with what status, and how an
//! inbound request is answered — is made and proved here.
//!
//! Fatal startup failures (setup or attachment failing) are not recoverable:
//! the machine goes straight to `Terminated` with a non-zero exit status and
//! a diagnostic, and never reaches `Running`. Once the event loop runs,
//! invocation failures are recoverable and the loop continues; an orderly
//! shutdown releases the surface before the process exits with status 0.

use crate::bridge::Request;
use crate::bridge::Response;
use crate::bridge::response_view;
use crate::bridge::route;
use crate::bridge::spec_route;
use crate::errors::FatalStartupError;
use crate::handler::option_view;
use crate::registry::Registry;
use vstd::prelude::*;

verus! {

/// Where the runtime stands in its life.
#[derive(Debug, Clone, Copy, PartialEq, Eq, Structural)]
pub enum RuntimeState {
    /// The handle exists but nothing has started yet.
    Uninitialized,
    /// The one-time setup callback is running.
    Initializing,
    /// The UI surface is being created and attached.
    Attaching,
    /// The event loop is active; inbound requests are routed to the registry.
    Running,
    /// Shutdown was requested; the UI surface is being released.
    ShuttingDown,
    /// The runtime is finished; the process exits with the recorded status.
    Terminated,
}

/// The outcome of outside work, reported back to the runtime.
#[derive(Debug)]
pub enum RuntimeEvent {
    /// The process entry point asks the runtime to start.
    StartRequested,
    /// The one-time setup callback returned successfully.
    SetupSucceeded,
    /// The one-time setup callback failed with a diagnostic.
    SetupFailed {
        /// The callback's own failure report.
        message: String,
    },
    /// The UI surface was created and attached.
    AttachSucceeded,
    /// The UI surface could not be attached.
    AttachFailed {
        /// The platform's failure report.
        message: String,
    },
    /// The UI layer sent a request over the bridge.
    RequestArrived {
        /// The inbound request.
        request: Request,
    },
    /// The last window was closed, or shutdown was requested explicitly.
    ShutdownRequested,
    /// The UI surface has been released.
    SurfaceReleased,
}

/// What the runtime asks its surroundings to do next.
#[derive(Debug)]
pub enum RuntimeAction {
    /// Run the one-time setup callback and report its outcome.
    RunSetup,
    /// Create and attach the UI surface and report the outcome.
    AttachSurface,
    /// Start pumping the platform event loop.
    EnterEventLoop,
    /// Marshal this response back to the UI layer.
    Respond {
        /// The response to the request just routed.
        response: Response,
    },
    /// Release the UI surface and report when it is gone.
    ReleaseSurface,
    /// Exit the process with `code`; on a fatal startup failure, write the
    /// diagnostic to the error stream first.
    ExitProcess {
        /// The process exit status: 0 on orderly shutdown, non-zero on a
        /// fatal startup failure.
        code: u8,
        /// The unrecoverable failure that forced the exit, if any.
        fatal: Option<FatalStartupError>,
    },
    /// The event is not expected in the current state; nothing to do.
    Ignore,
}

/// Whether `e` is an event the state `s` is waiting for — the domain of the
/// transition table.
pub open spec fn spec_expected(s: RuntimeState, e: RuntimeEvent) -> bool {
    match (s, e) {
        (RuntimeState::Uninitialized, RuntimeEvent::StartRequested) => true,
        (RuntimeState::Initializing, RuntimeEvent::SetupSucceeded) => true,
        (RuntimeState::Initializing, RuntimeEvent::SetupFailed { .. }) => true,
        (RuntimeState::Attaching, RuntimeEvent::AttachSucceeded) => true,
        (RuntimeState::Attaching, RuntimeEvent::AttachFailed { .. }) => true,
        (RuntimeState::Running, RuntimeEvent::RequestArrived { .. }) => true,
        (RuntimeState::Running, RuntimeEvent::ShutdownRequested) => true,
        (RuntimeState::ShuttingDown, RuntimeEvent::SurfaceReleased) => true,
        _ => false,
    }
}

/// The state after `s` sees `e`. An event the state is not waiting for
/// changes nothing; in particular `Terminated` is final.
pub open spec fn spec_next(s: RuntimeState, e: RuntimeEvent) -> RuntimeState {
    match (s, e) {
        (RuntimeState::Uninitialized, RuntimeEvent::StartRequested) => RuntimeState::Initializing,
        (RuntimeState::Initializing, RuntimeEvent::SetupSucceeded) => RuntimeState::Attaching,
        (RuntimeState::Initializing, RuntimeEvent::SetupFailed { .. }) => RuntimeState::Terminated,
        (RuntimeState::Attaching, RuntimeEvent::AttachSucceeded) => RuntimeState::Running,
        (RuntimeState::Attaching, RuntimeEvent::AttachFailed { .. }) => RuntimeState::Terminated,
        (RuntimeState::Running, RuntimeEvent::RequestArrived { .. }) => RuntimeState::Running,
        (RuntimeState::Running, RuntimeEvent::ShutdownRequested) => RuntimeState::ShuttingDown,
        (RuntimeState::ShuttingDown, RuntimeEvent::SurfaceReleased) => RuntimeState::Terminated,
        _ => s,
    }
}

/// The recorded exit status after `s` sees `e`: 1 on a fatal startup
/// failure, 0 at the unconditional end of an orderly shutdown, otherwise
/// whatever it was.
pub open spec fn spec_exit_after(s: RuntimeState, e: RuntimeEvent, x: Option<u8>) -> Option<
    u8,
> {
    match (s, e) {
        (RuntimeState::Initializing, RuntimeEvent::SetupFailed { .. }) => Some(1u8),
        (RuntimeState::Attaching, RuntimeEvent::AttachFailed { .. }) => Some(1u8),
        (RuntimeState::ShuttingDown, RuntimeEvent::SurfaceReleased) => Some(0u8),
        _ => x,
    }
}

/// The running native process with its attached UI surface: the one handle
/// per process, created at startup and dropped exactly once when the event
/// loop exits.
pub struct Runtime {
    state: RuntimeState,
    registry: Registry,
    exit_code: Option<u8>,
}

impl Runtime {
    /// Where the runtime stands.
    pub closed spec fn spec_state(&self) -> RuntimeState {
        self.state
    }

    /// The registry the runtime consults; fully populated before the handle
    /// is created and read-only afterwards.
    pub closed spec fn spec_registry(&self) -> Registry {
        self.registry
    }

    /// The exit status recorded for the process, present exactly once the
    /// runtime has terminated.
    pub closed spec fn spec_exit_code(&self) -> Option<u8> {
        self.exit_code
    }

    /// Well-formedness: the registry has no duplicate names, and an exit
    /// status is recorded exactly in the terminal state.
    pub open spec fn wf(&self) -> bool {
        &&& self.spec_registry().wf()
        &&& (self.spec_exit_code() is Some <==> self.spec_state() is Terminated)
    }

    /// Creates the runtime handle around a fully populated registry. The
    /// handle starts uninitialized, with no exit status recorded.
    pub fn new(registry: Registry) -> (rt: Runtime)
        requires
            registry.wf(),
        ensures
            rt.wf(),
            rt.spec_state() == RuntimeState::Uninitialized,
            rt.spec_registry() == registry,
            rt.spec_exit_code() is None,
    {
        Runtime { state: RuntimeState::Uninitialized, registry, exit_code: None }
    }

    /// Where the runtime stands.
    pub fn state(&self) -> (s: RuntimeState)
        ensures
            s == self.spec_state(),
    {
        self.state
    }

    /// The recorded exit status, once the runtime has terminated.
    pub fn exit_code(&self) -> (x: Option<u8>)
        ensures
            x == self.spec_exit_code(),
    {
        self.exit_code
    }

    /// Feeds the runtime the outcome of one piece of outside work and
    /// returns the next action to perform.
    ///
    /// The state moves exactly as the transition table `spec_next` says; the
    /// registry is never touched; the exit status is recorded exactly as
    /// `spec_exit_after` says — non-zero with the diagnostic on a fatal
    /// startup failure, zero on orderly shutdown. A request is answered only
    /// while the event loop is running, and its response is exactly the
    /// routed one; an event the state is not waiting for is ignored.
    pub fn handle_event(&mut self, event: RuntimeEvent) -> (a: RuntimeAction)
        requires
            old(self).wf(),
        ensures
            final(self).wf(),
            final(self).spec_registry() == old(self).spec_registry(),
            final(self).spec_state() == spec_next(old(self).spec_state(), event),
            final(self).spec_exit_code() == spec_exit_after(
                old(self).spec_state(),
                event,
                old(self).spec_exit_code(),
            ),
            !spec_expected(old(self).spec_state(), event) ==> a is Ignore,
            a is Respond ==> old(self).spec_state() is Running,
            old(self).spec_state() is Uninitialized && event is StartRequested ==> a is RunSetup,
            old(self).spec_state() is Initializing && event is SetupSucceeded
                ==> a is AttachSurface,
            old(self).spec_state() is Initializing ==> (event matches RuntimeEvent::SetupFailed {
                message,
            } ==> ({
                &&& a matches RuntimeAction::ExitProcess { code, fatal }
                &&& code == 1u8
                &&& fatal matches Some(f)
                &&& f.message@ == message@
            })),
            old(self).spec_state() is Attaching && event is AttachSucceeded
                ==> a is EnterEventLoop,
            old(self).spec_state() is Attaching ==> (event matches RuntimeEvent::AttachFailed {
                message,
            } ==> ({
                &&& a matches RuntimeAction::ExitProcess { code, fatal }
                &&& code == 1u8
                &&& fatal matches Some(f)
                &&& f.message@ == message@
            })),
            old(self).spec_state() is Running ==> (event matches RuntimeEvent::RequestArrived {
                request,
            } ==> (a matches RuntimeAction::Respond { response } && response_view(response)
                == spec_route(
                old(self).spec_registry()@,
                request.name@,
                option_view(request.input),
            ))),
            old(self).spec_state() is Running && event is ShutdownRequested
                ==> a is ReleaseSurface,
            old(self).spec_state() is ShuttingDown && event is SurfaceReleased ==> (
            a matches RuntimeAction::ExitProcess { code, fatal } && code == 0u8
                && fatal is None),
    {
        match (self.state, event) {
            (RuntimeState::Uninitialized, RuntimeEvent::StartRequested) => {
                self.state = RuntimeState::Initializing;
                RuntimeAction::RunSetup
            },
            (RuntimeState::Initializing, RuntimeEvent::SetupSucceeded) => {
                self.state = RuntimeState::Attaching;
                RuntimeAction::AttachSurface
            },
            (RuntimeState::Initializing, RuntimeEvent::SetupFailed { message }) => {
                self.state = RuntimeState::Terminated;
                self.exit_code = Some(1);
                RuntimeAction::ExitProcess {
                    code: 1,
                    fatal: Some(FatalStartupError { message }),
                }
            },
            (RuntimeState::Attaching, RuntimeEvent::AttachSucceeded) => {
                self.state = RuntimeState::Running;
                RuntimeAction::EnterEventLoop
            },
            (RuntimeState::Attaching, RuntimeEvent::AttachFailed { message }) => {
                self.state = RuntimeState::Terminated;
                self.exit_code = Some(1);
                RuntimeAction::ExitProcess {
                    code: 1,
                    fatal: Some(FatalStartupError { message }),
                }
            },
            (RuntimeState::Running, RuntimeEvent::RequestArrived { request }) => {
                let response = route(&self.registry, &request);
                RuntimeAction::Respond { response }
            },
            (RuntimeState::Running, RuntimeEvent::ShutdownRequested) => {
                self.state = RuntimeState::ShuttingDown;
                RuntimeAction::ReleaseSurface
            },
            (RuntimeState::ShuttingDown, RuntimeEvent::SurfaceReleased) => {
                self.state = RuntimeState::Terminated;
                self.exit_code = Some(0);
                RuntimeAction::ExitProcess { code: 0, fatal: None }
            },
            _ => RuntimeAction::Ignore,
        }
    }
}

/// The state after feeding `events` to the machine in order, starting at
/// `s`.
pub open spec fn spec_run_events(s: RuntimeState, events: Seq<RuntimeEvent>) -> RuntimeState
    decreases events.len(),
{
    if events.len() == 0 {
        s
    } else {
        spec_run_events(spec_next(s, events[0]), events.drop_first())
    }
}

/// Law: `Terminated` is absorbing — no sequence of later events leaves it.
pub proof fn lemma_terminated_absorbing(events: Seq<RuntimeEvent>)
    ensures
        spec_run_events(RuntimeState::Terminated, events) == RuntimeState::Terminated,
    decreases events.len(),
{
    if events.len() > 0 {
        lemma_terminated_absorbing(events.drop_first());
    }
}

/// Law: a fatal failure while the UI surface is attaching terminates the
/// runtime at once, and no events that arrive afterwards — however many —
/// can ever bring it to `Running`. (`handle_event` additionally records the
/// non-zero exit status and hands out the diagnostic on this transition.)
pub proof fn lemma_fatal_attach_never_runs(message: String, events: Seq<RuntimeEvent>)
    ensures
        spec_next(RuntimeState::Attaching, RuntimeEvent::AttachFailed { message })
            == RuntimeState::Terminated,
        forall|i: int|
            0 <= i <= events.len() ==> spec_run_events(
                spec_next(RuntimeState::Attaching, RuntimeEvent::AttachFailed { message }),
                #[trigger] events.take(i),
            ) != RuntimeState::Running,
{
    assert forall|i: int|
        0 <= i <= events.len() implies spec_run_events(
        RuntimeState::Terminated,
        #[trigger] events.take(i),
    ) != RuntimeState::Running by {
        lemma_terminated_absorbing(events.take(i));
    }
}

} // verus!
