use command_bridge::bridge::Request;
use command_bridge::bridge::Response;
use command_bridge::bridge::route;
use command_bridge::handler::Handler;
use command_bridge::registry::Registry;
use command_bridge::runtime::Runtime;
use command_bridge::runtime::RuntimeAction;
use command_bridge::runtime::RuntimeEvent;
use command_bridge::runtime::RuntimeState;

fn ping_only_registry() -> Registry {
    let mut reg = Registry::new();
    let r = reg.register("ping".to_string(), Handler::Ping);
    assert!(r.is_ok());
    reg
}

#[test]
fn route_answers_ping_with_pong() {
    let reg = ping_only_registry();
    let req = Request { name: "ping".to_string(), input: None };
    match route(&reg, &req) {
        Response::Success { value } => assert_eq!(value, "pong"),
        Response::Failure { .. } => panic!("ping must succeed"),
    }
}

#[test]
fn route_reports_unknown_name_in_failure_text() {
    let reg = ping_only_registry();
    let req = Request { name: "pong".to_string(), input: None };
    match route(&reg, &req) {
        Response::Failure { error } => assert_eq!(error, "UnknownCommandError: pong"),
        Response::Success { .. } => panic!("an unregistered name must fail"),
    }
}

#[test]
fn route_reports_handler_failure_in_failure_text() {
    let mut reg = ping_only_registry();
    assert!(
        reg.register("explode".to_string(), Handler::Failing { message: "no fuel".to_string() })
            .is_ok()
    );
    let req = Request { name: "explode".to_string(), input: None };
    match route(&reg, &req) {
        Response::Failure { error } => assert_eq!(error, "CommandExecutionError: no fuel"),
        Response::Success { .. } => panic!("a failing handler must fail the request"),
    }
}

#[test]
fn fatal_attach_failure_terminates_without_running() {
    let mut rt = Runtime::new(ping_only_registry());
    assert_eq!(rt.state(), RuntimeState::Uninitialized);

    let a = rt.handle_event(RuntimeEvent::StartRequested);
    assert!(matches!(a, RuntimeAction::RunSetup));
    assert_eq!(rt.state(), RuntimeState::Initializing);

    let a = rt.handle_event(RuntimeEvent::SetupSucceeded);
    assert!(matches!(a, RuntimeAction::AttachSurface));
    assert_eq!(rt.state(), RuntimeState::Attaching);

    let a = rt.handle_event(
        RuntimeEvent::AttachFailed { message: "platform windowing unavailable".to_string() },
    );
    match a {
        RuntimeAction::ExitProcess { code, fatal } => {
            assert_ne!(code, 0);
            let fatal = fatal.expect("a fatal startup failure must carry its diagnostic");
            assert_eq!(
                fatal.message(),
                "FatalStartupError: platform windowing unavailable"
            );
        }
        _ => panic!("a fatal attach failure must exit the process"),
    }
    assert_eq!(rt.state(), RuntimeState::Terminated);
    assert_eq!(rt.exit_code(), Some(1));

    // Terminated is absorbing: nothing can bring the runtime to Running now.
    let a = rt.handle_event(RuntimeEvent::AttachSucceeded);
    assert!(matches!(a, RuntimeAction::Ignore));
    assert_eq!(rt.state(), RuntimeState::Terminated);
    let a = rt.handle_event(
        RuntimeEvent::RequestArrived { request: Request { name: "ping".to_string(), input: None } },
    );
    assert!(matches!(a, RuntimeAction::Ignore));
    assert_eq!(rt.state(), RuntimeState::Terminated);
}

#[test]
fn fatal_setup_failure_terminates_with_nonzero_status() {
    let mut rt = Runtime::new(ping_only_registry());
    assert!(matches!(rt.handle_event(RuntimeEvent::StartRequested), RuntimeAction::RunSetup));
    let a = rt.handle_event(
        RuntimeEvent::SetupFailed { message: "persisted state corrupt".to_string() },
    );
    match a {
        RuntimeAction::ExitProcess { code, fatal } => {
            assert_ne!(code, 0);
            assert!(fatal.is_some());
        }
        _ => panic!("a fatal setup failure must exit the process"),
    }
    assert_eq!(rt.state(), RuntimeState::Terminated);
    assert_eq!(rt.exit_code(), Some(1));
}

#[test]
fn requests_are_not_answered_before_the_event_loop_runs() {
    let mut rt = Runtime::new(ping_only_registry());
    let early = RuntimeEvent::RequestArrived {
        request: Request { name: "ping".to_string(), input: None },
    };
    let a = rt.handle_event(early);
    assert!(matches!(a, RuntimeAction::Ignore));
    assert_eq!(rt.state(), RuntimeState::Uninitialized);
}

#[test]
fn end_to_end_ping_session() {
    let mut rt = Runtime::new(ping_only_registry());

    assert!(matches!(rt.handle_event(RuntimeEvent::StartRequested), RuntimeAction::RunSetup));
    assert!(matches!(rt.handle_event(RuntimeEvent::SetupSucceeded), RuntimeAction::AttachSurface));
    assert!(matches!(rt.handle_event(RuntimeEvent::AttachSucceeded), RuntimeAction::EnterEventLoop));
    assert_eq!(rt.state(), RuntimeState::Running);

    // Request {name: "ping"} -> response {ok: true, value: "pong"}.
    let a = rt.handle_event(
        RuntimeEvent::RequestArrived { request: Request { name: "ping".to_string(), input: None } },
    );
    match a {
        RuntimeAction::Respond { response: Response::Success { value } } => {
            assert_eq!(value, "pong")
        }
        _ => panic!("ping must be answered with pong"),
    }
    assert_eq!(rt.state(), RuntimeState::Running);

    // Request {name: "pong"} (unregistered) -> a recoverable failure
    // response; the loop keeps running.
    let a = rt.handle_event(
        RuntimeEvent::RequestArrived { request: Request { name: "pong".to_string(), input: None } },
    );
    match a {
        RuntimeAction::Respond { response: Response::Failure { error } } => {
            assert_eq!(error, "UnknownCommandError: pong")
        }
        _ => panic!("an unknown name must be answered with a failure response"),
    }
    assert_eq!(rt.state(), RuntimeState::Running);

    // Orderly shutdown: release the surface, then exit with status 0.
    let a = rt.handle_event(RuntimeEvent::ShutdownRequested);
    assert!(matches!(a, RuntimeAction::ReleaseSurface));
    assert_eq!(rt.state(), RuntimeState::ShuttingDown);
    let a = rt.handle_event(RuntimeEvent::SurfaceReleased);
    match a {
        RuntimeAction::ExitProcess { code, fatal } => {
            assert_eq!(code, 0);
            assert!(fatal.is_none());
        }
        _ => panic!("releasing the surface must end the process"),
    }
    assert_eq!(rt.state(), RuntimeState::Terminated);
    assert_eq!(rt.exit_code(), Some(0));
}
