use command_bridge::errors::DuplicateCommandError;
use command_bridge::errors::InvokeError;
use command_bridge::handler::Handler;
use command_bridge::registry::Registry;

fn ping_only_registry() -> Registry {
    let mut reg = Registry::new();
    let r = reg.register("ping".to_string(), Handler::Ping);
    assert!(r.is_ok());
    reg
}

#[test]
fn ping_returns_pong() {
    let reg = ping_only_registry();
    let out = reg.invoke(&"ping".to_string(), &None);
    match out {
        Ok(value) => assert_eq!(value, "pong"),
        Err(_) => panic!("ping must succeed"),
    }
}

#[test]
fn ping_ignores_accompanying_input() {
    let reg = ping_only_registry();
    let out = reg.invoke(&"ping".to_string(), &Some("unused payload".to_string()));
    match out {
        Ok(value) => assert_eq!(value, "pong"),
        Err(_) => panic!("ping must succeed"),
    }
}

#[test]
fn repeated_invocations_return_the_same_value() {
    let reg = ping_only_registry();
    let name = "ping".to_string();
    let first = reg.invoke(&name, &None);
    let second = reg.invoke(&name, &None);
    let third = reg.invoke(&name, &None);
    for out in [first, second, third] {
        match out {
            Ok(value) => assert_eq!(value, "pong"),
            Err(_) => panic!("ping must succeed"),
        }
    }
    assert!(reg.contains(&name));
    assert_eq!(reg.len(), 1);
}

#[test]
fn duplicate_registration_rejected_and_registry_unchanged() {
    let mut reg = ping_only_registry();
    let r = reg.register("ping".to_string(), Handler::Failing { message: "boom".to_string() });
    match r {
        Err(DuplicateCommandError { name }) => assert_eq!(name, "ping"),
        Ok(()) => panic!("duplicate registration must fail"),
    }
    // Still exactly the first registration: one command, and `ping` still
    // answers with the first handler's output.
    assert_eq!(reg.len(), 1);
    let out = reg.invoke(&"ping".to_string(), &None);
    match out {
        Ok(value) => assert_eq!(value, "pong"),
        Err(_) => panic!("the first registration must still be in force"),
    }
}

#[test]
fn unknown_command_carries_the_requested_name() {
    let reg = ping_only_registry();
    let out = reg.invoke(&"pong".to_string(), &None);
    match out {
        Err(InvokeError::UnknownCommand { name }) => assert_eq!(name, "pong"),
        _ => panic!("an unregistered name must fail as unknown"),
    }
    // The failed lookup did not mutate the registry.
    assert_eq!(reg.len(), 1);
    assert!(reg.contains(&"ping".to_string()));
    assert!(!reg.contains(&"pong".to_string()));
}

#[test]
fn handler_failure_wrapped_as_command_execution() {
    let mut reg = ping_only_registry();
    let r = reg.register(
        "explode".to_string(),
        Handler::Failing { message: "out of orbit".to_string() },
    );
    assert!(r.is_ok());
    let out = reg.invoke(&"explode".to_string(), &None);
    match out {
        Err(InvokeError::CommandExecution { message }) => assert_eq!(message, "out of orbit"),
        _ => panic!("a failing handler must be reported as an execution failure"),
    }
}

#[test]
fn registration_order_does_not_affect_lookups() {
    let mut forward = Registry::new();
    assert!(forward.register("ping".to_string(), Handler::Ping).is_ok());
    assert!(
        forward.register("explode".to_string(), Handler::Failing { message: "x".to_string() })
            .is_ok()
    );
    let mut backward = Registry::new();
    assert!(
        backward.register("explode".to_string(), Handler::Failing { message: "x".to_string() })
            .is_ok()
    );
    assert!(backward.register("ping".to_string(), Handler::Ping).is_ok());
    for reg in [&forward, &backward] {
        match reg.invoke(&"ping".to_string(), &None) {
            Ok(value) => assert_eq!(value, "pong"),
            Err(_) => panic!("ping must succeed in either order"),
        }
        match reg.invoke(&"explode".to_string(), &None) {
            Err(InvokeError::CommandExecution { message }) => assert_eq!(message, "x"),
            _ => panic!("explode must fail in either order"),
        }
    }
}

#[test]
fn error_messages_render_kind_and_detail() {
    let dup = DuplicateCommandError { name: "ping".to_string() };
    assert_eq!(dup.message(), "DuplicateCommandError: ping");
    let unknown = InvokeError::UnknownCommand { name: "pong".to_string() };
    assert_eq!(unknown.message(), "UnknownCommandError: pong");
    let exec = InvokeError::CommandExecution { message: "out of orbit".to_string() };
    assert_eq!(exec.message(), "CommandExecutionError: out of orbit");
}

#[test]
fn empty_registry_knows_no_names() {
    let reg = Registry::new();
    assert_eq!(reg.len(), 0);
    match reg.invoke(&"ping".to_string(), &None) {
        Err(InvokeError::UnknownCommand { name }) => assert_eq!(name, "ping"),
        _ => panic!("an empty registry must reject every name"),
    }
}
