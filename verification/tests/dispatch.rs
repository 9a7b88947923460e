use appshell::command::{init_database, run_handler, Handler, Value};
use appshell::errors::{SetupFault, ShellError};
use appshell::setup::SetupEnv;
use appshell::shell::{AppShell, Phase};

fn ready_shell(bindings: Vec<(&str, Handler)>) -> AppShell {
    let mut shell = AppShell::new();
    shell.begin_setup();
    for (name, handler) in bindings {
        assert_eq!(shell.register(String::from(name), handler), Ok(()));
    }
    let env = SetupEnv {
        dev_build: false,
        surfaces: Vec::new(),
        diagnostic_surface: String::from("main"),
    };
    assert_eq!(shell.finish_setup(&env), Ok(()));
    assert_eq!(shell.current_phase(), Phase::Ready);
    shell
}

#[test]
fn registered_noop_invokes_ok() {
    let shell = ready_shell(vec![("init_database", Handler::NoOp)]);
    let before = shell.command_count();
    let args: Vec<Value> = Vec::new();
    let out = shell.invoke(&String::from("init_database"), &args);
    assert_eq!(out, Ok(Value::Null));
    assert_eq!(shell.command_count(), before);
    assert_eq!(shell.current_phase(), Phase::Ready);
}

#[test]
fn unregistered_name_not_found() {
    let shell = ready_shell(vec![("init_database", Handler::NoOp)]);
    let args: Vec<Value> = Vec::new();
    let out = shell.invoke(&String::from("drop_database"), &args);
    assert_eq!(out, Err(ShellError::CommandNotFound));
}

#[test]
fn not_found_even_with_empty_registry() {
    let shell = ready_shell(Vec::new());
    let args = vec![Value::Int(1)];
    let out = shell.invoke(&String::from("anything"), &args);
    assert_eq!(out, Err(ShellError::CommandNotFound));
}

#[test]
fn noop_invocation_idempotent() {
    let shell = ready_shell(vec![("init_database", Handler::NoOp)]);
    let args: Vec<Value> = Vec::new();
    let first = shell.invoke(&String::from("init_database"), &args);
    let second = shell.invoke(&String::from("init_database"), &args);
    assert_eq!(first, second);
    assert_eq!(first, Ok(Value::Null));
}

#[test]
fn invocations_complete_independently() {
    let shell = ready_shell(vec![
        ("init_database", Handler::NoOp),
        ("report", Handler::EchoFirst),
    ]);
    let no_args: Vec<Value> = Vec::new();
    let report_args = vec![Value::Text(String::from("ping"))];
    let a = shell.invoke(&String::from("init_database"), &no_args);
    let b = shell.invoke(&String::from("report"), &report_args);
    let a_again = shell.invoke(&String::from("init_database"), &no_args);
    assert_eq!(a, Ok(Value::Null));
    assert_eq!(b, Ok(Value::Text(String::from("ping"))));
    assert_eq!(a, a_again);
}

#[test]
fn handler_failure_is_returned_to_caller() {
    let shell = ready_shell(vec![("flaky", Handler::Fail(String::from("disk full")))]);
    let args: Vec<Value> = Vec::new();
    let out = shell.invoke(&String::from("flaky"), &args);
    assert_eq!(out, Err(ShellError::HandlerFailure(String::from("disk full"))));
    assert_eq!(shell.current_phase(), Phase::Ready);
}

#[test]
fn echo_first_returns_first_argument() {
    let shell = ready_shell(vec![("echo", Handler::EchoFirst)]);
    let args = vec![Value::Int(7), Value::Bool(false)];
    assert_eq!(shell.invoke(&String::from("echo"), &args), Ok(Value::Int(7)));
    let empty: Vec<Value> = Vec::new();
    assert_eq!(shell.invoke(&String::from("echo"), &empty), Ok(Value::Null));
}

#[test]
fn duplicate_registration_rejected() {
    let mut shell = AppShell::new();
    shell.begin_setup();
    assert_eq!(shell.register(String::from("init_database"), Handler::NoOp), Ok(()));
    let again = shell.register(String::from("init_database"), Handler::EchoFirst);
    assert_eq!(
        again,
        Err(ShellError::SetupFailure(SetupFault::DuplicateCommand))
    );
    assert_eq!(shell.command_count(), 1);
    assert!(shell.is_registered(&String::from("init_database")));
}

#[test]
fn run_handler_matches_handler_semantics() {
    let args = vec![Value::Text(String::from("x"))];
    assert_eq!(run_handler(&Handler::NoOp, &args), Ok(Value::Null));
    assert_eq!(
        run_handler(&Handler::Fail(String::from("no")), &args),
        Err(ShellError::HandlerFailure(String::from("no")))
    );
    assert_eq!(
        run_handler(&Handler::EchoFirst, &args),
        Ok(Value::Text(String::from("x")))
    );
}

#[test]
fn init_database_reports_success() {
    assert_eq!(init_database(), Ok(()));
}

#[test]
fn error_descriptions() {
    assert_eq!(ShellError::CommandNotFound.describe(), "command not found");
    assert_eq!(
        ShellError::SetupFailure(SetupFault::DuplicateCommand).describe(),
        "setup failed: command name already registered"
    );
    assert_eq!(
        ShellError::SetupFailure(SetupFault::MissingSurface).describe(),
        "setup failed: required surface is missing"
    );
    assert_eq!(
        ShellError::HandlerFailure(String::from("boom")).describe(),
        "boom"
    );
}
