use echo_macro::diagnosis::{
    classify, classify_stderr, Category, DispatchOutcome, HOST_INSTALL_GUIDANCE,
    NATIVE_INSTALL_GUIDANCE, PERMISSION_GUIDANCE, SERVICE_GUIDANCE,
};
use echo_macro::environment::EnvironmentState;
use echo_macro::handler::{EchoMacroHandler, TypeTextSettings};
use echo_macro::invocation::Invocation;
use std::cell::RefCell;

fn isolated() -> EnvironmentState {
    EnvironmentState { isolated: true }
}

fn native() -> EnvironmentState {
    EnvironmentState { isolated: false }
}

#[test]
fn detect_from_probes() {
    assert!(!EnvironmentState::detect(false, false).isolated);
    assert!(EnvironmentState::detect(true, false).isolated);
    assert!(EnvironmentState::detect(false, true).isolated);
    assert!(EnvironmentState::detect(true, true).isolated);
}

#[test]
fn build_native_runs_tool_directly() {
    let inv = Invocation::build(native(), "hi there");
    assert_eq!(inv.program, "ydotool");
    assert_eq!(inv.arguments, vec!["type".to_string(), "hi there".to_string()]);
}

#[test]
fn build_isolated_runs_broker() {
    let inv = Invocation::build(isolated(), "hi");
    assert_eq!(inv.program, "flatpak-spawn");
    assert_ne!(inv.program, "ydotool");
    assert_eq!(
        inv.arguments,
        vec!["--host".to_string(), "ydotool".to_string(), "type".to_string(), "hi".to_string()]
    );
}

#[test]
fn build_keeps_shell_characters_in_one_argument() {
    let payload = "a b  \"quoted\" 'single' $(rm -rf /); echo `x` | cat > f & *";
    for state in [native(), isolated()] {
        let inv = Invocation::build(state, payload);
        assert_eq!(inv.arguments.last().unwrap(), payload);
        assert_eq!(inv.arguments.len(), if state.isolated { 4 } else { 2 });
    }
}

#[test]
fn probe_uses_help() {
    let inv = Invocation::probe(native());
    assert_eq!(inv.program, "ydotool");
    assert_eq!(inv.arguments, vec!["help".to_string()]);
    let inv = Invocation::probe(isolated());
    assert_eq!(inv.program, "flatpak-spawn");
    assert_eq!(
        inv.arguments,
        vec!["--host".to_string(), "ydotool".to_string(), "help".to_string()]
    );
}

#[test]
fn classify_success_gives_nothing() {
    assert!(classify(&DispatchOutcome::Success, native()).is_none());
    assert!(classify(&DispatchOutcome::Success, isolated()).is_none());
}

#[test]
fn classify_connection_is_service() {
    let out = DispatchOutcome::ExitedWithError("failed: connection refused".to_string());
    let r = classify(&out, native()).unwrap();
    assert_eq!(r.category, Category::ServiceNotRunning);
    assert_eq!(r.message, SERVICE_GUIDANCE);
}

#[test]
fn classify_ignores_ascii_case() {
    assert_eq!(classify_stderr("Connection Refused"), Category::ServiceNotRunning);
    assert_eq!(classify_stderr("SOCKET missing"), Category::ServiceNotRunning);
    assert_eq!(classify_stderr("Command NOT FOUND"), Category::SandboxPermissionMissing);
}

#[test]
fn classify_service_wins_over_permission() {
    assert_eq!(classify_stderr("ydotoold: socket not found"), Category::ServiceNotRunning);
}

#[test]
fn classify_broker_missing_is_permission() {
    let out = DispatchOutcome::ExitedWithError("flatpak-spawn: portal refused".to_string());
    let r = classify(&out, isolated()).unwrap();
    assert_eq!(r.category, Category::SandboxPermissionMissing);
    assert_eq!(r.message, PERMISSION_GUIDANCE);
}

#[test]
fn classify_unknown_keeps_stderr() {
    let out = DispatchOutcome::ExitedWithError("weird failure 42".to_string());
    let r = classify(&out, native()).unwrap();
    assert_eq!(r.category, Category::Unknown);
    assert_eq!(r.message, "ydotool failed: weird failure 42");
    assert_eq!(classify_stderr(""), Category::Unknown);
}

#[test]
fn classify_spawn_failure_isolated_points_to_host() {
    let out = DispatchOutcome::SpawnFailed("No such file or directory".to_string());
    let r = classify(&out, isolated()).unwrap();
    assert_eq!(r.category, Category::ToolNotInstalled);
    assert_eq!(r.message, HOST_INSTALL_GUIDANCE);
    assert_ne!(r.message, NATIVE_INSTALL_GUIDANCE);
}

#[test]
fn classify_spawn_failure_native() {
    let out = DispatchOutcome::SpawnFailed("No such file or directory".to_string());
    let r = classify(&out, native()).unwrap();
    assert_eq!(r.category, Category::ToolNotInstalled);
    assert_eq!(r.message, NATIVE_INSTALL_GUIDANCE);
}

#[test]
fn settings_fallback_text() {
    let empty = TypeTextSettings { text: String::new() };
    assert_eq!(empty.text_to_type(), "Hello World");
    let set = TypeTextSettings { text: "abc".to_string() };
    assert_eq!(set.text_to_type(), "abc");
}

#[test]
fn native_empty_settings_types_fallback() {
    let handler = EchoMacroHandler::new(native());
    let seen: RefCell<Vec<(String, Vec<String>)>> = RefCell::new(Vec::new());
    let settings = TypeTextSettings { text: String::new() };
    let r = handler.type_text(&settings, |inv: &Invocation| {
        seen.borrow_mut().push((inv.program.clone(), inv.arguments.clone()));
        DispatchOutcome::Success
    });
    let seen = seen.into_inner();
    assert_eq!(seen.len(), 1);
    assert_eq!(seen[0].0, "ydotool");
    assert_eq!(seen[0].1, vec!["type".to_string(), "Hello World".to_string()]);
    assert!(r.success);
    assert!(!r.needs_alert());
    assert!(r.report.is_none());
}

#[test]
fn isolated_missing_daemon_fails_with_alert() {
    let handler = EchoMacroHandler::new(isolated());
    let settings = TypeTextSettings { text: "secret text".to_string() };
    let seen: RefCell<Vec<String>> = RefCell::new(Vec::new());
    let r = handler.type_text(&settings, |inv: &Invocation| {
        seen.borrow_mut().push(inv.program.clone());
        DispatchOutcome::ExitedWithError("ydotoold: socket not found".to_string())
    });
    assert_eq!(seen.into_inner(), vec!["flatpak-spawn".to_string()]);
    assert!(!r.success);
    assert!(r.needs_alert());
    assert_eq!(r.report.unwrap().category, Category::ServiceNotRunning);
}

#[test]
fn spawn_failure_fails_press() {
    let handler = EchoMacroHandler::new(native());
    let settings = TypeTextSettings { text: "x".to_string() };
    let r = handler.type_text(&settings, |_inv: &Invocation| {
        DispatchOutcome::SpawnFailed("not there".to_string())
    });
    assert!(!r.success);
    assert!(r.needs_alert());
    let report = r.report.unwrap();
    assert_eq!(report.category, Category::ToolNotInstalled);
    assert_eq!(report.message, NATIVE_INSTALL_GUIDANCE);
}
