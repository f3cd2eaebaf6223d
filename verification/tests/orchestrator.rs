use sidecar_supervisor::orchestrator::{
    backend_url, health_url, is_dev, restart_begin, restart_success, show_error_script,
    BootEvent, BootMode, Orchestrator, UiAction,
};
use sidecar_supervisor::supervisor::SidecarManager;

#[test]
fn test_is_dev() {
    assert!(is_dev(BootMode::Dev));
    assert!(!is_dev(BootMode::Prod));
}

#[test]
fn test_urls() {
    assert_eq!(backend_url(), "http://127.0.0.1:3001");
    assert_eq!(health_url(), "http://127.0.0.1:3001/health");
}

#[test]
fn test_boot_prod_happy_path() {
    let no_tail: Vec<String> = Vec::new();
    let mut orch = Orchestrator::new(BootMode::Prod);
    assert!(matches!(
        orch.boot_step(BootEvent::Begin, &no_tail),
        UiAction::Proceed
    ));
    assert!(matches!(
        orch.boot_step(BootEvent::SpawnOk(11), &no_tail),
        UiAction::Proceed
    ));
    match orch.boot_step(BootEvent::HealthOk, &no_tail) {
        UiAction::NavigateAndReveal(url) => assert_eq!(url, "http://127.0.0.1:3001"),
        _ => panic!("expected navigation to the backend"),
    }
}

#[test]
fn test_boot_dev_reveals_without_navigation() {
    let no_tail: Vec<String> = Vec::new();
    let mut orch = Orchestrator::new(BootMode::Dev);
    assert!(matches!(
        orch.boot_step(BootEvent::Begin, &no_tail),
        UiAction::Proceed
    ));
    assert!(matches!(
        orch.boot_step(BootEvent::HealthOk, &no_tail),
        UiAction::Reveal
    ));
}

#[test]
fn test_boot_spawn_failure_renders_diagnostic() {
    let tail = vec!["err: port in use".to_string()];
    let mut orch = Orchestrator::new(BootMode::Prod);
    let _ = orch.boot_step(BootEvent::Begin, &tail);
    let action = orch.boot_step(
        BootEvent::SpawnFailed("Backend failed to start after 3 attempts: boom".to_string()),
        &tail,
    );
    match action {
        UiAction::RenderDiagnostic(html) => {
            assert!(html.contains("Backend failed to start after 3 attempts: boom"));
            assert!(html.contains("err: port in use"));
        }
        _ => panic!("expected a diagnostic"),
    }
}

/// Spawn succeeds, then the health check times out: the tail of log lines is
/// embedded (escaped) in the rendered diagnostic, and at no step was the
/// shell asked to reveal or navigate.
#[test]
fn test_boot_health_timeout_embeds_log_tail_and_never_reveals() {
    let mut tail: Vec<String> = Vec::new();
    for i in 0..20 {
        tail.push(format!("log line <{}>", i));
    }
    let mut orch = Orchestrator::new(BootMode::Prod);
    let a1 = orch.boot_step(BootEvent::Begin, &tail);
    let a2 = orch.boot_step(BootEvent::SpawnOk(3), &tail);
    let a3 = orch.boot_step(
        BootEvent::HealthTimeout("Backend health check timed out after 15000ms".to_string()),
        &tail,
    );
    for a in [&a1, &a2] {
        assert!(matches!(a, UiAction::Proceed));
    }
    match a3 {
        UiAction::RenderDiagnostic(html) => {
            for i in 0..20 {
                assert!(html.contains(&format!("log line &lt;{}&gt;", i)));
            }
            assert!(html.contains("Backend health check timed out after 15000ms"));
        }
        _ => panic!("expected a diagnostic"),
    }
}

#[test]
fn test_boot_dev_health_timeout_shows_hints() {
    let no_tail: Vec<String> = Vec::new();
    let mut orch = Orchestrator::new(BootMode::Dev);
    let _ = orch.boot_step(BootEvent::Begin, &no_tail);
    let action = orch.boot_step(
        BootEvent::HealthTimeout("Backend health check timed out after 15000ms".to_string()),
        &no_tail,
    );
    match action {
        UiAction::RenderDiagnostic(html) => {
            assert!(html.contains("Dev mode: backend not responding."));
            assert!(html.contains("Start it with: npm run dev:backend"));
            assert!(!html.contains("No log output available."));
        }
        _ => panic!("expected a diagnostic"),
    }
}

/// A restart requested while no supervisor exists fails immediately, with
/// the error naming that, and without any spawn being attempted.
#[test]
fn test_restart_without_manager_fails_immediately() {
    let mut slot: Option<SidecarManager> = None;
    let r = restart_begin(&mut slot);
    assert_eq!(r, Err("No sidecar manager available".to_string()));
    assert!(slot.is_none());
}

#[test]
fn test_restart_with_manager_takes_process() {
    let mut m = SidecarManager::new();
    m.note_spawned(7);
    let mut slot = Some(m);
    let r = restart_begin(&mut slot);
    assert_eq!(r, Ok(Some(7)));
    let kept = slot.expect("the supervisor stays in the slot");
    assert!(!kept.is_running());
}

#[test]
fn test_restart_with_idle_manager() {
    let mut slot = Some(SidecarManager::new());
    let r = restart_begin(&mut slot);
    assert_eq!(r, Ok(None));
    assert!(slot.is_some());
}

#[test]
fn test_restart_success_message() {
    assert_eq!(restart_success(), "Backend restarted");
}

#[test]
fn test_show_error_script_quotes_as_json() {
    let html = "<div class=\"x\">a</div>";
    let script = show_error_script(html);
    let expected = format!(
        "document.open(); document.write({}); document.close();",
        serde_json::to_string(html).unwrap()
    );
    assert_eq!(script, expected);
    assert!(script.contains("\\\""));
    assert!(!script.contains("document.write(<div"));
}
