use std::cell::RefCell;

use sidecar_supervisor::supervisor::{
    RetryState, RetryStep, ShutdownPoll, SidecarManager, DEFAULT_MAX_RETRIES, SHUTDOWN_GRACE_MS,
};

#[test]
fn test_new_tracks_nothing() {
    let m = SidecarManager::new();
    assert!(!m.is_running());
    assert_eq!(DEFAULT_MAX_RETRIES, 3);
}

#[test]
fn test_shutdown_twice_is_no_op() {
    let mut m = SidecarManager::new();
    assert_eq!(m.shutdown(), None);
    assert_eq!(m.shutdown(), None);
    assert!(!m.is_running());
}

#[test]
fn test_shutdown_returns_tracked_process_once() {
    let mut m = SidecarManager::new();
    m.note_spawned(7);
    assert!(m.is_running());
    assert_eq!(m.shutdown(), Some(7));
    assert_eq!(m.shutdown(), None);
    assert!(!m.is_running());
}

#[test]
fn test_retry_exhausts_after_three_attempts() {
    let mut m = SidecarManager::new();
    let attempts = RefCell::new(0u32);
    let sleeps: RefCell<Vec<u64>> = RefCell::new(Vec::new());
    let spawn = || {
        *attempts.borrow_mut() += 1;
        Err("boom".to_string())
    };
    let sleep = |d: u64| {
        sleeps.borrow_mut().push(d);
    };
    let r = m.spawn_with_retry(&spawn, &sleep);
    assert_eq!(*attempts.borrow(), 3);
    assert_eq!(
        r,
        Err("Backend failed to start after 3 attempts: boom".to_string())
    );
    assert!(r.unwrap_err().contains("3"));
    assert!(!m.is_running());
}

#[test]
fn test_backoff_delays_double() {
    let mut m = SidecarManager::new();
    let sleeps: RefCell<Vec<u64>> = RefCell::new(Vec::new());
    let spawn = || Err("nope".to_string());
    let sleep = |d: u64| {
        sleeps.borrow_mut().push(d);
    };
    let _ = m.spawn_with_retry(&spawn, &sleep);
    assert_eq!(*sleeps.borrow(), vec![1, 2]);
}

#[test]
fn test_retry_succeeds_after_failures() {
    let mut m = SidecarManager::new();
    let attempts = RefCell::new(0u32);
    let sleeps: RefCell<Vec<u64>> = RefCell::new(Vec::new());
    let spawn = || {
        *attempts.borrow_mut() += 1;
        if *attempts.borrow() < 3 {
            Err("not yet".to_string())
        } else {
            Ok(42u64)
        }
    };
    let sleep = |d: u64| {
        sleeps.borrow_mut().push(d);
    };
    let r = m.spawn_with_retry(&spawn, &sleep);
    assert_eq!(r, Ok(()));
    assert!(m.is_running());
    assert_eq!(*sleeps.borrow(), vec![1, 2]);
}

#[test]
fn test_retry_step_decisions() {
    let mut m = SidecarManager::new();
    let mut st = RetryState::new();
    let r = m.retry_step(&mut st, Err("e1".to_string()));
    assert!(matches!(r, RetryStep::Backoff(1)));
    let r = m.retry_step(&mut st, Err("e2".to_string()));
    assert!(matches!(r, RetryStep::Backoff(2)));
    let r = m.retry_step(&mut st, Err("last cause".to_string()));
    match r {
        RetryStep::GiveUp(msg) => {
            assert_eq!(msg, "Backend failed to start after 3 attempts: last cause");
        }
        _ => panic!("expected the run to end"),
    }
}

#[test]
fn test_retry_step_success_tracks_child() {
    let mut m = SidecarManager::new();
    let mut st = RetryState::new();
    let r = m.retry_step(&mut st, Ok(9));
    assert!(matches!(r, RetryStep::Succeeded));
    assert!(m.is_running());
}

#[test]
fn test_spawn_command_surface() {
    let (program, script, env) = sidecar_supervisor::supervisor::spawn_command();
    assert_eq!(program, "node");
    assert_eq!(script, "server.js");
    assert_eq!(
        env,
        vec![
            ("NODE_ENV".to_string(), "production".to_string()),
            ("PORT".to_string(), "3001".to_string()),
        ]
    );
}

#[test]
fn test_shutdown_poll_step() {
    assert!(matches!(
        SidecarManager::shutdown_poll_step(0, true),
        ShutdownPoll::Exited
    ));
    assert!(matches!(
        SidecarManager::shutdown_poll_step(SHUTDOWN_GRACE_MS + 1, true),
        ShutdownPoll::Exited
    ));
    assert!(matches!(
        SidecarManager::shutdown_poll_step(100, false),
        ShutdownPoll::KeepWaiting
    ));
    assert!(matches!(
        SidecarManager::shutdown_poll_step(SHUTDOWN_GRACE_MS, false),
        ShutdownPoll::KeepWaiting
    ));
    assert!(matches!(
        SidecarManager::shutdown_poll_step(SHUTDOWN_GRACE_MS + 1, false),
        ShutdownPoll::ForceKill
    ));
}
