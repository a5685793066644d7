use nebula_shell::platform::BuildMode;
use nebula_shell::supervisor::{prepare_launch, OutputMode, StartError, Supervisor};

fn segs(parts: &[&str]) -> Vec<String> {
    parts.iter().map(|s| s.to_string()).collect()
}

#[test]
fn new_supervisor_holds_nothing() {
    let s: Supervisor<u32> = Supervisor::new();
    assert!(!s.is_running());
    assert!(s.needs_launch());
}

#[test]
fn second_start_launches_nothing() {
    let mut s: Supervisor<u32> = Supervisor::new();
    let mut launches = 0;
    for _ in 0..2 {
        if s.needs_launch() {
            launches += 1;
            assert!(s.record_launch(Ok(41)).is_ok());
        }
    }
    assert_eq!(launches, 1);
    assert!(s.is_running());
    assert_eq!(s.take_handle(), Some(41));
}

#[test]
fn refused_spawn_is_reported_and_nothing_held() {
    let mut s: Supervisor<u32> = Supervisor::new();
    match s.record_launch(Err("permission denied".to_string())) {
        Err(StartError::SpawnFailed { reason }) => assert_eq!(reason, "permission denied"),
        other => panic!("unexpected {:?}", other),
    }
    assert!(!s.is_running());
}

#[test]
fn missing_binary_leaves_state_empty() {
    let s: Supervisor<u32> = Supervisor::new();
    let path = segs(&["/", "opt", "nebula", "nebula-backend"]);
    match prepare_launch(BuildMode::Release, path.clone(), false) {
        Err(StartError::BackendNotFound { path: p }) => assert_eq!(p, path),
        other => panic!("unexpected {:?}", other),
    }
    assert!(!s.is_running());
}

#[test]
fn dev_launch_plan() {
    let path = segs(&["/", "w", "backend", "bin", "nebula-backend"]);
    let plan = prepare_launch(BuildMode::Development, path.clone(), true).unwrap();
    assert_eq!(plan.program, path);
    assert_eq!(plan.env, vec![("NEBULA_ADDR", "127.0.0.1:8080"), ("NEBULA_DEV", "true")]);
    assert_eq!(plan.output, OutputMode::Inherit);
}

#[test]
fn release_launch_plan() {
    let path = segs(&["/", "opt", "nebula-backend"]);
    let plan = prepare_launch(BuildMode::Release, path.clone(), true).unwrap();
    assert_eq!(plan.program, path);
    assert_eq!(plan.env, vec![("NEBULA_ADDR", "127.0.0.1:8080")]);
    assert_eq!(plan.output, OutputMode::Discard);
}

#[test]
fn second_stop_finds_nothing() {
    let mut s: Supervisor<u32> = Supervisor::new();
    assert!(s.record_launch(Ok(7)).is_ok());
    assert_eq!(s.take_handle(), Some(7));
    assert!(!s.is_running());
    assert_eq!(s.take_handle(), None);
    assert!(!s.is_running());
}

#[test]
fn stop_without_start_finds_nothing() {
    let mut s: Supervisor<u32> = Supervisor::new();
    assert_eq!(s.take_handle(), None);
}
