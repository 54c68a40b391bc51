use oura::engine::{iteration_outcome, score_counts, score_feedback, IterationResult, LoopCore, LoopStatus};
use oura::error::OuraError;
use oura::types::{FeedbackEntry, FeedbackKind};
use oura::engine::runtime_exceeded;

fn entry(kind: FeedbackKind) -> FeedbackEntry {
    FeedbackEntry { source: "t".into(), kind, message: "m".into(), details: None, metric: None, threshold: None }
}

#[test]
fn test_loop_engine_creation() {
    let engine = LoopCore::new(10, 95, 3600);
    assert_eq!(engine.max_iterations(), 10);
    assert_eq!(engine.min_score(), 95);
}

#[test]
fn test_loop_engine_start_stop() {
    let mut engine = LoopCore::new(20, 90, 3600);
    let state = engine.start("id-1".into(), "test goal".into(), "2024-01-01".into(), None, false).unwrap();
    assert_eq!(state.goal, "test goal");
    assert_eq!(state.status.as_str(), "running");
    let n = engine.stop();
    assert_eq!(n, 0);
    assert_eq!(engine.get_state().unwrap().status, LoopStatus::Stopped);
}

#[test]
fn test_loop_engine_update_config() {
    let mut engine = LoopCore::new(10, 90, 3600);
    engine.update_max_iterations(20);
    engine.update_min_score(95);
    assert_eq!(engine.max_iterations(), 20);
    assert_eq!(engine.min_score(), 95);
}

#[test]
fn test_loop_engine_already_running() {
    let mut engine = LoopCore::new(20, 90, 3600);
    engine.start("a".into(), "test goal".into(), "t".into(), None, false).unwrap();
    let second = engine.start("b".into(), "another goal".into(), "t".into(), None, false);
    assert!(matches!(second, Err(OuraError::LoopAlreadyRunning)));
    assert_eq!(engine.get_state().unwrap().goal, "test goal");
}

#[test]
fn scores() {
    assert_eq!(score_counts(0, 0), 100);
    assert_eq!(score_counts(1, 1), 80);
    assert_eq!(score_counts(7, 0), 0);
    let fb = vec![entry(FeedbackKind::Error), entry(FeedbackKind::Warning), entry(FeedbackKind::Info)];
    assert_eq!(score_feedback(&fb), 80);
    assert_eq!(iteration_outcome(90, 90, 1, 20), LoopStatus::Completed);
    assert_eq!(iteration_outcome(80, 90, 20, 20), LoopStatus::Failed);
    assert_eq!(iteration_outcome(80, 90, 3, 20), LoopStatus::Running);
}

#[test]
fn iterations_until_convergence() {
    let mut engine = LoopCore::new(5, 90, 3600);
    engine.start("l".into(), "g".into(), "t0".into(), None, false).unwrap();
    let n = engine.begin_iteration(false).unwrap();
    assert_eq!(n, 1);
    let r = engine.complete_iteration(n, vec![entry(FeedbackKind::Error)], "t1".into(), "t2".into()).unwrap();
    assert_eq!(r.score, 85);
    assert_eq!(r.status, LoopStatus::Running);
    let n = engine.begin_iteration(false).unwrap();
    assert_eq!(n, 2);
    let r = engine.complete_iteration(n, vec![entry(FeedbackKind::Success)], "t3".into(), "t4".into()).unwrap();
    assert_eq!(r.score, 100);
    assert_eq!(r.status, LoopStatus::Completed);
    assert!(matches!(engine.begin_iteration(false), Err(OuraError::LoopNotRunning(s)) if s == "completed"));
    let results = engine.get_results();
    assert_eq!(results.len(), 2);
    assert_eq!(results[0].iteration, 1);
    assert_eq!(results[1].iteration, 2);
}

#[test]
fn iteration_limit_fails_the_loop() {
    let mut engine = LoopCore::new(1, 90, 3600);
    engine.start("l".into(), "g".into(), "t0".into(), None, false).unwrap();
    let n = engine.begin_iteration(false).unwrap();
    let r = engine.complete_iteration(n, vec![entry(FeedbackKind::Error)], "a".into(), "b".into()).unwrap();
    assert_eq!(r.status, LoopStatus::Failed);
}

#[test]
fn no_loop_and_background_errors() {
    let mut engine = LoopCore::new(3, 90, 3600);
    assert!(matches!(engine.begin_iteration(false), Err(OuraError::NoActiveLoop)));
    assert!(matches!(engine.begin_iteration(true), Err(OuraError::BackgroundLoopRunning)));
    assert!(matches!(engine.start("x".into(), "g".into(), "t".into(), None, true), Err(OuraError::LoopAlreadyRunning)));
    assert_eq!(engine.stop(), 0);
}

#[test]
fn runtime_limit() {
    assert!(!runtime_exceeded(0, 1_000_000));
    assert!(!runtime_exceeded(10, 10));
    assert!(runtime_exceeded(10, 11));
}

#[test]
fn stopped_loop_refuses_iterations_and_restarts() {
    let mut engine = LoopCore::new(5, 90, 3600);
    engine.start("a".into(), "g".into(), "t".into(), Some(2), false).unwrap();
    assert_eq!(engine.get_state().unwrap().config.max_iterations, 2);
    engine.begin_iteration(false).unwrap();
    assert_eq!(engine.stop(), 1);
    assert!(matches!(engine.begin_iteration(false), Err(OuraError::LoopNotRunning(s)) if s == "stopped"));
    let again = engine.start("b".into(), "g2".into(), "t".into(), None, false).unwrap();
    assert_eq!(again.current_iteration, 0);
    assert_eq!(again.config.max_iterations, 5);
}

#[test]
fn time_out_fails_the_loop() {
    let mut engine = LoopCore::new(5, 90, 3600);
    engine.start("a".into(), "g".into(), "t".into(), None, false).unwrap();
    engine.time_out();
    assert_eq!(engine.get_state().unwrap().status, LoopStatus::Failed);
}

#[test]
fn test_iteration_result_defaults() {
    let result = IterationResult {
        iteration: 1,
        status: LoopStatus::Running,
        started_at: "2024-01-01".into(),
        completed_at: None,
        actions: vec![],
        feedback: vec![],
        score: 100,
    };
    assert_eq!(result.iteration, 1);
    assert!(result.actions.is_empty());
}

#[test]
fn manual_loop_uses_the_limit_it_was_started_with() {
    let mut engine = LoopCore::new(5, 90, 3600);
    engine.start("a".into(), "g".into(), "t".into(), Some(3), false).unwrap();
    for k in 1..=2u32 {
        let n = engine.begin_iteration(false).unwrap();
        let r = engine.complete_iteration(n, vec![entry(FeedbackKind::Error)], "s".into(), "e".into()).unwrap();
        assert_eq!(r.iteration, k);
        assert_eq!(r.status, LoopStatus::Running);
    }
    let n = engine.begin_iteration(false).unwrap();
    let r = engine.complete_iteration(n, vec![entry(FeedbackKind::Error)], "s".into(), "e".into()).unwrap();
    assert_eq!(r.score, 85);
    assert_eq!(r.status, LoopStatus::Failed);
    assert_eq!(engine.get_state().unwrap().status, LoopStatus::Failed);
}
