use rustar_types::jobs::{
    Job, JobRegistry, JobStatus, JobValidationError, StepRequest, TleData, TransitionError,
};
use rustar_types::radio::Hertz;
use rustar_types::time::Timestamp;

const LINE: &str = "1 25544U 98067A   25235.75642456  .00011222  00000+0  20339-3 0  9993";

fn job(id: u64, start: i64, end: i64) -> Job {
    let tle = TleData { tle0: "SAT".to_string(), tle1: LINE.to_string(), tle2: LINE.to_string() };
    Job::new(
        id,
        format!("SAT-{}", id),
        Timestamp::new(start, 0),
        Timestamp::new(end, 0),
        tle,
        Hertz::from_bits(145800000.0f64.to_bits()),
        Hertz::from_bits(437500000.0f64.to_bits()),
        None,
    )
    .unwrap()
}

fn schedule() -> StepRequest {
    StepRequest::Schedule { window_conflict: false }
}

fn start_at(seconds: i64) -> StepRequest {
    StepRequest::Start { now: Timestamp::new(seconds, 0) }
}

fn complete_at(seconds: i64) -> StepRequest {
    StepRequest::Complete { now: Timestamp::new(seconds, 0) }
}

fn fail(cause: &str) -> StepRequest {
    StepRequest::Fail { cause: cause.to_string() }
}

/// The state that a request led to, or why it was refused.
fn ask(registry: &mut JobRegistry, id: u64, request: StepRequest) -> Result<JobStatus, TransitionError> {
    registry.transition(id, request).map(|event| {
        assert_eq!(event.id, id);
        event.status
    })
}

#[test]
fn a_new_registry_is_empty() {
    let registry = JobRegistry::new();
    assert!(!registry.contains(0));
    assert_eq!(registry.status(7), None);
    assert!(registry.job(7).is_none());
}

#[test]
fn a_registered_job_is_received() {
    let mut registry = JobRegistry::new();
    assert_eq!(registry.register(job(7, 100, 200)), Ok(()));
    assert!(registry.contains(7));
    assert_eq!(registry.status(7), Some(JobStatus::Received));
    let kept = registry.job(7).unwrap();
    assert_eq!(kept.id(), 7);
    assert_eq!(kept.satellite_id(), "SAT-7");
    assert_eq!(kept.start(), Timestamp::new(100, 0));
    assert!(!registry.contains(8));
}

#[test]
fn an_identifier_is_given_once() {
    let mut registry = JobRegistry::new();
    assert_eq!(registry.register(job(7, 100, 200)), Ok(()));
    assert_eq!(ask(&mut registry, 7, schedule()), Ok(JobStatus::Scheduled));
    assert_eq!(registry.register(job(7, 300, 400)), Err(JobValidationError::DuplicateId));
    assert_eq!(registry.status(7), Some(JobStatus::Scheduled));
    assert_eq!(registry.job(7).unwrap().start(), Timestamp::new(100, 0));
    assert_eq!(registry.register(job(8, 300, 400)), Ok(()));
    assert_eq!(registry.status(8), Some(JobStatus::Received));
}

#[test]
fn an_identifier_stays_taken_after_the_end() {
    let mut registry = JobRegistry::new();
    registry.register(job(1, 100, 200)).unwrap();
    registry.transition(1, fail("operator gave up")).unwrap();
    assert_eq!(registry.register(job(1, 100, 200)), Err(JobValidationError::DuplicateId));
}

#[test]
fn a_job_runs_its_course() {
    let mut registry = JobRegistry::new();
    registry.register(job(1, 100, 200)).unwrap();
    assert_eq!(ask(&mut registry, 1, schedule()), Ok(JobStatus::Scheduled));
    assert_eq!(ask(&mut registry, 1, start_at(99)), Err(TransitionError::TooEarly));
    assert_eq!(registry.status(1), Some(JobStatus::Scheduled));
    assert_eq!(ask(&mut registry, 1, start_at(100)), Ok(JobStatus::Started));
    assert_eq!(ask(&mut registry, 1, complete_at(199)), Err(TransitionError::TooEarly));
    assert_eq!(registry.status(1), Some(JobStatus::Started));
    assert_eq!(ask(&mut registry, 1, complete_at(200)), Ok(JobStatus::Completed));
    assert_eq!(registry.status(1), Some(JobStatus::Completed));
    assert_eq!(registry.job(1).unwrap().end(), Timestamp::new(200, 0));
    for request in [schedule(), start_at(1_000), complete_at(1_000), fail("too late")] {
        assert_eq!(ask(&mut registry, 1, request), Err(TransitionError::IllegalTransition));
    }
    assert_eq!(registry.status(1), Some(JobStatus::Completed));
}

#[test]
fn every_step_is_made_known() {
    let mut registry = JobRegistry::new();
    registry.register(job(5, 100, 200)).unwrap();
    let scheduled = registry.transition(5, schedule()).unwrap();
    assert_eq!((scheduled.id, scheduled.status, scheduled.cause), (5, JobStatus::Scheduled, None));
    let started = registry.transition(5, start_at(150)).unwrap();
    assert_eq!((started.id, started.status, started.cause), (5, JobStatus::Started, None));
    let failed = registry.transition(5, fail("carrier lost")).unwrap();
    assert_eq!(failed.id, 5);
    assert_eq!(failed.status, JobStatus::Error);
    assert_eq!(failed.cause, Some("carrier lost".to_string()));
}

#[test]
fn a_window_conflict_leaves_the_job_received() {
    let mut registry = JobRegistry::new();
    registry.register(job(1, 100, 200)).unwrap();
    assert_eq!(
        ask(&mut registry, 1, StepRequest::Schedule { window_conflict: true }),
        Err(TransitionError::WindowConflict)
    );
    assert_eq!(registry.status(1), Some(JobStatus::Received));
    assert_eq!(ask(&mut registry, 1, fail("window taken")), Ok(JobStatus::Error));
}

#[test]
fn a_registered_job_cannot_complete_directly() {
    let mut registry = JobRegistry::new();
    registry.register(job(1, 100, 200)).unwrap();
    assert_eq!(ask(&mut registry, 1, complete_at(1_000)), Err(TransitionError::IllegalTransition));
    assert_eq!(registry.status(1), Some(JobStatus::Received));
}

#[test]
fn a_job_can_fail_at_every_stage() {
    for stage in 0..3 {
        let mut registry = JobRegistry::new();
        registry.register(job(1, 100, 200)).unwrap();
        if stage >= 1 {
            registry.transition(1, schedule()).unwrap();
        }
        if stage >= 2 {
            registry.transition(1, start_at(100)).unwrap();
        }
        assert_eq!(ask(&mut registry, 1, fail("hardware")), Ok(JobStatus::Error));
        assert_eq!(registry.status(1), Some(JobStatus::Error));
        assert_eq!(ask(&mut registry, 1, fail("again")), Err(TransitionError::IllegalTransition));
    }
}

#[test]
fn an_unknown_job_is_reported_first() {
    let mut registry = JobRegistry::new();
    registry.register(job(1, 100, 200)).unwrap();
    assert_eq!(ask(&mut registry, 2, complete_at(0)), Err(TransitionError::UnknownJob));
    assert_eq!(ask(&mut registry, 2, schedule()), Err(TransitionError::UnknownJob));
    assert!(!registry.contains(2));
    assert_eq!(registry.status(1), Some(JobStatus::Received));
}

#[test]
fn jobs_move_independently() {
    let mut registry = JobRegistry::new();
    registry.register(job(1, 100, 200)).unwrap();
    registry.register(job(2, 150, 250)).unwrap();
    registry.transition(1, schedule()).unwrap();
    assert_eq!(registry.status(1), Some(JobStatus::Scheduled));
    assert_eq!(registry.status(2), Some(JobStatus::Received));
    registry.transition(2, fail("conflict")).unwrap();
    assert_eq!(registry.status(1), Some(JobStatus::Scheduled));
    assert_eq!(registry.status(2), Some(JobStatus::Error));
    assert_eq!(registry.job(2).unwrap().satellite_id(), "SAT-2");
}
