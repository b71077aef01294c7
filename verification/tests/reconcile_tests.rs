use gh_action_trace::model::{JobPhase, JobRecord, RunSummary};
use gh_action_trace::reconcile::effective_end;
use gh_action_trace::record::Field;
use gh_action_trace::timestamp::Timestamp;

fn at(seconds: i64) -> Timestamp {
    Timestamp { seconds, nanos: 0 }
}

fn run_created_at(created_at: Timestamp) -> RunSummary {
    RunSummary {
        id: 7,
        name: "ci".to_string(),
        workflow_id: 1,
        created_at,
        status: "completed".to_string(),
    }
}

fn job_with_times(
    id: u64,
    started_at: Option<Timestamp>,
    completed_at: Option<Timestamp>,
) -> JobRecord {
    JobRecord {
        id,
        run_id: 7,
        name: "job".to_string(),
        status: "completed".to_string(),
        conclusion: None,
        started_at,
        completed_at,
        metadata: Field::Record(vec![]),
    }
}

#[test]
fn effective_end_without_jobs_is_the_creation_time() {
    let run = run_created_at(at(1_000));
    assert_eq!(effective_end(&run, &vec![]), at(1_000));
}

#[test]
fn effective_end_is_the_latest_completion() {
    let run = run_created_at(at(1_000));
    let jobs = vec![
        job_with_times(1, Some(at(1_001)), Some(at(1_100))),
        job_with_times(2, Some(at(1_001)), Some(at(1_200))),
        job_with_times(3, Some(at(1_001)), None),
    ];
    assert_eq!(effective_end(&run, &jobs), at(1_200));
}

#[test]
fn effective_end_does_not_depend_on_the_order_of_jobs() {
    let run = run_created_at(at(1_000));
    let jobs = vec![
        job_with_times(3, Some(at(1_001)), None),
        job_with_times(2, Some(at(1_001)), Some(at(1_200))),
        job_with_times(1, Some(at(1_001)), Some(at(1_100))),
    ];
    assert_eq!(effective_end(&run, &jobs), at(1_200));
}

#[test]
fn effective_end_with_only_running_jobs_is_the_creation_time() {
    let run = run_created_at(at(1_000));
    let jobs = vec![job_with_times(1, Some(at(1_001)), None), job_with_times(2, None, None)];
    assert_eq!(effective_end(&run, &jobs), at(1_000));
}

#[test]
fn effective_end_goes_by_the_jobs_even_before_the_creation_time() {
    let run = run_created_at(at(1_000));
    let jobs = vec![job_with_times(1, Some(at(900)), Some(at(950)))];
    assert_eq!(effective_end(&run, &jobs), at(950));
}

#[test]
fn effective_end_compares_nanoseconds_among_equal_seconds() {
    let run = run_created_at(at(1_000));
    let jobs = vec![
        job_with_times(1, Some(at(1_001)), Some(Timestamp { seconds: 1_100, nanos: 5 })),
        job_with_times(2, Some(at(1_001)), Some(Timestamp { seconds: 1_100, nanos: 9 })),
        job_with_times(3, Some(at(1_001)), Some(Timestamp { seconds: 1_099, nanos: 999_999_999 })),
    ];
    assert_eq!(effective_end(&run, &jobs), Timestamp { seconds: 1_100, nanos: 9 });
}

#[test]
fn effective_end_with_equal_completions_is_that_completion() {
    let run = run_created_at(at(1_000));
    let jobs = vec![
        job_with_times(1, Some(at(1_001)), Some(at(1_100))),
        job_with_times(2, Some(at(1_001)), Some(at(1_100))),
    ];
    assert_eq!(effective_end(&run, &jobs), at(1_100));
}

#[test]
fn job_phase_follows_the_times() {
    assert_eq!(job_with_times(1, None, None).current_phase(), JobPhase::Pending);
    assert_eq!(job_with_times(1, None, Some(at(5))).current_phase(), JobPhase::Pending);
    assert_eq!(job_with_times(1, Some(at(3)), None).current_phase(), JobPhase::Started(at(3)));
    assert_eq!(
        job_with_times(1, Some(at(3)), Some(at(5))).current_phase(),
        JobPhase::Completed(at(3), at(5))
    );
}

#[test]
fn job_is_well_formed_when_its_times_fit() {
    assert!(job_with_times(1, None, None).is_well_formed());
    assert!(job_with_times(1, Some(at(3)), None).is_well_formed());
    assert!(job_with_times(1, Some(at(3)), Some(at(3))).is_well_formed());
    assert!(job_with_times(1, Some(at(3)), Some(at(5))).is_well_formed());
    assert!(!job_with_times(1, None, Some(at(5))).is_well_formed());
    assert!(!job_with_times(1, Some(at(6)), Some(at(5))).is_well_formed());
}
