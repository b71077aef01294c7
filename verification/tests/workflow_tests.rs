use gh_action_trace::batch::{
    exit_status, BatchCoordinator, BatchReport, RepositoryRef, DEFAULT_RUN_COUNT,
};
use gh_action_trace::error::TraceError;
use gh_action_trace::ident::{span_id_of, trace_id_of};
use gh_action_trace::model::{JobRecord, RunSummary, WorkflowDescriptor};
use gh_action_trace::paginate::{PageRequest, PageResponse};
use gh_action_trace::record::Field;
use gh_action_trace::timestamp::Timestamp;
use gh_action_trace::workflow::{
    Action, Progress, RunEmission, SkippedRun, WorkflowReport, WorkflowOrchestrator,
};

fn workflow(id: u64, name: &str) -> WorkflowDescriptor {
    WorkflowDescriptor { id, name: name.to_string() }
}

fn run_of(id: u64, workflow_id: u64) -> RunSummary {
    RunSummary {
        id,
        name: format!("run-{}", id),
        workflow_id,
        created_at: Timestamp { seconds: 1_614_600_000, nanos: 0 },
        status: "completed".to_string(),
    }
}

fn finished_job(id: u64, run_id: u64) -> JobRecord {
    JobRecord {
        id,
        run_id,
        name: format!("job-{}", id),
        status: "completed".to_string(),
        conclusion: Some("success".to_string()),
        started_at: Some(Timestamp { seconds: 1_614_600_010, nanos: 0 }),
        completed_at: Some(Timestamp { seconds: 1_614_600_020 + id as i64, nanos: 0 }),
        metadata: Field::Record(vec![("id".to_string(), Field::Unsigned(id))]),
    }
}

/// Drives a task to its end against a source of runs and a source of jobs.
fn drive(
    mut task: WorkflowOrchestrator,
    runs: &dyn Fn(PageRequest) -> PageResponse<RunSummary>,
    jobs: &dyn Fn(PageRequest) -> PageResponse<JobRecord>,
) -> (WorkflowReport, Vec<RunEmission>, Vec<Action>) {
    let mut emissions = Vec::new();
    let mut actions = Vec::new();
    loop {
        let action = task.next_action();
        actions.push(action);
        match action {
            Action::FetchRuns(request) => {
                task = task.on_runs_page(runs(request));
            }
            Action::FetchJobs(request) => {
                let (next, emission) = task.on_jobs_page(jobs(request));
                task = next;
                emissions.extend(emission);
            }
            Action::Done => break,
        }
    }
    assert!(task.is_finished());
    (task.into_report(), emissions, actions)
}

const RUN_A: u64 = 1_001;
const RUN_B: u64 = 1_002;

fn two_runs(request: PageRequest) -> PageResponse<RunSummary> {
    if request.page == 1 {
        PageResponse::Page(vec![run_of(RUN_A, request.owner_id), run_of(RUN_B, request.owner_id)])
    } else {
        PageResponse::Page(vec![])
    }
}

fn jobs_of_a_but_not_of_b(request: PageRequest) -> PageResponse<JobRecord> {
    if request.owner_id == RUN_B {
        PageResponse::Unavailable
    } else if request.page == 1 {
        PageResponse::Page(vec![
            finished_job(1, request.owner_id),
            finished_job(2, request.owner_id),
            finished_job(3, request.owner_id),
        ])
    } else {
        PageResponse::Page(vec![])
    }
}

#[test]
fn run_whose_jobs_cannot_be_listed_is_skipped_and_the_batch_goes_on() {
    let task = WorkflowOrchestrator::start(&workflow(7, "W"), DEFAULT_RUN_COUNT);
    let (report, emissions, _) = drive(task, &two_runs, &jobs_of_a_but_not_of_b);

    assert_eq!(emissions.len(), 2);
    assert_eq!(emissions[0].run_id, RUN_A);
    assert_eq!(emissions[0].skipped, None);
    assert_eq!(emissions[0].spans.len(), 4);
    let trace_id = trace_id_of(RUN_A).unwrap();
    assert!(emissions[0].spans.iter().all(|s| s.trace_id == trace_id));
    assert_eq!(emissions[0].spans[0].span_id, span_id_of(1).unwrap());
    assert_eq!(emissions[0].spans[1].span_id, span_id_of(2).unwrap());
    assert_eq!(emissions[0].spans[2].span_id, span_id_of(3).unwrap());
    assert_eq!(emissions[0].spans[3].span_id, span_id_of(RUN_A).unwrap());
    assert_eq!(emissions[0].progress, Progress { completed: 1, total: 2 });

    assert_eq!(emissions[1].run_id, RUN_B);
    assert_eq!(emissions[1].spans, vec![]);
    assert_eq!(emissions[1].skipped, Some(TraceError::JobFetchFailed { run_id: RUN_B }));
    assert_eq!(emissions[1].progress, Progress { completed: 2, total: 2 });

    assert_eq!(
        report,
        WorkflowReport {
            workflow_id: 7,
            workflow_name: "W".to_string(),
            runs_total: 2,
            runs_processed: 2,
            spans_emitted: 4,
            skipped: vec![SkippedRun {
                run_id: RUN_B,
                reason: TraceError::JobFetchFailed { run_id: RUN_B },
            }],
            error: None,
        }
    );
    assert_eq!(report.runs_skipped(), 1);
    assert!(report.listed());

    let coordinator = BatchCoordinator::new(
        RepositoryRef { owner: "o".to_string(), name: "r".to_string() },
        DEFAULT_RUN_COUNT,
    );
    let batch = coordinator.collect(vec![report]);
    assert_eq!(batch.spans_emitted(), 4);
    assert_eq!(batch.runs_processed(), 2);
    assert_eq!(batch.runs_skipped(), 1);
    assert_eq!(batch.workflows_failed(), 0);
    assert_eq!(exit_status(&Ok(batch)), 0);
}

#[test]
fn task_asks_for_runs_then_for_the_jobs_of_each_run_in_turn() {
    let task = WorkflowOrchestrator::start(&workflow(7, "W"), DEFAULT_RUN_COUNT);
    let (_, _, actions) = drive(task, &two_runs, &jobs_of_a_but_not_of_b);
    assert_eq!(
        actions,
        vec![
            Action::FetchRuns(PageRequest { owner_id: 7, page: 1, per_page: 30 }),
            Action::FetchRuns(PageRequest { owner_id: 7, page: 2, per_page: 28 }),
            Action::FetchJobs(PageRequest { owner_id: RUN_A, page: 1, per_page: 100 }),
            Action::FetchJobs(PageRequest { owner_id: RUN_A, page: 2, per_page: 100 }),
            Action::FetchJobs(PageRequest { owner_id: RUN_B, page: 1, per_page: 100 }),
            Action::Done,
        ]
    );
}

#[test]
fn failed_run_listing_ends_the_workflow_with_an_error() {
    let task = WorkflowOrchestrator::start(&workflow(7, "W"), 30);
    let (report, emissions, actions) =
        drive(task, &|_| PageResponse::Unavailable, &jobs_of_a_but_not_of_b);
    assert_eq!(emissions, vec![]);
    assert_eq!(actions.len(), 2);
    assert_eq!(report.error, Some(TraceError::SourceUnavailable));
    assert!(!report.listed());
    assert_eq!(report.runs_processed, 0);
    assert_eq!(report.spans_emitted, 0);
    assert_eq!(report.skipped, vec![]);
}

#[test]
fn workflow_without_runs_is_finished_after_the_listing() {
    let task = WorkflowOrchestrator::start(&workflow(7, "W"), 30);
    let (report, emissions, actions) =
        drive(task, &|_| PageResponse::Page(vec![]), &jobs_of_a_but_not_of_b);
    assert_eq!(emissions, vec![]);
    assert_eq!(
        actions,
        vec![Action::FetchRuns(PageRequest { owner_id: 7, page: 1, per_page: 30 }), Action::Done]
    );
    assert_eq!(report.error, None);
    assert_eq!(report.runs_total, 0);
    assert_eq!(report.runs_processed, 0);
}

#[test]
fn asking_for_no_runs_finishes_at_once() {
    let task = WorkflowOrchestrator::start(&workflow(7, "W"), 0);
    assert!(task.is_finished());
    assert_eq!(task.next_action(), Action::Done);
    assert_eq!(task.report().workflow_name, "W");
    assert_eq!(task.report().runs_total, 0);
}

#[test]
fn run_with_identifier_zero_is_skipped_as_malformed() {
    let runs = |request: PageRequest| {
        if request.page == 1 {
            PageResponse::Page(vec![run_of(0, 7), run_of(RUN_A, 7)])
        } else {
            PageResponse::Page(vec![])
        }
    };
    let jobs = |_: PageRequest| PageResponse::Page(vec![]);
    let task = WorkflowOrchestrator::start(&workflow(7, "W"), 30);
    let (report, emissions, _) = drive(task, &runs, &jobs);
    assert_eq!(emissions.len(), 2);
    assert_eq!(emissions[0].skipped, Some(TraceError::InvalidIdentifier));
    assert_eq!(emissions[1].spans.len(), 1);
    assert_eq!(
        report.skipped,
        vec![SkippedRun { run_id: 0, reason: TraceError::InvalidIdentifier }]
    );
    assert_eq!(report.spans_emitted, 1);
    assert_eq!(report.runs_processed, 2);
}

#[test]
fn answers_of_the_wrong_kind_change_nothing() {
    let task = WorkflowOrchestrator::start(&workflow(7, "W"), 30);
    let (task, emission) = task.on_jobs_page(PageResponse::Unavailable);
    assert_eq!(emission, None);
    assert_eq!(
        task.next_action(),
        Action::FetchRuns(PageRequest { owner_id: 7, page: 1, per_page: 30 })
    );
    let task = task.on_runs_page(PageResponse::Page(vec![run_of(RUN_A, 7)]));
    let task = task.on_runs_page(PageResponse::Page(vec![]));
    let task = task.on_runs_page(PageResponse::Unavailable);
    assert_eq!(
        task.next_action(),
        Action::FetchJobs(PageRequest { owner_id: RUN_A, page: 1, per_page: 100 })
    );
    assert_eq!(task.report().error, None);
}

#[test]
fn jobs_that_fill_several_pages_are_all_traced() {
    let runs = |request: PageRequest| {
        if request.page == 1 {
            PageResponse::Page(vec![run_of(RUN_A, 7)])
        } else {
            PageResponse::Page(vec![])
        }
    };
    let jobs = |request: PageRequest| {
        let first = (request.page - 1) * 100;
        let mut page = Vec::new();
        let mut n = first;
        while n < 150 && n < first + 100 {
            page.push(finished_job(n + 1, request.owner_id));
            n += 1;
        }
        PageResponse::Page(page)
    };
    let task = WorkflowOrchestrator::start(&workflow(7, "W"), 1);
    let (report, emissions, actions) = drive(task, &runs, &jobs);
    assert_eq!(emissions.len(), 1);
    assert_eq!(emissions[0].spans.len(), 151);
    assert_eq!(report.spans_emitted, 151);
    assert_eq!(actions.len(), 5);
}

#[test]
fn coordinator_plans_one_task_for_each_workflow() {
    let coordinator = BatchCoordinator::new(
        RepositoryRef { owner: "rust-lang".to_string(), name: "rust".to_string() },
        5,
    );
    assert_eq!(coordinator.repository.service_name(), "rust-lang/rust");
    let tasks = coordinator
        .plan(PageResponse::Page(vec![workflow(1, "build"), workflow(2, "test")]))
        .unwrap();
    assert_eq!(tasks.len(), 2);
    assert_eq!(
        tasks[0].next_action(),
        Action::FetchRuns(PageRequest { owner_id: 1, page: 1, per_page: 5 })
    );
    assert_eq!(
        tasks[1].next_action(),
        Action::FetchRuns(PageRequest { owner_id: 2, page: 1, per_page: 5 })
    );
    assert_eq!(tasks[1].report().workflow_name, "test");
    assert_eq!(coordinator.plan(PageResponse::Page(vec![])).unwrap().len(), 0);
}

#[test]
fn failed_workflow_listing_ends_the_batch() {
    let coordinator = BatchCoordinator::new(
        RepositoryRef { owner: "o".to_string(), name: "r".to_string() },
        DEFAULT_RUN_COUNT,
    );
    let planned = coordinator.plan(PageResponse::Unavailable);
    assert_eq!(planned.err(), Some(TraceError::SourceUnavailable));
    assert_eq!(exit_status(&Err(TraceError::SourceUnavailable)), 1);
}

#[test]
fn one_workflow_failing_does_not_touch_the_others() {
    let coordinator = BatchCoordinator::new(
        RepositoryRef { owner: "o".to_string(), name: "r".to_string() },
        DEFAULT_RUN_COUNT,
    );
    let mut tasks = coordinator
        .plan(PageResponse::Page(vec![workflow(1, "broken"), workflow(2, "fine")]))
        .unwrap();
    let fine = tasks.pop().unwrap();
    let broken = tasks.pop().unwrap();
    let (broken_report, _, _) =
        drive(broken, &|_| PageResponse::Unavailable, &jobs_of_a_but_not_of_b);
    let (fine_report, _, _) = drive(fine, &two_runs, &jobs_of_a_but_not_of_b);
    let batch = coordinator.collect(vec![broken_report, fine_report]);
    assert_eq!(batch.workflows.len(), 2);
    assert_eq!(batch.workflows_failed(), 1);
    assert_eq!(batch.runs_processed(), 2);
    assert_eq!(batch.runs_skipped(), 1);
    assert_eq!(batch.spans_emitted(), 4);
    assert_eq!(exit_status(&Ok(batch)), 0);
}

#[test]
fn totals_stop_at_the_largest_number() {
    let report = |spans: u64| WorkflowReport {
        workflow_id: 1,
        workflow_name: "w".to_string(),
        runs_total: 1,
        runs_processed: 1,
        spans_emitted: spans,
        skipped: vec![],
        error: None,
    };
    let batch = BatchReport { workflows: vec![report(u64::MAX - 1), report(5)] };
    assert_eq!(batch.spans_emitted(), u64::MAX);
    assert_eq!(batch.runs_processed(), 2);
    let batch = BatchReport { workflows: vec![] };
    assert_eq!(batch.spans_emitted(), 0);
    assert_eq!(batch.workflows_failed(), 0);
}

#[test]
fn default_run_count_is_thirty() {
    assert_eq!(DEFAULT_RUN_COUNT, 30);
}

#[test]
fn reports_are_summed_up_in_lines() {
    let traced = WorkflowReport {
        workflow_id: 1,
        workflow_name: "build".to_string(),
        runs_total: 3,
        runs_processed: 3,
        spans_emitted: 12,
        skipped: vec![
            SkippedRun { run_id: 41, reason: TraceError::JobFetchFailed { run_id: 41 } },
            SkippedRun { run_id: 0, reason: TraceError::InvalidIdentifier },
        ],
        error: None,
    };
    let failed = WorkflowReport {
        workflow_id: 2,
        workflow_name: "deploy".to_string(),
        runs_total: 0,
        runs_processed: 0,
        spans_emitted: 0,
        skipped: vec![],
        error: Some(TraceError::SourceUnavailable),
    };
    assert_eq!(traced.summary(), "build: 3 of 3 runs processed, 2 skipped, 12 spans");
    assert_eq!(failed.summary(), "deploy: source unavailable: a listing request failed");
    assert_eq!(traced.skipped[0].summary(), "run 41: job listing failed for run 41");
    let batch = BatchReport { workflows: vec![traced, failed] };
    assert_eq!(
        batch.summary_lines(),
        vec![
            "build: 3 of 3 runs processed, 2 skipped, 12 spans".to_string(),
            "  run 41: job listing failed for run 41".to_string(),
            "  run 0: invalid identifier: zero is reserved".to_string(),
            "deploy: source unavailable: a listing request failed".to_string(),
            "2 workflows, 1 failed; 3 runs processed, 2 skipped; 12 spans".to_string(),
        ]
    );
    assert_eq!(
        BatchReport { workflows: vec![] }.summary_lines(),
        vec!["0 workflows, 0 failed; 0 runs processed, 0 skipped; 0 spans".to_string()]
    );
}
