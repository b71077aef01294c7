use gh_action_trace::error::TraceError;
use gh_action_trace::ident::{span_id_of, trace_id_of};
use gh_action_trace::model::{JobRecord, RunSummary, SpanDescriptor};
use gh_action_trace::record::{Attribute, Field};
use gh_action_trace::timestamp::Timestamp;
use gh_action_trace::trace::{
    assemble_run_trace, build_run_trace, job_span, push_member, run_record, run_span, SkipReason,
};

fn moment(seconds: i64) -> Timestamp {
    Timestamp { seconds, nanos: 0 }
}

fn sample_run(id: u64) -> RunSummary {
    RunSummary {
        id,
        name: "CI".to_string(),
        workflow_id: 55,
        created_at: moment(1_614_600_000),
        status: "completed".to_string(),
    }
}

fn sample_job(id: u64, started: Option<i64>, completed: Option<i64>) -> JobRecord {
    JobRecord {
        id,
        run_id: 900,
        name: format!("job-{}", id),
        status: "completed".to_string(),
        conclusion: Some("success".to_string()),
        started_at: started.map(moment),
        completed_at: completed.map(moment),
        metadata: Field::Record(vec![
            ("id".to_string(), Field::Unsigned(id)),
            ("runner".to_string(), Field::Null),
            ("labels".to_string(), Field::List(vec![Field::Unsigned(1), Field::Unsigned(2)])),
        ]),
    }
}

fn pair(key: &str, value: &str) -> Attribute {
    Attribute { key: key.to_string(), value: value.to_string() }
}

fn run_attributes(id: &str) -> Vec<Attribute> {
    vec![
        pair("id", id),
        pair("name", "\"CI\""),
        pair("workflow_id", "55"),
        pair("created_at", "\"2021-03-01T12:00:00Z\""),
        pair("status", "\"completed\""),
    ]
}

#[test]
fn job_span_carries_the_times_and_the_metadata_of_the_job() {
    let trace_id = trace_id_of(900).unwrap();
    let span = job_span(trace_id, &sample_job(12, Some(1_614_600_010), Some(1_614_600_050)));
    assert_eq!(
        span,
        Ok(SpanDescriptor {
            trace_id,
            span_id: span_id_of(12).unwrap(),
            name: "job-12".to_string(),
            start: moment(1_614_600_010),
            end: Some(moment(1_614_600_050)),
            attributes: vec![pair("id", "12"), pair("labels", "1,2")],
            status_message: "completed".to_string(),
        })
    );
}

#[test]
fn job_span_of_a_running_job_has_no_end() {
    let trace_id = trace_id_of(900).unwrap();
    let span = job_span(trace_id, &sample_job(12, Some(1_614_600_010), None)).unwrap();
    assert_eq!(span.start, moment(1_614_600_010));
    assert_eq!(span.end, None);
}

#[test]
fn job_without_start_time_gives_no_span() {
    let trace_id = trace_id_of(900).unwrap();
    assert_eq!(job_span(trace_id, &sample_job(12, None, None)), Err(SkipReason::NotStarted));
    assert_eq!(
        job_span(trace_id, &sample_job(12, None, Some(1_614_600_050))),
        Err(SkipReason::NotStarted)
    );
}

#[test]
fn job_with_identifier_zero_gives_no_span() {
    let trace_id = trace_id_of(900).unwrap();
    assert_eq!(
        job_span(trace_id, &sample_job(0, Some(1), Some(2))),
        Err(SkipReason::Malformed(TraceError::InvalidIdentifier))
    );
}

#[test]
fn job_whose_metadata_is_no_record_gives_no_span() {
    let trace_id = trace_id_of(900).unwrap();
    let mut job = sample_job(12, Some(1), Some(2));
    job.metadata = Field::List(vec![]);
    assert_eq!(
        job_span(trace_id, &job),
        Err(SkipReason::Malformed(TraceError::UnsupportedRecordShape))
    );
}

#[test]
fn run_record_lists_the_fields_of_the_run() {
    let record = run_record(&sample_run(900), Some("then".to_string()));
    assert_eq!(
        record,
        Field::Record(vec![
            ("id".to_string(), Field::Unsigned(900)),
            ("name".to_string(), Field::Text("CI".to_string())),
            ("workflow_id".to_string(), Field::Unsigned(55)),
            ("created_at".to_string(), Field::Text("then".to_string())),
            ("status".to_string(), Field::Text("completed".to_string())),
        ])
    );
    let record = run_record(&sample_run(900), None);
    assert_eq!(
        record,
        Field::Record(vec![
            ("id".to_string(), Field::Unsigned(900)),
            ("name".to_string(), Field::Text("CI".to_string())),
            ("workflow_id".to_string(), Field::Unsigned(55)),
            ("created_at".to_string(), Field::Null),
            ("status".to_string(), Field::Text("completed".to_string())),
        ])
    );
}

#[test]
fn push_member_adds_at_the_end() {
    let mut members = vec![("a".to_string(), Field::Null)];
    push_member(&mut members, "b", Field::Bool(true));
    assert_eq!(
        members,
        vec![("a".to_string(), Field::Null), ("b".to_string(), Field::Bool(true))]
    );
}

#[test]
fn run_span_runs_from_creation_to_the_latest_completion() {
    let jobs = vec![
        sample_job(1, Some(1_614_600_010), Some(1_614_600_050)),
        sample_job(2, Some(1_614_600_010), Some(1_614_600_090)),
        sample_job(3, Some(1_614_600_010), None),
    ];
    let span = run_span(&sample_run(900), &jobs, Some("2021-03-01T12:00:00Z".to_string()));
    assert_eq!(
        span,
        Ok(SpanDescriptor {
            trace_id: trace_id_of(900).unwrap(),
            span_id: span_id_of(900).unwrap(),
            name: "CI".to_string(),
            start: moment(1_614_600_000),
            end: Some(moment(1_614_600_090)),
            attributes: run_attributes("900"),
            status_message: String::new(),
        })
    );
}

#[test]
fn run_span_without_creation_text_has_no_such_attribute() {
    let span = run_span(&sample_run(900), &vec![], None).unwrap();
    assert_eq!(
        span.attributes,
        vec![
            pair("id", "900"),
            pair("name", "\"CI\""),
            pair("workflow_id", "55"),
            pair("status", "\"completed\""),
        ]
    );
    assert_eq!(span.end, Some(moment(1_614_600_000)));
}

#[test]
fn run_with_identifier_zero_gives_no_span() {
    assert_eq!(run_span(&sample_run(0), &vec![], None), Err(TraceError::InvalidIdentifier));
    assert_eq!(build_run_trace(&sample_run(0), &Ok(vec![])), Err(TraceError::InvalidIdentifier));
}

#[test]
fn trace_holds_the_job_spans_and_then_the_run_span() {
    let jobs = vec![
        sample_job(1, Some(1_614_600_010), Some(1_614_600_050)),
        sample_job(2, None, None),
        sample_job(3, Some(1_614_600_020), Some(1_614_600_090)),
        sample_job(0, Some(1_614_600_020), Some(1_614_600_095)),
    ];
    let spans = build_run_trace(&sample_run(900), &Ok(jobs)).unwrap();
    assert_eq!(spans.len(), 3);
    let trace_id = trace_id_of(900).unwrap();
    assert!(spans.iter().all(|s| s.trace_id == trace_id));
    assert_eq!(spans[0].span_id, span_id_of(1).unwrap());
    assert_eq!(spans[1].span_id, span_id_of(3).unwrap());
    assert_eq!(spans[2].span_id, span_id_of(900).unwrap());
    assert_eq!(spans[2].name, "CI");
    assert_eq!(spans[2].start, moment(1_614_600_000));
    assert_eq!(spans[2].end, Some(moment(1_614_600_095)));
    assert_eq!(spans[2].attributes, run_attributes("900"));
}

#[test]
fn trace_of_a_run_without_jobs_is_the_run_span_alone() {
    let spans = build_run_trace(&sample_run(900), &Ok(vec![])).unwrap();
    assert_eq!(spans.len(), 1);
    assert_eq!(spans[0].span_id, span_id_of(900).unwrap());
    assert_eq!(spans[0].start, moment(1_614_600_000));
    assert_eq!(spans[0].end, Some(moment(1_614_600_000)));
}

#[test]
fn failed_job_listing_skips_the_run() {
    assert_eq!(
        build_run_trace(&sample_run(900), &Err(TraceError::SourceUnavailable)),
        Err(TraceError::JobFetchFailed { run_id: 900 })
    );
    assert_eq!(
        assemble_run_trace(&sample_run(901), &Err(TraceError::SourceUnavailable), None),
        Err(TraceError::JobFetchFailed { run_id: 901 })
    );
}

#[test]
fn building_a_trace_twice_gives_the_same_spans() {
    let jobs = || {
        vec![
            sample_job(1, Some(1_614_600_010), Some(1_614_600_050)),
            sample_job(2, Some(1_614_600_020), None),
        ]
    };
    let first = build_run_trace(&sample_run(900), &Ok(jobs()));
    let second = build_run_trace(&sample_run(900), &Ok(jobs()));
    assert!(first.is_ok());
    assert_eq!(first, second);
}
