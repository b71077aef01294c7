use vstd::prelude::*;
use vstd::string::*;

use crate::error::TraceError;
use crate::ident::{span_id_bytes, span_id_of, trace_id_bytes, trace_id_of};
use crate::model::{
    jobs_view,
    spans_view,
    JobPhase,
    JobRecord,
    JobView,
    RunSummary,
    RunView,
    SpanDescriptor,
    SpanView,
};
use crate::reconcile::{
    effective_end,
    effective_end_at,
    latest_completion,
    lemma_latest_completion,
};
use crate::record::{
    flatten,
    flatten_outcome,
    flattened,
    members_view,
    Field,
    FieldView,
};
use crate::timestamp::rfc3339_text;

verus! {

/// Why a job gives no span.
#[derive(Clone, Copy, Debug, PartialEq, Eq, Structural)]
pub enum SkipReason {
    /// The job has no start time: it was never dispatched.
    NotStarted,
    /// What the source told of the job cannot be turned into a span.
    Malformed(TraceError),
}

/// The characters of a text that may be missing.
pub open spec fn text_view(text: Option<String>) -> Option<Seq<char>> {
    match text {
        Some(t) => Some(t@),
        None => None,
    }
}

/// The jobs of a listing that ended well, or the error with which it ended.
pub open spec fn fetched_view(fetched: Result<Vec<JobRecord>, TraceError>) -> Result<
    Seq<JobView>,
    TraceError,
> {
    match fetched {
        Ok(jobs) => Ok(jobs_view(jobs@)),
        Err(e) => Err(e),
    }
}

/// The fields of a run as a metadata record. `created_text` is the creation
/// time as text; where there is none, the field is absent.
pub open spec fn run_members(run: RunView, created_text: Option<Seq<char>>) -> Seq<
    (Seq<char>, FieldView),
> {
    seq![
        ("id"@, FieldView::Unsigned(run.id)),
        ("name"@, FieldView::Text(run.name)),
        ("workflow_id"@, FieldView::Unsigned(run.workflow_id)),
        (
            "created_at"@,
            match created_text {
                Some(text) => FieldView::Text(text),
                None => FieldView::Null,
            },
        ),
        ("status"@, FieldView::Text(run.status)),
    ]
}

/// The span of a job of the run with the given trace identifier, or why the
/// job gives none.
pub open spec fn job_span_outcome(trace_id: Seq<u8>, job: JobView) -> Result<
    SpanView,
    SkipReason,
> {
    match job.phase() {
        JobPhase::Pending => Err(SkipReason::NotStarted),
        _ => if job.id == 0 {
            Err(SkipReason::Malformed(TraceError::InvalidIdentifier))
        } else {
            match flatten_outcome(job.metadata) {
                Err(e) => Err(SkipReason::Malformed(e)),
                Ok(attributes) => Ok(
                    SpanView {
                        trace_id,
                        span_id: span_id_bytes(job.id),
                        name: job.name,
                        start: job.started_at->0,
                        end: job.completed_at,
                        attributes,
                        status_message: job.status,
                    },
                ),
            }
        },
    }
}

/// The spans of the jobs that give one, in the order of the jobs.
pub open spec fn job_spans(trace_id: Seq<u8>, jobs: Seq<JobView>) -> Seq<SpanView>
    decreases jobs.len(),
{
    if jobs.len() == 0 {
        Seq::empty()
    } else {
        let earlier = job_spans(trace_id, jobs.drop_last());
        match job_span_outcome(trace_id, jobs.last()) {
            Ok(span) => earlier.push(span),
            Err(_) => earlier,
        }
    }
}

/// The span of a run: from its creation to the latest completion among its
/// jobs, with the fields of the run as attributes.
pub open spec fn run_span_view(
    run: RunView,
    jobs: Seq<JobView>,
    created_text: Option<Seq<char>>,
) -> SpanView {
    SpanView {
        trace_id: trace_id_bytes(run.id),
        span_id: span_id_bytes(run.id),
        name: run.name,
        start: run.created_at,
        end: Some(effective_end_at(run.created_at, jobs)),
        attributes: flattened(run_members(run, created_text)),
        status_message: Seq::empty(),
    }
}

/// The trace of a run: the spans of its jobs, then the span of the run. A
/// run whose jobs could not be listed gives none, and neither does a run
/// whose identifier is zero.
pub open spec fn run_trace_outcome(
    run: RunView,
    fetched: Result<Seq<JobView>, TraceError>,
    created_text: Option<Seq<char>>,
) -> Result<Seq<SpanView>, TraceError> {
    match fetched {
        Err(_) => Err(TraceError::JobFetchFailed { run_id: run.id }),
        Ok(jobs) => if run.id == 0 {
            Err(TraceError::InvalidIdentifier)
        } else {
            Ok(
                job_spans(trace_id_bytes(run.id), jobs).push(
                    run_span_view(run, jobs, created_text),
                ),
            )
        },
    }
}

/// Whether `res` holds what `outcome` says: the same error, or spans that
/// hold what the outcome lists.
pub open spec fn is_trace_outcome(
    res: Result<Vec<SpanDescriptor>, TraceError>,
    outcome: Result<Seq<SpanView>, TraceError>,
) -> bool {
    match res {
        Ok(spans) => outcome == Ok::<Seq<SpanView>, TraceError>(spans_view(spans@)),
        Err(e) => outcome == Err::<Seq<SpanView>, TraceError>(e),
    }
}

/// Adds a member to the members of a record.
pub fn push_member(members: &mut Vec<(String, Field)>, name: &str, field: Field)
    ensures
        members_view(final(members)@) == members_view(old(members)@).push((name@, field@)),
{
    let ghost before = members@;
    members.push((String::from_str(name), field));
    assert(members@.drop_last() =~= before);
}

/// Writes the fields of a run as a metadata record. `created_text` is the
/// creation time of the run as text, where it has one.
pub fn run_record(run: &RunSummary, created_text: Option<String>) -> (record: Field)
    ensures
        record@ == FieldView::Record(run_members(run@, text_view(created_text))),
{
    let mut members: Vec<(String, Field)> = Vec::new();
    assert(members_view(members@) =~= Seq::empty());
    push_member(&mut members, "id", Field::Unsigned(run.id));
    push_member(&mut members, "name", Field::Text(run.name.clone()));
    push_member(&mut members, "workflow_id", Field::Unsigned(run.workflow_id));
    let created = match created_text {
        Some(text) => Field::Text(text),
        None => Field::Null,
    };
    push_member(&mut members, "created_at", created);
    push_member(&mut members, "status", Field::Text(run.status.clone()));
    assert(members_view(members@) =~= run_members(run@, text_view(created_text)));
    Field::Record(members)
}

/// Builds the span of one job of the run with the given trace identifier,
/// or says why the job gives none.
pub fn job_span(trace_id: [u8; 16], job: &JobRecord) -> (res: Result<SpanDescriptor, SkipReason>)
    ensures
        res is Ok == job_span_outcome(trace_id@, job@) is Ok,
        res matches Ok(span) ==> job_span_outcome(trace_id@, job@) == Ok::<SpanView, SkipReason>(
            span@,
        ),
        res matches Err(reason) ==> job_span_outcome(trace_id@, job@) == Err::<
            SpanView,
            SkipReason,
        >(reason),
{
    let (start, end) = match job.current_phase() {
        JobPhase::Pending => {
            return Err(SkipReason::NotStarted);
        },
        JobPhase::Started(started) => (started, None),
        JobPhase::Completed(started, completed) => (started, Some(completed)),
    };
    let span_id = match span_id_of(job.id) {
        Ok(bytes) => bytes,
        Err(e) => {
            return Err(SkipReason::Malformed(e));
        },
    };
    let attributes = match flatten(&job.metadata) {
        Ok(attributes) => attributes,
        Err(e) => {
            return Err(SkipReason::Malformed(e));
        },
    };
    Ok(
        SpanDescriptor {
            trace_id,
            span_id,
            name: job.name.clone(),
            start,
            end,
            attributes,
            status_message: job.status.clone(),
        },
    )
}

/// Builds the span of a run from the run, its jobs, and the creation time
/// of the run as text, where it has one.
pub fn run_span(run: &RunSummary, jobs: &Vec<JobRecord>, created_text: Option<String>) -> (res:
    Result<SpanDescriptor, TraceError>)
    ensures
        res is Ok == (run.id != 0),
        res matches Ok(span) ==> span@ == run_span_view(
            run@,
            jobs_view(jobs@),
            text_view(created_text),
        ),
        res matches Err(e) ==> e == TraceError::InvalidIdentifier,
{
    let trace_id = match trace_id_of(run.id) {
        Ok(bytes) => bytes,
        Err(e) => {
            return Err(e);
        },
    };
    let span_id = match span_id_of(run.id) {
        Ok(bytes) => bytes,
        Err(e) => {
            return Err(e);
        },
    };
    let record = run_record(run, created_text);
    let attributes = match flatten(&record) {
        Ok(attributes) => attributes,
        Err(e) => {
            return Err(e);
        },
    };
    Ok(
        SpanDescriptor {
            trace_id,
            span_id,
            name: run.name.clone(),
            start: run.created_at,
            end: Some(effective_end(run, jobs)),
            attributes,
            status_message: String::new(),
        },
    )
}

/// Builds the trace of a run from the outcome of listing its jobs and from
/// the creation time of the run as text, where it has one: a span for each
/// job that gives one, in the order of the jobs, then the span of the run.
pub fn assemble_run_trace(
    run: &RunSummary,
    fetched: &Result<Vec<JobRecord>, TraceError>,
    created_text: Option<String>,
) -> (res: Result<Vec<SpanDescriptor>, TraceError>)
    ensures
        is_trace_outcome(
            res,
            run_trace_outcome(run@, fetched_view(*fetched), text_view(created_text)),
        ),
{
    let jobs = match fetched {
        Ok(jobs) => jobs,
        Err(_) => {
            return Err(TraceError::JobFetchFailed { run_id: run.id });
        },
    };
    let trace_id = match trace_id_of(run.id) {
        Ok(bytes) => bytes,
        Err(e) => {
            return Err(e);
        },
    };
    let ghost viewed = jobs_view(jobs@);
    let mut spans: Vec<SpanDescriptor> = Vec::new();
    let mut i: usize = 0;
    assert(spans_view(spans@) =~= job_spans(trace_id@, viewed.take(0)));
    while i < jobs.len()
        invariant
            i <= jobs.len(),
            viewed == jobs_view(jobs@),
            spans_view(spans@) == job_spans(trace_id@, viewed.take(i as int)),
        decreases jobs.len() - i,
    {
        proof {
            let next = viewed.take(i + 1);
            assert(next.drop_last() =~= viewed.take(i as int));
            assert(next.last() == jobs@[i as int]@);
        }
        match job_span(trace_id, &jobs[i]) {
            Ok(span) => {
                assert(spans_view(spans@.push(span)) =~= spans_view(spans@).push(span@));
                spans.push(span);
            },
            Err(_) => {},
        }
        i += 1;
    }
    assert(viewed.take(jobs.len() as int) =~= viewed);
    match run_span(run, jobs, created_text) {
        Ok(span) => {
            assert(spans_view(spans@.push(span)) =~= spans_view(spans@).push(span@));
            spans.push(span);
            Ok(spans)
        },
        Err(e) => Err(e),
    }
}

/// Builds the trace of a run from the outcome of listing its jobs: a span
/// for each job that gives one, in the order of the jobs, then the span of
/// the run. A listing that failed gives no span: the run is skipped.
pub fn build_run_trace(run: &RunSummary, fetched: &Result<Vec<JobRecord>, TraceError>) -> (res:
    Result<Vec<SpanDescriptor>, TraceError>)
    ensures
        is_trace_outcome(
            res,
            run_trace_outcome(
                run@,
                fetched_view(*fetched),
                rfc3339_text(run.created_at.seconds, run.created_at.nanos),
            ),
        ),
{
    let created_text = run.created_at.to_rfc3339();
    assemble_run_trace(run, fetched, created_text)
}

/// A job whose times fit together and that has completed is not held to be
/// pending, and its span, where it gives one, does not end before it
/// starts.
pub proof fn lemma_well_formed_job_span(trace_id: Seq<u8>, job: JobView)
    requires
        job.well_formed(),
    ensures
        job.completed_at is Some ==> job_span_outcome(trace_id, job) != Err::<
            SpanView,
            SkipReason,
        >(SkipReason::NotStarted),
        job_span_outcome(trace_id, job) matches Ok(span) ==> (span.end matches Some(end)
            ==> span.start.at_or_before(end)),
{
}

/// Every span of a job carries the trace identifier that it was built for.
pub proof fn lemma_job_spans_share_trace(trace_id: Seq<u8>, jobs: Seq<JobView>)
    ensures
        job_spans(trace_id, jobs).len() <= jobs.len(),
        forall|k: int|
            0 <= k < job_spans(trace_id, jobs).len() ==> (#[trigger] job_spans(
                trace_id,
                jobs,
            )[k]).trace_id == trace_id,
    decreases jobs.len(),
{
    if jobs.len() > 0 {
        lemma_job_spans_share_trace(trace_id, jobs.drop_last());
    }
}

/// No span of a job ends after the latest completion among the jobs.
pub proof fn lemma_job_spans_end_in_time(trace_id: Seq<u8>, jobs: Seq<JobView>, scope: Seq<
    JobView,
>)
    requires
        jobs.is_prefix_of(scope),
    ensures
        forall|k: int|
            0 <= k < job_spans(trace_id, jobs).len() ==> ((#[trigger] job_spans(
                trace_id,
                jobs,
            )[k]).end matches Some(end) ==> latest_completion(scope) matches Some(latest)
                && end.at_or_before(latest)),
    decreases jobs.len(),
{
    if jobs.len() > 0 {
        lemma_job_spans_end_in_time(trace_id, jobs.drop_last(), scope);
        lemma_latest_completion(scope);
        let last = jobs.last();
        assert(last == scope[jobs.len() - 1]);
        if let Ok(span) = job_span_outcome(trace_id, last) {
            if let Some(end) = span.end {
                assert(scope[jobs.len() - 1].completed_at is Some);
            }
        }
    }
}

/// The trace of a run holds at most one span for each job and one for the
/// run; the span of the run comes last; every span carries the trace
/// identifier of the run; and no span of a job ends after the span of the
/// run does.
pub proof fn lemma_run_trace_shape(
    run: RunView,
    jobs: Seq<JobView>,
    created_text: Option<Seq<char>>,
)
    requires
        run.id != 0,
    ensures
        run_trace_outcome(run, Ok(jobs), created_text) matches Ok(spans) && {
            &&& 1 <= spans.len() <= jobs.len() + 1
            &&& spans.last() == run_span_view(run, jobs, created_text)
            &&& spans.drop_last() == job_spans(trace_id_bytes(run.id), jobs)
            &&& forall|k: int|
                0 <= k < spans.len() ==> (#[trigger] spans[k]).trace_id == trace_id_bytes(run.id)
            &&& forall|k: int|
                0 <= k < spans.len() - 1 ==> ((#[trigger] spans[k]).end matches Some(end)
                    ==> end.at_or_before(spans.last().end->0))
        },
{
    let trace_id = trace_id_bytes(run.id);
    lemma_job_spans_share_trace(trace_id, jobs);
    lemma_job_spans_end_in_time(trace_id, jobs, jobs);
    let spans = run_trace_outcome(run, Ok(jobs), created_text)->Ok_0;
    assert(spans.drop_last() =~= job_spans(trace_id, jobs));
    assert forall|k: int| 0 <= k < spans.len() - 1 implies ((#[trigger] spans[k]).end matches Some(
        end,
    ) ==> end.at_or_before(spans.last().end->0)) by {
        assert(spans[k] == job_spans(trace_id, jobs)[k]);
    }
}

/// A run whose jobs could not be listed gives no span, and the error names
/// the run.
pub proof fn lemma_failed_listing_skips_run(
    run: RunView,
    e: TraceError,
    created_text: Option<Seq<char>>,
)
    ensures
        run_trace_outcome(run, Err(e), created_text) == Err::<Seq<SpanView>, TraceError>(
            TraceError::JobFetchFailed { run_id: run.id },
        ),
{
}

/// The trace of a run depends on nothing but what the run and its jobs
/// hold: built twice from data that has not changed, the spans agree in
/// every field, or the error is the same.
pub proof fn lemma_run_trace_repeatable(
    run: RunSummary,
    fetched: Result<Vec<JobRecord>, TraceError>,
    first: Result<Vec<SpanDescriptor>, TraceError>,
    run_again: RunSummary,
    fetched_again: Result<Vec<JobRecord>, TraceError>,
    second: Result<Vec<SpanDescriptor>, TraceError>,
)
    requires
        run@ == run_again@,
        fetched_view(fetched) == fetched_view(fetched_again),
        is_trace_outcome(
            first,
            run_trace_outcome(
                run@,
                fetched_view(fetched),
                rfc3339_text(run.created_at.seconds, run.created_at.nanos),
            ),
        ),
        is_trace_outcome(
            second,
            run_trace_outcome(
                run_again@,
                fetched_view(fetched_again),
                rfc3339_text(run_again.created_at.seconds, run_again.created_at.nanos),
            ),
        ),
    ensures
        first is Ok == second is Ok,
        first is Ok ==> spans_view(first->Ok_0@) == spans_view(second->Ok_0@),
        first is Err ==> first->Err_0 == second->Err_0,
{
}

} // verus!
