use vstd::prelude::*;
use vstd::string::*;

use crate::error::TraceError;
use crate::model::{
    runs_view,
    spans_view,
    JobRecord,
    JobView,
    RunSummary,
    RunView,
    SpanDescriptor,
    SpanView,
    WorkflowDescriptor,
};
use crate::paginate::{
    JobPaginator,
    PageRequest,
    PageResponse,
    Paginator,
    PaginatorStatus,
    PaginatorView,
    ResponseView,
    RunPaginator,
};
use crate::text::{decimal, decimal_text};
use crate::timestamp::rfc3339_text;
use crate::trace::{build_run_trace, run_trace_outcome};

verus! {

/// A run that gave no span, and why.
#[derive(Clone, Copy, Debug, PartialEq, Eq, Structural)]
pub struct SkippedRun {
    pub run_id: u64,
    pub reason: TraceError,
}

impl SkippedRun {
    /// The skipped run in words: the run, and why it gave no span.
    pub open spec fn summary_text(self) -> Seq<char> {
        "run "@ + decimal_text(self.run_id as nat) + ": "@ + self.reason.description()
    }

    /// The skipped run in words.
    pub fn summary(&self) -> (text: String)
        ensures
            text@ == self.summary_text(),
    {
        let mut text = String::from_str("run ");
        text.append(decimal(self.run_id).as_str());
        text.append(": ");
        text.append(self.reason.describe().as_str());
        text
    }
}

/// How far the runs of a workflow have been processed.
#[derive(Clone, Copy, Debug, PartialEq, Eq, Structural)]
pub struct Progress {
    /// The number of runs processed so far, skipped ones included.
    pub completed: usize,
    /// The number of runs of the workflow that are to be processed.
    pub total: usize,
}

/// What processing one workflow came to.
#[derive(Clone, Debug, PartialEq, Eq)]
pub struct WorkflowReport {
    pub workflow_id: u64,
    pub workflow_name: String,
    /// The number of runs that the source listed.
    pub runs_total: usize,
    /// The number of runs processed, skipped ones included.
    pub runs_processed: usize,
    /// The number of spans handed out; it stops counting at `u64::MAX`.
    pub spans_emitted: u64,
    /// The runs that gave no span, in the order in which they were met.
    pub skipped: Vec<SkippedRun>,
    /// Why the runs could not be listed, where they could not.
    pub error: Option<TraceError>,
}

/// What a report holds: the mathematical value that contracts speak of.
pub struct ReportView {
    pub workflow_id: u64,
    pub workflow_name: Seq<char>,
    pub runs_total: nat,
    pub runs_processed: nat,
    pub spans_emitted: u64,
    pub skipped: Seq<SkippedRun>,
    pub error: Option<TraceError>,
}

impl View for WorkflowReport {
    type V = ReportView;

    open spec fn view(&self) -> ReportView {
        ReportView {
            workflow_id: self.workflow_id,
            workflow_name: self.workflow_name@,
            runs_total: self.runs_total as nat,
            runs_processed: self.runs_processed as nat,
            spans_emitted: self.spans_emitted,
            skipped: self.skipped@,
            error: self.error,
        }
    }
}

/// A count raised by `more`, stopping at `u64::MAX`.
pub open spec fn saturating_sum(count: u64, more: nat) -> u64 {
    if count + more > u64::MAX {
        u64::MAX
    } else {
        (count + more) as u64
    }
}

impl ReportView {
    /// The report of a workflow of which nothing has been processed.
    pub open spec fn blank(workflow_id: u64, workflow_name: Seq<char>) -> ReportView {
        ReportView {
            workflow_id,
            workflow_name,
            runs_total: 0,
            runs_processed: 0,
            spans_emitted: 0,
            skipped: Seq::empty(),
            error: None,
        }
    }

    /// The report after one more run: its spans are counted, or the run is
    /// listed as skipped with the reason.
    pub open spec fn record(self, run_id: u64, outcome: Result<Seq<SpanView>, TraceError>)
        -> ReportView {
        match outcome {
            Ok(spans) => ReportView {
                runs_processed: self.runs_processed + 1,
                spans_emitted: saturating_sum(self.spans_emitted, spans.len()),
                ..self
            },
            Err(reason) => ReportView {
                runs_processed: self.runs_processed + 1,
                skipped: self.skipped.push(SkippedRun { run_id, reason }),
                ..self
            },
        }
    }

    /// The number of runs that gave no span.
    pub open spec fn runs_skipped(self) -> nat {
        self.skipped.len()
    }

    /// The report in one line: the name of the workflow, and either why its
    /// runs could not be listed, or how many of its runs were processed,
    /// how many of those were skipped, and how many spans they gave.
    pub open spec fn summary_text(self) -> Seq<char> {
        match self.error {
            Some(e) => self.workflow_name + ": "@ + e.description(),
            None => self.workflow_name + ": "@ + decimal_text(self.runs_processed) + " of "@
                + decimal_text(self.runs_total) + " runs processed, "@ + decimal_text(
                self.skipped.len(),
            ) + " skipped, "@ + decimal_text(self.spans_emitted as nat) + " spans"@,
        }
    }
}

impl WorkflowReport {
    /// The number of runs that gave no span.
    pub fn runs_skipped(&self) -> (count: usize)
        ensures
            count == self@.runs_skipped(),
    {
        self.skipped.len()
    }

    /// Whether the runs of the workflow could be listed.
    pub fn listed(&self) -> (res: bool)
        ensures
            res == (self@.error is None),
    {
        self.error.is_none()
    }

    /// The report in one line.
    pub fn summary(&self) -> (text: String)
        ensures
            text@ == self@.summary_text(),
    {
        let mut text = self.workflow_name.clone();
        text.append(": ");
        match self.error {
            Some(e) => {
                text.append(e.describe().as_str());
            },
            None => {
                text.append(decimal(self.runs_processed as u64).as_str());
                text.append(" of ");
                text.append(decimal(self.runs_total as u64).as_str());
                text.append(" runs processed, ");
                text.append(decimal(self.skipped.len() as u64).as_str());
                text.append(" skipped, ");
                text.append(decimal(self.spans_emitted).as_str());
                text.append(" spans");
            },
        }
        text
    }
}

/// What to do next for a workflow.
#[derive(Clone, Copy, Debug, PartialEq, Eq, Structural)]
pub enum Action {
    /// Ask the source for a page of the runs of the workflow, and hand the
    /// answer to `on_runs_page`.
    FetchRuns(PageRequest),
    /// Ask the source for a page of the jobs of a run, and hand the answer
    /// to `on_jobs_page`.
    FetchJobs(PageRequest),
    /// Nothing: the workflow is processed.
    Done,
}

/// What one run came to: the spans to hand to the tracing backend, and the
/// progress to report.
#[derive(Clone, Debug, PartialEq, Eq)]
pub struct RunEmission {
    pub run_id: u64,
    /// The spans of the jobs, then the span of the run; none for a run that
    /// was skipped.
    pub spans: Vec<SpanDescriptor>,
    /// Why the run was skipped, where it was.
    pub skipped: Option<TraceError>,
    pub progress: Progress,
}

/// How far the runs of a workflow have been processed: the mathematical
/// value that contracts speak of.
pub struct ProgressView {
    pub completed: nat,
    pub total: nat,
}

impl View for Progress {
    type V = ProgressView;

    open spec fn view(&self) -> ProgressView {
        ProgressView { completed: self.completed as nat, total: self.total as nat }
    }
}

/// What an emission holds: the mathematical value that contracts speak of.
pub struct EmissionView {
    pub run_id: u64,
    pub spans: Seq<SpanView>,
    pub skipped: Option<TraceError>,
    pub progress: ProgressView,
}

impl View for RunEmission {
    type V = EmissionView;

    open spec fn view(&self) -> EmissionView {
        EmissionView {
            run_id: self.run_id,
            spans: spans_view(self.spans@),
            skipped: self.skipped,
            progress: self.progress@,
        }
    }
}

/// What an emission holds, where there is one.
pub open spec fn emission_view(emission: Option<RunEmission>) -> Option<EmissionView> {
    match emission {
        Some(e) => Some(e@),
        None => None,
    }
}

/// Where the processing of a workflow stands.
pub enum StageView {
    /// The runs are being listed.
    ListingRuns(PaginatorView<RunView>),
    /// The runs are listed; those before `cursor` are processed, and the
    /// jobs of the run at `cursor` are being listed.
    ListingJobs { runs: Seq<RunView>, cursor: nat, pager: PaginatorView<JobView> },
    /// Nothing is left to do.
    Finished,
}

/// The processing of one workflow: where it stands, and its report so far.
pub struct OrchestratorView {
    pub stage: StageView,
    pub report: ReportView,
}

/// The trace of the run at `cursor`, from the outcome of listing its jobs.
pub open spec fn traced(run: RunView, fetched: Result<Seq<JobView>, TraceError>) -> Result<
    Seq<SpanView>,
    TraceError,
> {
    run_trace_outcome(run, fetched, rfc3339_text(run.created_at.seconds, run.created_at.nanos))
}

impl OrchestratorView {
    /// What holds of every task: while a listing runs there is a page to ask
    /// for; the report counts the runs before the cursor, and only those;
    /// and a workflow is finished either with an error and nothing
    /// processed, or with every run processed.
    pub open spec fn wf(self) -> bool {
        &&& self.report.skipped.len() <= self.report.runs_processed
        &&& match self.stage {
            StageView::ListingRuns(pager) => {
                &&& pager.wf()
                &&& pager.wants_more()
                &&& pager.owner_id == self.report.workflow_id
                &&& self.report == ReportView::blank(
                    self.report.workflow_id,
                    self.report.workflow_name,
                )
            },
            StageView::ListingJobs { runs, cursor, pager } => {
                &&& cursor < runs.len()
                &&& pager.wf()
                &&& pager.wants_more()
                &&& pager.owner_id == runs[cursor as int].id
                &&& pager.limit == u64::MAX
                &&& self.report.runs_total == runs.len()
                &&& self.report.runs_processed == cursor
                &&& self.report.error is None
            },
            StageView::Finished => {
                &&& self.report.error is Some ==> self.report.runs_processed == 0
                    && self.report.spans_emitted == 0
                &&& self.report.error is None ==> self.report.runs_processed
                    == self.report.runs_total
            },
        }
    }

    /// The task for a workflow of which at most `desired_run_count` runs are
    /// to be processed.
    pub open spec fn start(workflow_id: u64, workflow_name: Seq<char>, desired_run_count: u64)
        -> OrchestratorView {
        OrchestratorView {
            stage: if desired_run_count == 0 {
                StageView::Finished
            } else {
                StageView::ListingRuns(PaginatorView::fresh(workflow_id, desired_run_count))
            },
            report: ReportView::blank(workflow_id, workflow_name),
        }
    }

    /// What to do next.
    pub open spec fn action(self) -> Action {
        match self.stage {
            StageView::ListingRuns(pager) => Action::FetchRuns(pager.request()->0),
            StageView::ListingJobs { pager, .. } => Action::FetchJobs(pager.request()->0),
            StageView::Finished => Action::Done,
        }
    }

    /// The task once the runs are listed: finished with the error where the
    /// listing failed, finished where there is no run, and else about to
    /// list the jobs of the first run.
    pub open spec fn with_runs(self, listed: Result<Seq<RunView>, TraceError>) -> OrchestratorView {
        match listed {
            Err(e) => OrchestratorView {
                stage: StageView::Finished,
                report: ReportView { error: Some(e), ..self.report },
            },
            Ok(runs) => if runs.len() == 0 {
                OrchestratorView { stage: StageView::Finished, ..self }
            } else {
                OrchestratorView {
                    stage: StageView::ListingJobs {
                        runs,
                        cursor: 0,
                        pager: PaginatorView::fresh(runs[0].id, u64::MAX),
                    },
                    report: ReportView { runs_total: runs.len(), ..self.report },
                }
            },
        }
    }

    /// The task after the answer to a request for a page of runs. While the
    /// runs are not being listed, such an answer changes nothing.
    pub open spec fn after_runs_page(self, response: ResponseView<RunView>) -> OrchestratorView {
        match self.stage {
            StageView::ListingRuns(pager) => {
                let pager = pager.accept(response);
                if pager.wants_more() {
                    OrchestratorView { stage: StageView::ListingRuns(pager), ..self }
                } else {
                    self.with_runs(pager.outcome())
                }
            },
            _ => self,
        }
    }

    /// What the run at the cursor gives once its jobs are listed.
    pub open spec fn emission(
        runs: Seq<RunView>,
        cursor: nat,
        fetched: Result<Seq<JobView>, TraceError>,
    ) -> EmissionView {
        let run = runs[cursor as int];
        let progress = ProgressView { completed: cursor + 1, total: runs.len() };
        match traced(run, fetched) {
            Ok(spans) => EmissionView { run_id: run.id, spans, skipped: None, progress },
            Err(reason) => EmissionView {
                run_id: run.id,
                spans: Seq::empty(),
                skipped: Some(reason),
                progress,
            },
        }
    }

    /// The task after the answer to a request for a page of jobs, and what
    /// the run gives where the answer ends the listing of its jobs: the run
    /// is traced or skipped, the report takes it up, and the task goes on
    /// to the next run or is finished. While no jobs are being listed, such
    /// an answer changes nothing.
    pub open spec fn after_jobs_page(self, response: ResponseView<JobView>) -> (
        OrchestratorView,
        Option<EmissionView>,
    ) {
        match self.stage {
            StageView::ListingJobs { runs, cursor, pager } => {
                let pager = pager.accept(response);
                if pager.wants_more() {
                    (
                        OrchestratorView {
                            stage: StageView::ListingJobs { runs, cursor, pager },
                            ..self
                        },
                        None,
                    )
                } else {
                    let run = runs[cursor as int];
                    let report = self.report.record(run.id, traced(run, pager.outcome()));
                    let stage = if cursor + 1 == runs.len() {
                        StageView::Finished
                    } else {
                        StageView::ListingJobs {
                            runs,
                            cursor: cursor + 1,
                            pager: PaginatorView::fresh(runs[cursor as int + 1].id, u64::MAX),
                        }
                    };
                    (
                        OrchestratorView { stage, report },
                        Some(OrchestratorView::emission(runs, cursor, pager.outcome())),
                    )
                }
            },
            _ => (self, None),
        }
    }
}

enum Stage {
    ListingRuns(RunPaginator),
    ListingJobs { runs: Vec<RunSummary>, cursor: usize, pager: JobPaginator },
    Finished,
}

/// Processes one workflow: lists its runs, and for each run in turn lists
/// the jobs and builds the trace. It decides what is asked of the source
/// and what becomes of each answer; whoever drives it talks to the source,
/// to the tracing backend and to the progress display.
pub struct WorkflowOrchestrator {
    stage: Stage,
    report: WorkflowReport,
}

impl View for WorkflowOrchestrator {
    type V = OrchestratorView;

    closed spec fn view(&self) -> OrchestratorView {
        OrchestratorView {
            stage: match self.stage {
                Stage::ListingRuns(pager) => StageView::ListingRuns(pager@),
                Stage::ListingJobs { runs, cursor, pager } => StageView::ListingJobs {
                    runs: runs_view(runs@),
                    cursor: cursor as nat,
                    pager: pager@,
                },
                Stage::Finished => StageView::Finished,
            },
            report: self.report@,
        }
    }
}

impl WorkflowOrchestrator {
    #[verifier::type_invariant]
    spec fn well_formed(self) -> bool {
        self@.wf()
    }

    /// Starts on a workflow of which at most `desired_run_count` runs are
    /// to be processed.
    pub fn start(workflow: &WorkflowDescriptor, desired_run_count: u64) -> (task:
        WorkflowOrchestrator)
        ensures
            task@.wf(),
            task@ == OrchestratorView::start(workflow.id, workflow.name@, desired_run_count),
    {
        let report = WorkflowReport {
            workflow_id: workflow.id,
            workflow_name: workflow.name.clone(),
            runs_total: 0,
            runs_processed: 0,
            spans_emitted: 0,
            skipped: Vec::new(),
            error: None,
        };
        if desired_run_count == 0 {
            WorkflowOrchestrator { stage: Stage::Finished, report }
        } else {
            WorkflowOrchestrator {
                stage: Stage::ListingRuns(Paginator::new(workflow.id, desired_run_count)),
                report,
            }
        }
    }

    /// What to do next.
    pub fn next_action(&self) -> (action: Action)
        ensures
            self@.wf(),
            action == self@.action(),
    {
        proof {
            use_type_invariant(self);
        }
        match &self.stage {
            Stage::ListingRuns(pager) => match pager.next_request() {
                Some(request) => Action::FetchRuns(request),
                None => Action::Done,
            },
            Stage::ListingJobs { pager, .. } => match pager.next_request() {
                Some(request) => Action::FetchJobs(request),
                None => Action::Done,
            },
            Stage::Finished => Action::Done,
        }
    }

    /// Whether nothing is left to do.
    pub fn is_finished(&self) -> (res: bool)
        ensures
            res == (self@.stage is Finished),
    {
        match &self.stage {
            Stage::Finished => true,
            _ => false,
        }
    }

    /// The report so far.
    pub fn report(&self) -> (report: &WorkflowReport)
        ensures
            self@.wf(),
            report@ == self@.report,
    {
        proof {
            use_type_invariant(self);
        }
        &self.report
    }

    /// Ends the task and hands out its report.
    pub fn into_report(self) -> (report: WorkflowReport)
        ensures
            self@.wf(),
            report@ == self@.report,
    {
        proof {
            use_type_invariant(&self);
        }
        self.report
    }

    /// Takes the answer to a request for a page of runs.
    pub fn on_runs_page(self, response: PageResponse<RunSummary>) -> (task: WorkflowOrchestrator)
        ensures
            self@.wf(),
            task@.wf(),
            task@ == self@.after_runs_page(response@),
    {
        proof {
            use_type_invariant(&self);
        }
        let WorkflowOrchestrator { stage, report } = self;
        match stage {
            Stage::ListingRuns(pager) => {
                let pager = pager.accept(response);
                if pager.next_request().is_some() {
                    WorkflowOrchestrator { stage: Stage::ListingRuns(pager), report }
                } else {
                    let mut report = report;
                    match pager.finish() {
                        Err(e) => {
                            report.error = Some(e);
                            WorkflowOrchestrator { stage: Stage::Finished, report }
                        },
                        Ok(runs) => {
                            if runs.len() == 0 {
                                WorkflowOrchestrator { stage: Stage::Finished, report }
                            } else {
                                report.runs_total = runs.len();
                                let first = runs[0].id;
                                WorkflowOrchestrator {
                                    stage: Stage::ListingJobs {
                                        runs,
                                        cursor: 0,
                                        pager: Paginator::unbounded(first),
                                    },
                                    report,
                                }
                            }
                        },
                    }
                }
            },
            other => WorkflowOrchestrator { stage: other, report },
        }
    }

    /// Takes the answer to a request for a page of jobs. Where the answer
    /// ends the listing of the jobs of a run, the run is traced or skipped,
    /// and what it gives is handed out.
    pub fn on_jobs_page(self, response: PageResponse<JobRecord>) -> (res: (
        WorkflowOrchestrator,
        Option<RunEmission>,
    ))
        ensures
            self@.wf(),
            res.0@.wf(),
            res.0@ == self@.after_jobs_page(response@).0,
            emission_view(res.1) == self@.after_jobs_page(response@).1,
    {
        proof {
            use_type_invariant(&self);
        }
        let WorkflowOrchestrator { stage, report } = self;
        match stage {
            Stage::ListingJobs { runs, cursor, pager } => {
                let pager = pager.accept(response);
                if pager.next_request().is_some() {
                    (
                        WorkflowOrchestrator {
                            stage: Stage::ListingJobs { runs, cursor, pager },
                            report,
                        },
                        None,
                    )
                } else {
                    let fetched = pager.finish();
                    let outcome = build_run_trace(&runs[cursor], &fetched);
                    let run_id = runs[cursor].id;
                    let progress = Progress { completed: cursor + 1, total: runs.len() };
                    let mut report = report;
                    report.runs_processed = cursor + 1;
                    let emission = match outcome {
                        Ok(spans) => {
                            report.spans_emitted = report.spans_emitted.saturating_add(
                                spans.len() as u64,
                            );
                            RunEmission { run_id, spans, skipped: None, progress }
                        },
                        Err(reason) => {
                            report.skipped.push(SkippedRun { run_id, reason });
                            RunEmission {
                                run_id,
                                spans: Vec::new(),
                                skipped: Some(reason),
                                progress,
                            }
                        },
                    };
                    proof {
                        assert(spans_view(Seq::<SpanDescriptor>::empty()) =~= Seq::empty());
                    }
                    let stage = if cursor + 1 == runs.len() {
                        Stage::Finished
                    } else {
                        let next = runs[cursor + 1].id;
                        Stage::ListingJobs {
                            runs,
                            cursor: cursor + 1,
                            pager: Paginator::unbounded(next),
                        }
                    };
                    (WorkflowOrchestrator { stage, report }, Some(emission))
                }
            },
            other => (WorkflowOrchestrator { stage: other, report }, None),
        }
    }
}

/// Every answer leaves a task well formed.
pub proof fn lemma_answers_keep_task_well_formed(
    task: OrchestratorView,
    runs_page: ResponseView<RunView>,
    jobs_page: ResponseView<JobView>,
)
    requires
        task.wf(),
    ensures
        task.after_runs_page(runs_page).wf(),
        task.after_jobs_page(jobs_page).0.wf(),
{
}

/// A task asks for runs until their listing is over, then for jobs, and for
/// nothing once it is finished; it is finished exactly when it asks for
/// nothing.
pub proof fn lemma_action_by_stage(task: OrchestratorView)
    requires
        task.wf(),
    ensures
        task.stage is ListingRuns ==> task.action() is FetchRuns,
        task.stage is ListingJobs ==> task.action() is FetchJobs,
        task.stage is Finished <==> task.action() is Done,
        task.stage matches StageView::ListingJobs { runs, cursor, pager } ==> task.action()
            == Action::FetchJobs(
            PageRequest {
                owner_id: runs[cursor as int].id,
                page: (pager.pages + 1) as u64,
                per_page: if pager.items.len() <= u64::MAX - 100 {
                    100u8
                } else {
                    (u64::MAX - pager.items.len()) as u8
                },
            },
        ),
{
}

/// Where the runs cannot be listed, the workflow is finished at once, with
/// the error in its report and nothing processed.
pub proof fn lemma_failed_run_listing_ends_workflow(task: OrchestratorView)
    requires
        task.wf(),
        task.stage is ListingRuns,
    ensures
        task.after_runs_page(ResponseView::Unavailable).stage is Finished,
        task.after_runs_page(ResponseView::Unavailable).report == (ReportView {
            error: Some(TraceError::SourceUnavailable),
            ..task.report
        }),
        task.after_runs_page(ResponseView::Unavailable).report.runs_processed == 0,
        task.after_runs_page(ResponseView::Unavailable).report.spans_emitted == 0,
{
}

/// Once the runs are listed they are processed in the order in which the
/// source gave them, beginning with the first.
pub proof fn lemma_runs_keep_source_order(task: OrchestratorView, response: ResponseView<RunView>)
    requires
        task.wf(),
        task.stage is ListingRuns,
        !task.stage->ListingRuns_0.accept(response).wants_more(),
        task.stage->ListingRuns_0.accept(response).status != PaginatorStatus::Failed,
    ensures
        ({
            let listed = task.stage->ListingRuns_0.accept(response).items;
            let after = task.after_runs_page(response);
            &&& listed.len() == 0 ==> after.stage is Finished && after.report == task.report
            &&& listed.len() > 0 ==> after.stage == (StageView::ListingJobs {
                runs: listed,
                cursor: 0,
                pager: PaginatorView::fresh(listed[0].id, u64::MAX),
            }) && after.report.runs_total == listed.len() && after.report.error is None
        }),
{
}

/// The answer that ends the listing of the jobs of a run ends that run and
/// no other: the run is counted, what it gives is handed out with the
/// progress so far, and the task goes on to the run after it, or is
/// finished after the last. This holds whether the run was traced or
/// skipped: no run keeps the runs after it from being processed.
pub proof fn lemma_every_run_is_processed(task: OrchestratorView, response: ResponseView<JobView>)
    requires
        task.wf(),
        task.stage is ListingJobs,
        !task.stage->ListingJobs_pager.accept(response).wants_more(),
    ensures
        ({
            let runs = task.stage->ListingJobs_runs;
            let cursor = task.stage->ListingJobs_cursor;
            let after = task.after_jobs_page(response).0;
            let emission = task.after_jobs_page(response).1;
            &&& after.report.runs_processed == cursor + 1
            &&& after.report.runs_total == runs.len()
            &&& after.report.error is None
            &&& emission matches Some(e) && e.run_id == runs[cursor as int].id && e.progress
                == (ProgressView { completed: cursor + 1, total: runs.len() })
            &&& cursor + 1 < runs.len() ==> after.stage == (StageView::ListingJobs {
                runs,
                cursor: cursor + 1,
                pager: PaginatorView::fresh(runs[cursor as int + 1].id, u64::MAX),
            })
            &&& cursor + 1 == runs.len() ==> after.stage is Finished
        }),
{
}

/// A run whose jobs cannot be listed is skipped: it gives no span, it is
/// listed in the report with the error that names it, and the count of
/// spans stays as it was.
pub proof fn lemma_failed_job_listing_skips_run(task: OrchestratorView)
    requires
        task.wf(),
        task.stage is ListingJobs,
    ensures
        ({
            let run = task.stage->ListingJobs_runs[task.stage->ListingJobs_cursor as int];
            let after = task.after_jobs_page(ResponseView::Unavailable).0;
            let emission = task.after_jobs_page(ResponseView::Unavailable).1;
            let reason = TraceError::JobFetchFailed { run_id: run.id };
            &&& emission matches Some(e) && e.spans.len() == 0 && e.skipped == Some(reason)
            &&& after.report.skipped == task.report.skipped.push(
                SkippedRun { run_id: run.id, reason },
            )
            &&& after.report.spans_emitted == task.report.spans_emitted
        }),
{
}

/// A run that is traced hands out the spans of its trace, and the report
/// counts them.
pub proof fn lemma_traced_run_is_counted(task: OrchestratorView, response: ResponseView<JobView>)
    requires
        task.wf(),
        task.stage is ListingJobs,
        !task.stage->ListingJobs_pager.accept(response).wants_more(),
        traced(
            task.stage->ListingJobs_runs[task.stage->ListingJobs_cursor as int],
            task.stage->ListingJobs_pager.accept(response).outcome(),
        ) is Ok,
    ensures
        ({
            let run = task.stage->ListingJobs_runs[task.stage->ListingJobs_cursor as int];
            let spans = traced(run, task.stage->ListingJobs_pager.accept(response).outcome())->Ok_0;
            let after = task.after_jobs_page(response).0;
            let emission = task.after_jobs_page(response).1;
            &&& emission matches Some(e) && e.spans == spans && e.skipped is None
            &&& after.report.skipped == task.report.skipped
            &&& after.report.spans_emitted == saturating_sum(task.report.spans_emitted, spans.len())
        }),
{
}

/// A finished task stays as it is, whatever is answered.
pub proof fn lemma_finished_task_is_final(
    task: OrchestratorView,
    runs_page: ResponseView<RunView>,
    jobs_page: ResponseView<JobView>,
)
    requires
        task.stage is Finished,
    ensures
        task.after_runs_page(runs_page) == task,
        task.after_jobs_page(jobs_page) == (task, None::<EmissionView>),
{
}

/// What a task does with an answer depends on nothing but what the task
/// and the answer hold: two tasks that hold the same, given answers that
/// hold the same, hand out spans that agree in every field and go on to
/// tasks that hold the same.
pub proof fn lemma_answers_repeatable(
    task: WorkflowOrchestrator,
    response: PageResponse<JobRecord>,
    first: (WorkflowOrchestrator, Option<RunEmission>),
    task_again: WorkflowOrchestrator,
    response_again: PageResponse<JobRecord>,
    second: (WorkflowOrchestrator, Option<RunEmission>),
)
    requires
        task@ == task_again@,
        response@ == response_again@,
        first.0@ == task@.after_jobs_page(response@).0,
        emission_view(first.1) == task@.after_jobs_page(response@).1,
        second.0@ == task_again@.after_jobs_page(response_again@).0,
        emission_view(second.1) == task_again@.after_jobs_page(response_again@).1,
    ensures
        first.0@ == second.0@,
        emission_view(first.1) == emission_view(second.1),
        first.1 matches Some(a) ==> second.1 matches Some(b) && spans_view(a.spans@) == spans_view(
            b.spans@,
        ),
{
}

} // verus!
