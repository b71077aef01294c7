use vstd::prelude::*;
use vstd::string::*;

use crate::error::TraceError;
use crate::model::{workflows_view, WorkflowDescriptor, WorkflowView};
use crate::paginate::{PageResponse, ResponseView};
use crate::text::{decimal, decimal_text, texts_of};
use crate::workflow::{
    OrchestratorView,
    ReportView,
    SkippedRun,
    WorkflowOrchestrator,
    WorkflowReport,
};

verus! {

/// The number of runs of each workflow that are processed where nothing
/// else is asked for.
pub const DEFAULT_RUN_COUNT: u64 = 30;

/// The repository whose pipelines are traced.
#[derive(Clone, Debug, PartialEq, Eq)]
pub struct RepositoryRef {
    pub owner: String,
    pub name: String,
}

impl RepositoryRef {
    /// The name under which the traces of the repository are filed: the
    /// owner, a slash, the name.
    pub open spec fn service_name_text(self) -> Seq<char> {
        self.owner@ + "/"@ + self.name@
    }

    /// The name under which the traces of the repository are filed.
    pub fn service_name(&self) -> (text: String)
        ensures
            text@ == self.service_name_text(),
    {
        let mut text = self.owner.clone();
        text.append("/");
        text.append(self.name.as_str());
        text
    }
}

/// What each task of a sequence holds.
pub open spec fn orchestrators_view(tasks: Seq<WorkflowOrchestrator>) -> Seq<OrchestratorView> {
    tasks.map_values(|t: WorkflowOrchestrator| t@)
}

/// What each report of a sequence holds.
pub open spec fn reports_view(reports: Seq<WorkflowReport>) -> Seq<ReportView> {
    reports.map_values(|r: WorkflowReport| r@)
}

/// One task for each workflow, in the order of the workflows, each for at
/// most `desired_run_count` runs.
pub open spec fn planned(workflows: Seq<WorkflowView>, desired_run_count: u64) -> Seq<
    OrchestratorView,
> {
    workflows.map_values(
        |w: WorkflowView| OrchestratorView::start(w.id, w.name, desired_run_count),
    )
}

/// What `plan` returns for the answer of the source: the tasks, or the
/// error that ends the batch before it began.
pub open spec fn plan_outcome(listing: ResponseView<WorkflowView>, desired_run_count: u64)
    -> Result<Seq<OrchestratorView>, TraceError> {
    match listing {
        ResponseView::Page(workflows) => Ok(planned(workflows, desired_run_count)),
        ResponseView::Unavailable => Err(TraceError::SourceUnavailable),
    }
}

/// The sum of a count over reports.
pub open spec fn total(reports: Seq<ReportView>, count: spec_fn(ReportView) -> nat) -> nat
    decreases reports.len(),
{
    if reports.len() == 0 {
        0
    } else {
        total(reports.drop_last(), count) + count(reports.last())
    }
}

/// A number as a `u64`, and `u64::MAX` where it does not fit.
pub open spec fn clip(n: nat) -> u64 {
    if n > u64::MAX {
        u64::MAX
    } else {
        n as u64
    }
}

/// The number of reports of workflows whose runs could not be listed.
pub open spec fn failed_count(reports: Seq<ReportView>) -> nat {
    total(
        reports,
        |r: ReportView|
            if r.error is Some {
                1nat
            } else {
                0nat
            },
    )
}

/// The line of each skipped run, set in by two blanks.
pub open spec fn skipped_lines(skipped: Seq<SkippedRun>) -> Seq<Seq<char>> {
    skipped.map_values(|run: SkippedRun| "  "@ + run.summary_text())
}

/// The lines of the report of one workflow: its summary, then a line for
/// each run that was skipped.
pub open spec fn report_lines(report: ReportView) -> Seq<Seq<char>> {
    seq![report.summary_text()] + skipped_lines(report.skipped)
}

/// The lines of the reports of the workflows, one workflow after another.
pub open spec fn workflow_lines(reports: Seq<ReportView>) -> Seq<Seq<char>>
    decreases reports.len(),
{
    if reports.len() == 0 {
        Seq::empty()
    } else {
        workflow_lines(reports.drop_last()) + report_lines(reports.last())
    }
}

/// The last line of a summary: the totals of the batch.
pub open spec fn totals_line(reports: Seq<ReportView>) -> Seq<char> {
    decimal_text(reports.len()) + " workflows, "@ + decimal_text(failed_count(reports))
        + " failed; "@ + decimal_text(clip(total(reports, |r: ReportView| r.runs_processed)) as nat)
        + " runs processed, "@ + decimal_text(
        clip(total(reports, |r: ReportView| r.runs_skipped())) as nat,
    ) + " skipped; "@ + decimal_text(
        clip(total(reports, |r: ReportView| r.spans_emitted as nat)) as nat,
    ) + " spans"@
}

/// What a whole batch came to: the report of each workflow, in the order in
/// which the source listed the workflows.
#[derive(Clone, Debug, PartialEq, Eq)]
pub struct BatchReport {
    pub workflows: Vec<WorkflowReport>,
}

impl View for BatchReport {
    type V = Seq<ReportView>;

    open spec fn view(&self) -> Seq<ReportView> {
        reports_view(self.workflows@)
    }
}

proof fn lemma_total_next(reports: Seq<ReportView>, count: spec_fn(ReportView) -> nat, i: int)
    requires
        0 <= i < reports.len(),
    ensures
        total(reports.take(i + 1), count) == total(reports.take(i), count) + count(reports[i]),
{
    assert(reports.take(i + 1).drop_last() =~= reports.take(i));
}

/// No more workflows failed than there are.
pub proof fn lemma_failed_count_bounded(reports: Seq<ReportView>)
    ensures
        failed_count(reports) <= reports.len(),
    decreases reports.len(),
{
    if reports.len() > 0 {
        lemma_failed_count_bounded(reports.drop_last());
    }
}

impl BatchReport {
    /// The number of runs processed in all workflows, skipped ones
    /// included; `u64::MAX` where the number is larger.
    pub fn runs_processed(&self) -> (count: u64)
        ensures
            count == clip(total(self@, |r: ReportView| r.runs_processed)),
    {
        let ghost counted = |r: ReportView| r.runs_processed;
        let mut count: u64 = 0;
        let mut i: usize = 0;
        while i < self.workflows.len()
            invariant
                i <= self.workflows.len(),
                counted == (|r: ReportView| r.runs_processed),
                count == clip(total(self@.take(i as int), counted)),
            decreases self.workflows.len() - i,
        {
            proof {
                lemma_total_next(self@, counted, i as int);
            }
            count = count.saturating_add(self.workflows[i].runs_processed as u64);
            i += 1;
        }
        assert(self@.take(i as int) =~= self@);
        count
    }

    /// The number of runs that gave no span, in all workflows; `u64::MAX`
    /// where the number is larger.
    pub fn runs_skipped(&self) -> (count: u64)
        ensures
            count == clip(total(self@, |r: ReportView| r.runs_skipped())),
    {
        let ghost counted = |r: ReportView| r.runs_skipped();
        let mut count: u64 = 0;
        let mut i: usize = 0;
        while i < self.workflows.len()
            invariant
                i <= self.workflows.len(),
                counted == (|r: ReportView| r.runs_skipped()),
                count == clip(total(self@.take(i as int), counted)),
            decreases self.workflows.len() - i,
        {
            proof {
                lemma_total_next(self@, counted, i as int);
            }
            count = count.saturating_add(self.workflows[i].runs_skipped() as u64);
            i += 1;
        }
        assert(self@.take(i as int) =~= self@);
        count
    }

    /// The number of spans handed out in all workflows; `u64::MAX` where
    /// the number is larger, or where a workflow stopped counting.
    pub fn spans_emitted(&self) -> (count: u64)
        ensures
            count == clip(total(self@, |r: ReportView| r.spans_emitted as nat)),
    {
        let ghost counted = |r: ReportView| r.spans_emitted as nat;
        let mut count: u64 = 0;
        let mut i: usize = 0;
        while i < self.workflows.len()
            invariant
                i <= self.workflows.len(),
                counted == (|r: ReportView| r.spans_emitted as nat),
                count == clip(total(self@.take(i as int), counted)),
            decreases self.workflows.len() - i,
        {
            proof {
                lemma_total_next(self@, counted, i as int);
            }
            count = count.saturating_add(self.workflows[i].spans_emitted);
            i += 1;
        }
        assert(self@.take(i as int) =~= self@);
        count
    }

    /// The summary of the batch for its user: for each workflow a line that
    /// says how many runs were processed and how many of them were skipped,
    /// then a line for each skipped run with the reason; at the end a line
    /// with the totals.
    pub fn summary_lines(&self) -> (lines: Vec<String>)
        ensures
            texts_of(lines@) == workflow_lines(self@).push(totals_line(self@)),
    {
        let mut lines: Vec<String> = Vec::new();
        let mut i: usize = 0;
        assert(texts_of(lines@) =~= workflow_lines(self@.take(0)));
        while i < self.workflows.len()
            invariant
                i <= self.workflows.len(),
                texts_of(lines@) == workflow_lines(self@.take(i as int)),
            decreases self.workflows.len() - i,
        {
            let report = &self.workflows[i];
            let ghost before = texts_of(lines@);
            proof {
                assert(self@.take(i + 1).drop_last() =~= self@.take(i as int));
                assert(self@.take(i + 1).last() == report@);
            }
            let line = report.summary();
            proof {
                assert(texts_of(lines@.push(line)) =~= before.push(line@));
            }
            lines.push(line);
            let mut k: usize = 0;
            assert(skipped_lines(report.skipped@.take(0)) =~= Seq::empty());
            assert(texts_of(lines@) =~= before + seq![report@.summary_text()] + skipped_lines(
                report.skipped@.take(0),
            ));
            while k < report.skipped.len()
                invariant
                    k <= report.skipped.len(),
                    texts_of(lines@) == before + seq![report@.summary_text()] + skipped_lines(
                        report.skipped@.take(k as int),
                    ),
                decreases report.skipped.len() - k,
            {
                let mut line = String::from_str("  ");
                line.append(report.skipped[k].summary().as_str());
                proof {
                    let sofar = texts_of(lines@);
                    assert(texts_of(lines@.push(line)) =~= sofar.push(line@));
                    assert(skipped_lines(report.skipped@.take(k + 1)) =~= skipped_lines(
                        report.skipped@.take(k as int),
                    ).push(line@));
                    assert(sofar.push(line@) =~= before + seq![report@.summary_text()]
                        + skipped_lines(report.skipped@.take(k + 1)));
                }
                lines.push(line);
                k += 1;
            }
            proof {
                assert(report.skipped@.take(k as int) =~= report.skipped@);
                assert(before + seq![report@.summary_text()] + skipped_lines(report.skipped@)
                    =~= before + report_lines(report@));
            }
            i += 1;
        }
        assert(self@.take(i as int) =~= self@);
        let mut line = decimal(self.workflows.len() as u64);
        line.append(" workflows, ");
        line.append(decimal(self.workflows_failed() as u64).as_str());
        line.append(" failed; ");
        line.append(decimal(self.runs_processed()).as_str());
        line.append(" runs processed, ");
        line.append(decimal(self.runs_skipped()).as_str());
        line.append(" skipped; ");
        line.append(decimal(self.spans_emitted()).as_str());
        line.append(" spans");
        proof {
            assert(texts_of(lines@.push(line)) =~= texts_of(lines@).push(line@));
        }
        lines.push(line);
        lines
    }

    /// The number of workflows whose runs could not be listed.
    pub fn workflows_failed(&self) -> (count: usize)
        ensures
            count == failed_count(self@),
    {
        let ghost counted = |r: ReportView|
            if r.error is Some {
                1nat
            } else {
                0nat
            };
        let mut count: usize = 0;
        let mut i: usize = 0;
        while i < self.workflows.len()
            invariant
                i <= self.workflows.len(),
                counted == (|r: ReportView|
                    if r.error is Some {
                        1nat
                    } else {
                        0nat
                    }),
                count == total(self@.take(i as int), counted),
                count <= i,
            decreases self.workflows.len() - i,
        {
            proof {
                lemma_total_next(self@, counted, i as int);
            }
            if !self.workflows[i].listed() {
                count += 1;
            }
            i += 1;
        }
        assert(self@.take(i as int) =~= self@);
        count
    }
}

/// Plans and sums up a batch: one task for each workflow of a repository.
/// The tasks do not depend on one another, so whoever drives them may run
/// them side by side.
#[derive(Clone, Debug, PartialEq, Eq)]
pub struct BatchCoordinator {
    pub repository: RepositoryRef,
    /// The most runs of each workflow that are processed.
    pub desired_run_count: u64,
}

impl BatchCoordinator {
    /// A coordinator for the repository.
    pub fn new(repository: RepositoryRef, desired_run_count: u64) -> (coordinator:
        BatchCoordinator)
        ensures
            coordinator.repository == repository,
            coordinator.desired_run_count == desired_run_count,
    {
        BatchCoordinator { repository, desired_run_count }
    }

    /// Takes the answer of the source to the request for the workflows of
    /// the repository, and starts one task for each workflow, in their
    /// order. Where the workflows could not be listed there is nothing to
    /// do, and the error ends the batch.
    pub fn plan(&self, listing: PageResponse<WorkflowDescriptor>) -> (res: Result<
        Vec<WorkflowOrchestrator>,
        TraceError,
    >)
        ensures
            res is Ok == plan_outcome(listing@, self.desired_run_count) is Ok,
            res matches Ok(tasks) ==> plan_outcome(listing@, self.desired_run_count) == Ok::<
                Seq<OrchestratorView>,
                TraceError,
            >(orchestrators_view(tasks@)),
            res matches Err(e) ==> plan_outcome(listing@, self.desired_run_count) == Err::<
                Seq<OrchestratorView>,
                TraceError,
            >(e),
    {
        match listing {
            PageResponse::Unavailable => Err(TraceError::SourceUnavailable),
            PageResponse::Page(workflows) => {
                let mut tasks: Vec<WorkflowOrchestrator> = Vec::new();
                let mut i: usize = 0;
                while i < workflows.len()
                    invariant
                        i <= workflows.len(),
                        orchestrators_view(tasks@) == planned(
                            workflows_view(workflows@).take(i as int),
                            self.desired_run_count,
                        ),
                    decreases workflows.len() - i,
                {
                    let task = WorkflowOrchestrator::start(&workflows[i], self.desired_run_count);
                    proof {
                        assert(orchestrators_view(tasks@.push(task)) =~= orchestrators_view(
                            tasks@,
                        ).push(task@));
                        assert(planned(
                            workflows_view(workflows@).take(i + 1),
                            self.desired_run_count,
                        ) =~= planned(
                            workflows_view(workflows@).take(i as int),
                            self.desired_run_count,
                        ).push(task@));
                    }
                    tasks.push(task);
                    i += 1;
                }
                assert(workflows_view(workflows@).take(i as int) =~= workflows_view(workflows@));
                Ok(tasks)
            },
        }
    }

    /// Puts the reports of the tasks together, in the order given.
    pub fn collect(&self, reports: Vec<WorkflowReport>) -> (report: BatchReport)
        ensures
            report@ == reports_view(reports@),
    {
        BatchReport { workflows: reports }
    }
}

/// The exit status of the program for the outcome of a batch: zero where
/// the batch could start, though runs or whole workflows may have failed,
/// and one where the workflows could not be listed.
pub fn exit_status(outcome: &Result<BatchReport, TraceError>) -> (status: u8)
    ensures
        outcome is Ok ==> status == 0,
        outcome is Err ==> status == 1,
{
    match outcome {
        Ok(_) => 0,
        Err(_) => 1,
    }
}

/// Every workflow of the listing gets a task of its own, and no task
/// depends on another: the task at each place is the one that the workflow
/// at that place gives alone.
pub proof fn lemma_one_task_per_workflow(workflows: Seq<WorkflowView>, desired: u64)
    ensures
        planned(workflows, desired).len() == workflows.len(),
        forall|i: int|
            0 <= i < workflows.len() ==> (#[trigger] planned(workflows, desired)[i])
                == OrchestratorView::start(workflows[i].id, workflows[i].name, desired) && planned(
                workflows,
                desired,
            )[i].wf(),
{
}

/// The totals of a batch are at least those of each of its workflows: what
/// one workflow reports is never lost to what another does.
pub proof fn lemma_total_covers_each(
    reports: Seq<ReportView>,
    count: spec_fn(ReportView) -> nat,
    i: int,
)
    requires
        0 <= i < reports.len(),
    ensures
        count(reports[i]) <= total(reports, count),
    decreases reports.len(),
{
    if i < reports.len() - 1 {
        lemma_total_covers_each(reports.drop_last(), count, i);
    }
}

} // verus!
