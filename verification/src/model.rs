use vstd::prelude::*;

use crate::record::{Attribute, Field, FieldView};
use crate::timestamp::Timestamp;

verus! {

/// What each item of a sequence holds.
pub open spec fn views_of<T: View>(items: Seq<T>) -> Seq<T::V> {
    items.map_values(|item: T| item@)
}

/// A named pipeline of a repository.
#[derive(Clone, Debug, PartialEq, Eq)]
pub struct WorkflowDescriptor {
    pub id: u64,
    pub name: String,
}

/// What a workflow descriptor holds: the mathematical value that contracts
/// speak of.
pub struct WorkflowView {
    pub id: u64,
    pub name: Seq<char>,
}

impl View for WorkflowDescriptor {
    type V = WorkflowView;

    open spec fn view(&self) -> WorkflowView {
        WorkflowView { id: self.id, name: self.name@ }
    }
}

/// What each workflow descriptor of a sequence holds.
pub open spec fn workflows_view(workflows: Seq<WorkflowDescriptor>) -> Seq<WorkflowView> {
    views_of(workflows)
}

/// One execution of a workflow. When it ended is not recorded: that is
/// derived from its jobs.
#[derive(Clone, Debug, PartialEq, Eq)]
pub struct RunSummary {
    pub id: u64,
    pub name: String,
    pub workflow_id: u64,
    pub created_at: Timestamp,
    pub status: String,
}

/// What a run summary holds: the mathematical value that contracts speak of.
pub struct RunView {
    pub id: u64,
    pub name: Seq<char>,
    pub workflow_id: u64,
    pub created_at: Timestamp,
    pub status: Seq<char>,
}

impl View for RunSummary {
    type V = RunView;

    open spec fn view(&self) -> RunView {
        RunView {
            id: self.id,
            name: self.name@,
            workflow_id: self.workflow_id,
            created_at: self.created_at,
            status: self.status@,
        }
    }
}

/// What each run summary of a sequence holds.
pub open spec fn runs_view(runs: Seq<RunSummary>) -> Seq<RunView> {
    views_of(runs)
}

/// One unit of work inside a run.
#[derive(Debug, PartialEq, Eq)]
pub struct JobRecord {
    pub id: u64,
    pub run_id: u64,
    pub name: String,
    pub status: String,
    pub conclusion: Option<String>,
    pub started_at: Option<Timestamp>,
    pub completed_at: Option<Timestamp>,
    pub metadata: Field,
}

/// How far a job has come.
#[derive(Clone, Copy, Debug, PartialEq, Eq, Structural)]
pub enum JobPhase {
    /// Not dispatched yet: there is no start time.
    Pending,
    /// Running since the given instant.
    Started(Timestamp),
    /// Ran from the first instant to the second.
    Completed(Timestamp, Timestamp),
}

/// What a job record holds: the mathematical value that contracts speak of.
pub struct JobView {
    pub id: u64,
    pub run_id: u64,
    pub name: Seq<char>,
    pub status: Seq<char>,
    pub conclusion: Option<Seq<char>>,
    pub started_at: Option<Timestamp>,
    pub completed_at: Option<Timestamp>,
    pub metadata: FieldView,
}

impl View for JobRecord {
    type V = JobView;

    open spec fn view(&self) -> JobView {
        JobView {
            id: self.id,
            run_id: self.run_id,
            name: self.name@,
            status: self.status@,
            conclusion: match self.conclusion {
                Some(text) => Some(text@),
                None => None,
            },
            started_at: self.started_at,
            completed_at: self.completed_at,
            metadata: self.metadata@,
        }
    }
}

/// What each job record of a sequence holds.
pub open spec fn jobs_view(jobs: Seq<JobRecord>) -> Seq<JobView> {
    views_of(jobs)
}

impl JobView {
    /// Whether the times of the job fit together: a job that has completed
    /// has started, and not after it completed.
    pub open spec fn well_formed(self) -> bool {
        self.completed_at matches Some(completed) ==> (self.started_at matches Some(started)
            && started.at_or_before(completed))
    }

    /// How far the job has come, by its times. A completion time without a
    /// start time does not count: such a job is pending.
    pub open spec fn phase(self) -> JobPhase {
        match self.started_at {
            None => JobPhase::Pending,
            Some(started) => match self.completed_at {
                None => JobPhase::Started(started),
                Some(completed) => JobPhase::Completed(started, completed),
            },
        }
    }
}

impl JobRecord {
    /// How far the job has come.
    pub fn current_phase(&self) -> (phase: JobPhase)
        ensures
            phase == self@.phase(),
    {
        match self.started_at {
            None => JobPhase::Pending,
            Some(started) => match self.completed_at {
                None => JobPhase::Started(started),
                Some(completed) => JobPhase::Completed(started, completed),
            },
        }
    }

    /// Whether the times of the job fit together.
    pub fn is_well_formed(&self) -> (res: bool)
        ensures
            res == self@.well_formed(),
    {
        match self.completed_at {
            None => true,
            Some(completed) => match self.started_at {
                None => false,
                Some(started) => !started.is_after(&completed),
            },
        }
    }
}

/// A span as it is handed to the tracing backend. A run gives one span for
/// each of its jobs and one for itself; all of them carry the trace
/// identifier of the run.
#[derive(Clone, Debug, PartialEq, Eq)]
pub struct SpanDescriptor {
    pub trace_id: [u8; 16],
    pub span_id: [u8; 8],
    pub name: String,
    pub start: Timestamp,
    /// Absent while what the span stands for is still running.
    pub end: Option<Timestamp>,
    pub attributes: Vec<Attribute>,
    pub status_message: String,
}

/// What a span holds: the mathematical value that contracts speak of.
pub struct SpanView {
    pub trace_id: Seq<u8>,
    pub span_id: Seq<u8>,
    pub name: Seq<char>,
    pub start: Timestamp,
    pub end: Option<Timestamp>,
    pub attributes: Seq<(Seq<char>, Seq<char>)>,
    pub status_message: Seq<char>,
}

impl View for SpanDescriptor {
    type V = SpanView;

    open spec fn view(&self) -> SpanView {
        SpanView {
            trace_id: self.trace_id@,
            span_id: self.span_id@,
            name: self.name@,
            start: self.start,
            end: self.end,
            attributes: crate::record::pairs_of(self.attributes@),
            status_message: self.status_message@,
        }
    }
}

/// What each span of a sequence holds.
pub open spec fn spans_view(spans: Seq<SpanDescriptor>) -> Seq<SpanView> {
    views_of(spans)
}

} // verus!
