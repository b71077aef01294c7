use vstd::prelude::*;

use crate::model::{jobs_view, JobRecord, JobView, RunSummary};
use crate::timestamp::{later_of, lemma_timestamp_order, Timestamp};

verus! {

/// The latest completion time among the jobs that have one; nothing where
/// no job has one.
pub open spec fn latest_completion(jobs: Seq<JobView>) -> Option<Timestamp>
    decreases jobs.len(),
{
    if jobs.len() == 0 {
        None
    } else {
        let earlier = latest_completion(jobs.drop_last());
        match jobs.last().completed_at {
            None => earlier,
            Some(completed) => match earlier {
                None => Some(completed),
                Some(latest) => Some(later_of(latest, completed)),
            },
        }
    }
}

/// When a run that was created at `created_at` ended, as far as its jobs
/// tell: at the latest completion among them, and at its creation where
/// none has completed.
pub open spec fn effective_end_at(created_at: Timestamp, jobs: Seq<JobView>) -> Timestamp {
    match latest_completion(jobs) {
        Some(latest) => latest,
        None => created_at,
    }
}

/// Whether at least one of the jobs has a completion time.
pub open spec fn any_completed(jobs: Seq<JobView>) -> bool {
    exists|i: int| 0 <= i < jobs.len() && (#[trigger] jobs[i]).completed_at is Some
}

/// Whether `end` is the completion time of one of the jobs and none of them
/// completed after it.
pub open spec fn is_latest_completion(jobs: Seq<JobView>, end: Timestamp) -> bool {
    &&& exists|i: int| 0 <= i < jobs.len() && (#[trigger] jobs[i]).completed_at == Some(end)
    &&& forall|i: int|
        0 <= i < jobs.len() && (#[trigger] jobs[i]).completed_at is Some
            ==> jobs[i].completed_at->0.at_or_before(end)
}

/// The latest completion is none exactly where no job has completed, and
/// else it is the completion time of a job that no other job's comes after.
pub proof fn lemma_latest_completion(jobs: Seq<JobView>)
    ensures
        latest_completion(jobs) is None <==> !any_completed(jobs),
        latest_completion(jobs) matches Some(end) ==> is_latest_completion(jobs, end),
    decreases jobs.len(),
{
    if jobs.len() > 0 {
        let init = jobs.drop_last();
        lemma_latest_completion(init);
        assert forall|i: int| 0 <= i < init.len() implies init[i] == jobs[i] by {}
        let last = jobs.last();
        assert(last == jobs[jobs.len() - 1]);
        if any_completed(init) {
            let w = choose|i: int| 0 <= i < init.len() && (#[trigger] init[i]).completed_at is Some;
            assert(jobs[w].completed_at is Some);
        }
        if any_completed(jobs) && last.completed_at is None {
            let w = choose|i: int| 0 <= i < jobs.len() && (#[trigger] jobs[i]).completed_at is Some;
            assert(init[w].completed_at is Some);
        }
        match last.completed_at {
            None => {
                if let Some(end) = latest_completion(init) {
                    let w = choose|i: int|
                        0 <= i < init.len() && (#[trigger] init[i]).completed_at == Some(end);
                    assert(jobs[w].completed_at == Some(end));
                }
            },
            Some(completed) => {
                match latest_completion(init) {
                    None => {
                        assert forall|i: int|
                            0 <= i < jobs.len() && (#[trigger] jobs[i]).completed_at
                                is Some implies jobs[i].completed_at->0.at_or_before(completed) by {
                            if i < init.len() {
                                assert(init[i].completed_at is Some);
                            }
                        }
                    },
                    Some(latest) => {
                        let end = later_of(latest, completed);
                        let w = choose|i: int|
                            0 <= i < init.len() && (#[trigger] init[i]).completed_at == Some(
                                latest,
                            );
                        assert(jobs[w].completed_at == Some(latest));
                        assert forall|i: int|
                            0 <= i < jobs.len() && (#[trigger] jobs[i]).completed_at
                                is Some implies jobs[i].completed_at->0.at_or_before(end) by {
                            if i < init.len() {
                                assert(init[i].completed_at is Some);
                                lemma_timestamp_order(init[i].completed_at->0, latest, end);
                            }
                        }
                    },
                }
            },
        }
    }
}

/// A run without jobs ends when it was created.
pub proof fn lemma_effective_end_without_jobs(created_at: Timestamp)
    ensures
        effective_end_at(created_at, Seq::<JobView>::empty()) == created_at,
{
}

/// The instant at which a run counts as ended: the latest completion time
/// among its jobs, and the creation time of the run where no job has
/// completed yet.
pub fn effective_end(run: &RunSummary, jobs: &Vec<JobRecord>) -> (end: Timestamp)
    ensures
        end == effective_end_at(run.created_at, jobs_view(jobs@)),
        !any_completed(jobs_view(jobs@)) ==> end == run.created_at,
        any_completed(jobs_view(jobs@)) ==> is_latest_completion(jobs_view(jobs@), end),
{
    let ghost viewed = jobs_view(jobs@);
    let mut latest: Option<Timestamp> = None;
    let mut i: usize = 0;
    assert(viewed.take(0) =~= Seq::<JobView>::empty());
    while i < jobs.len()
        invariant
            i <= jobs.len(),
            viewed == jobs_view(jobs@),
            latest == latest_completion(viewed.take(i as int)),
        decreases jobs.len() - i,
    {
        proof {
            let next = viewed.take(i + 1);
            assert(next.drop_last() =~= viewed.take(i as int));
            assert(next.last() == jobs@[i as int]@);
        }
        match jobs[i].completed_at {
            None => {},
            Some(completed) => {
                latest = match latest {
                    None => Some(completed),
                    Some(seen) => Some(seen.latest(completed)),
                };
            },
        }
        i += 1;
    }
    proof {
        assert(viewed.take(jobs.len() as int) =~= viewed);
        lemma_latest_completion(viewed);
    }
    match latest {
        Some(end) => end,
        None => run.created_at,
    }
}

} // verus!
