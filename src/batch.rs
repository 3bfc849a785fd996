//! A batch: one job per archive, each in its own workspace, and the report
//! gathered once every job has finished.
use vstd::prelude::*;
use crate::config::JobConfig;
use crate::job::{ExtractionResult, JobRun, Stage};
use crate::workspace::{apart, lemma_workspaces_distinct, workspace_for, workspace_path};

verus! {

/// Every job of a batch, in input order, and how long the batch took.
#[derive(Debug)]
pub struct BatchReport {
    pub results: Vec<ExtractionResult>,
    pub elapsed_ms: u64,
}

/// How many of `results` failed.
pub open spec fn failed_count(results: Seq<ExtractionResult>) -> nat
    decreases results.len(),
{
    if results.len() == 0 {
        0
    } else {
        failed_count(results.drop_last()) + if results.last().succeeded {
            0nat
        } else {
            1nat
        }
    }
}

/// `r` is the result of the finished job `run`.
pub open spec fn result_of(run: JobRun, r: ExtractionResult) -> bool {
    &&& r.archive_path == run.job.archive_path
    &&& r.workspace == run.workspace
    &&& r.succeeded == (run.error is None)
    &&& r.error == run.error
    &&& r.warning == run.warning
}

/// A fresh job for `job`, number `index` of the batch in directory `dir`.
pub open spec fn planned(job: JobConfig, dir: Seq<char>, index: nat, run: JobRun) -> bool {
    &&& run.job == job
    &&& run.workspace@ == workspace_path(dir, index)
    &&& run.stage == Stage::Allocate
    &&& run.error is None
    &&& run.warning is None
}

fn copy_job(job: &JobConfig) -> (r: JobConfig)
    ensures
        r == *job,
{
    JobConfig {
        archive_path: job.archive_path.clone(),
        output_root: job.output_root.clone(),
        keep_original: job.keep_original,
        overwrite_existing: job.overwrite_existing,
    }
}

/// One fresh job per configuration, in order, job `i` extracting into
/// `{dir}/{i}`, where `dir` is the batch directory.
pub fn plan_batch(jobs: &Vec<JobConfig>, dir: &String) -> (runs: Vec<JobRun>)
    ensures
        runs@.len() == jobs@.len(),
        forall|i: int|
            #![trigger runs@[i]]
            0 <= i < runs@.len() ==> planned(jobs@[i], dir@, i as nat, runs@[i]) && runs@[i].inv(),
{
    let mut runs: Vec<JobRun> = Vec::new();
    let mut i: usize = 0;
    while i < jobs.len()
        invariant
            i <= jobs@.len(),
            runs@.len() == i,
            forall|k: int|
                #![trigger runs@[k]]
                0 <= k < i ==> planned(jobs@[k], dir@, k as nat, runs@[k]) && runs@[k].inv(),
        decreases jobs@.len() - i,
    {
        let workspace = workspace_for(dir, i);
        let run = JobRun::new(copy_job(&jobs[i]), workspace);
        runs.push(run);
        i = i + 1;
    }
    runs
}

/// The report of a batch whose jobs have all finished: exactly one result
/// per job, in the order of the jobs.
pub fn collect_report(runs: Vec<JobRun>, elapsed_ms: u64) -> (r: BatchReport)
    requires
        forall|i: int| 0 <= i < runs@.len() ==> (#[trigger] runs@[i]).stage == Stage::Done,
    ensures
        r.results@.len() == runs@.len(),
        forall|i: int|
            0 <= i < runs@.len() ==> result_of(#[trigger] runs@[i], r.results@[i]),
        r.elapsed_ms == elapsed_ms,
{
    let ghost all = runs@;
    let mut rest = runs;
    let mut results: Vec<ExtractionResult> = Vec::new();
    while rest.len() > 0
        invariant
            results@.len() + rest@.len() == all.len(),
            rest@ == all.subrange(results@.len() as int, all.len() as int),
            forall|i: int| 0 <= i < all.len() ==> (#[trigger] all[i]).stage == Stage::Done,
            forall|i: int|
                0 <= i < results@.len() ==> result_of(#[trigger] all[i], results@[i]),
        decreases rest@.len(),
    {
        let run = rest.remove(0);
        assert(run == all[results@.len() as int]);
        results.push(run.into_result());
        assert(rest@ =~= all.subrange(results@.len() as int, all.len() as int));
    }
    BatchReport { results, elapsed_ms }
}

/// The jobs of a batch each extract into a workspace of their own, none
/// inside another.
pub proof fn lemma_batch_workspaces_distinct(
    jobs: Seq<JobConfig>,
    dir: Seq<char>,
    runs: Seq<JobRun>,
    i: int,
    j: int,
)
    requires
        runs.len() == jobs.len(),
        forall|k: int| #![trigger runs[k]] 0 <= k < runs.len() ==> planned(jobs[k], dir, k as nat, runs[k]),
        0 <= i < runs.len(),
        0 <= j < runs.len(),
        i != j,
    ensures
        apart(runs[i].workspace@, runs[j].workspace@),
{
    assert(planned(jobs[i], dir, i as nat, runs[i]));
    assert(planned(jobs[j], dir, j as nat, runs[j]));
    lemma_workspaces_distinct(dir, i as nat, j as nat);
}

impl BatchReport {
    /// How many jobs failed.
    pub fn failures(&self) -> (n: usize)
        ensures
            n == failed_count(self.results@),
    {
        let mut n: usize = 0;
        let mut i: usize = 0;
        while i < self.results.len()
            invariant
                i <= self.results@.len(),
                n == failed_count(self.results@.subrange(0, i as int)),
                n <= i,
            decreases self.results@.len() - i,
        {
            assert(self.results@.subrange(0, i as int + 1).drop_last() =~= self.results@.subrange(
                0,
                i as int,
            ));
            if !self.results[i].succeeded {
                n = n + 1;
            }
            i = i + 1;
        }
        assert(self.results@.subrange(0, i as int) =~= self.results@);
        n
    }

    /// 0 when every job succeeded, 1 when any failed.
    pub fn exit_code(&self) -> (c: i32)
        ensures
            c == 0 <==> forall|i: int|
                0 <= i < self.results@.len() ==> (#[trigger] self.results@[i]).succeeded,
            c == 0 || c == 1,
    {
        let mut i: usize = 0;
        while i < self.results.len()
            invariant
                i <= self.results@.len(),
                forall|k: int| 0 <= k < i ==> (#[trigger] self.results@[k]).succeeded,
            decreases self.results@.len() - i,
        {
            if !self.results[i].succeeded {
                return 1;
            }
            i = i + 1;
        }
        0
    }
}

} // verus!
