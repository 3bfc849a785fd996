//! The decisions of one extraction job, as a machine from the outcome of each
//! step to the next step. The steps themselves (creating the workspace,
//! looking for the archive, running the tool, removing the archive) are
//! carried out by the caller, which reports each outcome back as an `Event`.
use vstd::prelude::*;
use crate::config::JobConfig;

verus! {

/// Where a job stands.
#[derive(Clone, Copy, Debug, PartialEq, Eq, Structural)]
pub enum Stage {
    Allocate,
    Check,
    Extract,
    Cleanup,
    Done,
}

/// The step a job asks for next.
#[derive(Clone, Copy, Debug, PartialEq, Eq, Structural)]
pub enum Action {
    /// Create the workspace directory with its missing parents.
    CreateWorkspace,
    /// Look whether the archive still exists.
    CheckArchive,
    /// Run the extraction tool with `tool_args`.
    RunTool,
    /// Delete the source archive.
    RemoveArchive,
    /// Nothing is left: take the result.
    Finish,
}

/// Why a job failed.
#[derive(Clone, Debug, PartialEq, Eq)]
pub enum JobError {
    /// The workspace directory could not be created.
    WorkspaceCreate(String),
    /// The archive was gone when the job came to extract it.
    ArchiveMissing,
    /// The tool could not be started.
    ToolLaunch(String),
    /// The tool ended with this exit code other than 0, or with none.
    ToolFailed(Option<i32>),
}

/// The outcome of the step a job asked for.
#[derive(Clone, Debug)]
pub enum Event {
    WorkspaceCreated,
    WorkspaceFailed(String),
    ArchiveChecked(bool),
    ToolLaunchFailed(String),
    ToolExited(Option<i32>),
    Removed,
    RemoveFailed(String),
}

/// How one job ended. A failed removal of the archive leaves a warning on an
/// otherwise successful job.
#[derive(Clone, Debug)]
pub struct ExtractionResult {
    pub archive_path: String,
    pub workspace: String,
    pub succeeded: bool,
    pub error: Option<JobError>,
    pub warning: Option<String>,
}

/// One job on its way through its steps.
#[derive(Debug)]
pub struct JobRun {
    pub job: JobConfig,
    pub workspace: String,
    pub stage: Stage,
    pub error: Option<JobError>,
    pub warning: Option<String>,
}

/// The arguments of the tool: the archive, `-o` with the workspace, and
/// `-force-overwrite` when existing files may be replaced.
pub open spec fn tool_args_of(archive: Seq<char>, workspace: Seq<char>, overwrite: bool) -> Seq<
    Seq<char>,
> {
    let base = seq![archive, seq!['-', 'o'], workspace];
    if overwrite {
        base.push(
            seq![
                '-',
                'f',
                'o',
                'r',
                'c',
                'e',
                '-',
                'o',
                'v',
                'e',
                'r',
                'w',
                'r',
                'i',
                't',
                'e',
            ],
        )
    } else {
        base
    }
}

/// How many steps a job at `stage` has left at most.
pub open spec fn stage_rank(stage: Stage) -> nat {
    match stage {
        Stage::Allocate => 4,
        Stage::Check => 3,
        Stage::Extract => 2,
        Stage::Cleanup => 1,
        Stage::Done => 0,
    }
}

pub open spec fn stage_action(stage: Stage) -> Action {
    match stage {
        Stage::Allocate => Action::CreateWorkspace,
        Stage::Check => Action::CheckArchive,
        Stage::Extract => Action::RunTool,
        Stage::Cleanup => Action::RemoveArchive,
        Stage::Done => Action::Finish,
    }
}

impl JobRun {
    /// Failures end a job at once; only a finished job carries a warning; the
    /// archive is only ever up for removal after a successful extraction of
    /// a job that does not keep it.
    pub open spec fn inv(&self) -> bool {
        &&& self.stage != Stage::Done ==> self.error is None
        &&& self.warning is Some ==> self.stage == Stage::Done && self.error is None
        &&& self.stage == Stage::Cleanup ==> !self.job.keep_original
    }

    /// The events that answer the step asked for at this stage.
    pub open spec fn spec_accepts(&self, e: Event) -> bool {
        match self.stage {
            Stage::Allocate => e is WorkspaceCreated || e is WorkspaceFailed,
            Stage::Check => e is ArchiveChecked,
            Stage::Extract => e is ToolLaunchFailed || e is ToolExited,
            Stage::Cleanup => e is Removed || e is RemoveFailed,
            Stage::Done => false,
        }
    }

    /// The job after the outcome `e` of its current step.
    pub open spec fn spec_next(self, e: Event) -> JobRun {
        match e {
            Event::WorkspaceCreated => JobRun { stage: Stage::Check, ..self },
            Event::WorkspaceFailed(m) => JobRun {
                stage: Stage::Done,
                error: Some(JobError::WorkspaceCreate(m)),
                ..self
            },
            Event::ArchiveChecked(present) => if present {
                JobRun { stage: Stage::Extract, ..self }
            } else {
                JobRun { stage: Stage::Done, error: Some(JobError::ArchiveMissing), ..self }
            },
            Event::ToolLaunchFailed(m) => JobRun {
                stage: Stage::Done,
                error: Some(JobError::ToolLaunch(m)),
                ..self
            },
            Event::ToolExited(code) => if code == Some(0i32) {
                if self.job.keep_original {
                    JobRun { stage: Stage::Done, ..self }
                } else {
                    JobRun { stage: Stage::Cleanup, ..self }
                }
            } else {
                JobRun { stage: Stage::Done, error: Some(JobError::ToolFailed(code)), ..self }
            },
            Event::Removed => JobRun { stage: Stage::Done, ..self },
            Event::RemoveFailed(m) => JobRun { stage: Stage::Done, warning: Some(m), ..self },
        }
    }

    /// A job for `job` that will extract into `workspace`.
    pub fn new(job: JobConfig, workspace: String) -> (r: JobRun)
        ensures
            r.job == job,
            r.workspace == workspace,
            r.stage == Stage::Allocate,
            r.error is None,
            r.warning is None,
            r.inv(),
    {
        JobRun { job, workspace, stage: Stage::Allocate, error: None, warning: None }
    }

    /// The step this job asks for.
    pub fn pending(&self) -> (a: Action)
        ensures
            a == stage_action(self.stage),
    {
        match self.stage {
            Stage::Allocate => Action::CreateWorkspace,
            Stage::Check => Action::CheckArchive,
            Stage::Extract => Action::RunTool,
            Stage::Cleanup => Action::RemoveArchive,
            Stage::Done => Action::Finish,
        }
    }

    /// Whether `e` answers the step this job asks for.
    pub fn accepts(&self, e: &Event) -> (r: bool)
        ensures
            r == self.spec_accepts(*e),
    {
        match self.stage {
            Stage::Allocate => matches!(e, Event::WorkspaceCreated | Event::WorkspaceFailed(_)),
            Stage::Check => matches!(e, Event::ArchiveChecked(_)),
            Stage::Extract => matches!(e, Event::ToolLaunchFailed(_) | Event::ToolExited(_)),
            Stage::Cleanup => matches!(e, Event::Removed | Event::RemoveFailed(_)),
            Stage::Done => false,
        }
    }

    /// Takes in the outcome of the current step and returns the next step.
    pub fn advance(&mut self, e: Event) -> (a: Action)
        requires
            old(self).inv(),
            old(self).spec_accepts(e),
        ensures
            *final(self) == old(self).spec_next(e),
            final(self).inv(),
            stage_rank(final(self).stage) < stage_rank(old(self).stage),
            a == stage_action(final(self).stage),
    {
        match e {
            Event::WorkspaceCreated => {
                self.stage = Stage::Check;
            },
            Event::WorkspaceFailed(m) => {
                self.stage = Stage::Done;
                self.error = Some(JobError::WorkspaceCreate(m));
            },
            Event::ArchiveChecked(present) => {
                if present {
                    self.stage = Stage::Extract;
                } else {
                    self.stage = Stage::Done;
                    self.error = Some(JobError::ArchiveMissing);
                }
            },
            Event::ToolLaunchFailed(m) => {
                self.stage = Stage::Done;
                self.error = Some(JobError::ToolLaunch(m));
            },
            Event::ToolExited(code) => {
                let ok = match code {
                    Some(c) => c == 0,
                    None => false,
                };
                if ok {
                    if self.job.keep_original {
                        self.stage = Stage::Done;
                    } else {
                        self.stage = Stage::Cleanup;
                    }
                } else {
                    self.stage = Stage::Done;
                    self.error = Some(JobError::ToolFailed(code));
                }
            },
            Event::Removed => {
                self.stage = Stage::Done;
            },
            Event::RemoveFailed(m) => {
                self.stage = Stage::Done;
                self.warning = Some(m);
            },
        }
        self.pending()
    }

    /// The arguments to run the tool with.
    pub fn tool_args(&self) -> (r: Vec<String>)
        ensures
            r@.map_values(|s: String| s@) == tool_args_of(
                self.job.archive_path@,
                self.workspace@,
                self.job.overwrite_existing,
            ),
    {
        let mut r: Vec<String> = Vec::new();
        r.push(self.job.archive_path.clone());
        proof { reveal_strlit("-o"); }
        let flag = String::from_str("-o");
        assert(flag@ =~= seq!['-', 'o']);
        r.push(flag);
        r.push(self.workspace.clone());
        if self.job.overwrite_existing {
            proof { reveal_strlit("-force-overwrite"); }
            let force = String::from_str("-force-overwrite");
            assert(force@ =~= tool_args_of(seq![], seq![], true)[3]);
            r.push(force);
        }
        assert(r@.map_values(|s: String| s@) =~= tool_args_of(
            self.job.archive_path@,
            self.workspace@,
            self.job.overwrite_existing,
        ));
        r
    }

    /// The result of a finished job.
    pub fn into_result(self) -> (r: ExtractionResult)
        requires
            self.stage == Stage::Done,
        ensures
            r.archive_path == self.job.archive_path,
            r.workspace == self.workspace,
            r.succeeded == (self.error is None),
            r.error == self.error,
            r.warning == self.warning,
    {
        let succeeded = self.error.is_none();
        ExtractionResult {
            archive_path: self.job.archive_path,
            workspace: self.workspace,
            succeeded,
            error: self.error,
            warning: self.warning,
        }
    }
}

} // verus!

verus! {

/// Whatever its steps report, a job keeps its configuration and workspace,
/// keeps its invariant, and comes one stage closer to its end; so a job ends
/// after at most `stage_rank` steps with exactly one result, failed or not.
pub proof fn lemma_job_progress(run: JobRun, e: Event)
    requires
        run.inv(),
        run.spec_accepts(e),
    ensures
        run.stage != Stage::Done,
        run.spec_next(e).inv(),
        run.spec_next(e).job == run.job,
        run.spec_next(e).workspace == run.workspace,
        stage_rank(run.spec_next(e).stage) < stage_rank(run.stage),
{
}

/// When the tool succeeds, a job that does not keep its archive goes on to
/// remove it, and a job that keeps it finishes at once; either way the job
/// ends successful, whether or not the removal works.
pub proof fn lemma_success_removes_unless_kept(run: JobRun, e: Event)
    requires
        run.inv(),
        run.stage == Stage::Extract,
    ensures
        ({
            let after = run.spec_next(Event::ToolExited(Some(0i32)));
            &&& stage_action(after.stage) == Action::RemoveArchive <==> !run.job.keep_original
            &&& after.error is None
            &&& after.stage == Stage::Cleanup && after.spec_accepts(e) ==> after.spec_next(e).stage
                == Stage::Done && after.spec_next(e).error is None
        }),
{
}

/// A job that keeps its archive never asks for it to be removed, whatever
/// its steps report.
pub proof fn lemma_kept_archive_never_removed(run: JobRun, e: Event)
    requires
        run.inv(),
        run.job.keep_original,
        run.spec_accepts(e),
    ensures
        stage_action(run.stage) != Action::RemoveArchive,
        stage_action(run.spec_next(e).stage) != Action::RemoveArchive,
{
}

/// The tool runs only after the archive was found: a job that finds its
/// archive missing ends failed without running anything.
pub proof fn lemma_missing_archive_not_extracted(run: JobRun)
    requires
        run.inv(),
        run.stage == Stage::Check,
    ensures
        run.spec_next(Event::ArchiveChecked(false)).stage == Stage::Done,
        run.spec_next(Event::ArchiveChecked(false)).error == Some(JobError::ArchiveMissing),
        stage_action(run.spec_next(Event::ArchiveChecked(true)).stage) == Action::RunTool,
{
}

} // verus!
