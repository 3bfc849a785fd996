//! Batch extraction of archives through an external tool: job configuration,
//! per-job workspaces, the per-job decision machine, the check that the tool
//! is present, and the batch report.

mod batch;
mod config;
mod gate;
mod job;
mod text;
mod timestamp;
mod workspace;

pub use batch::{
    collect_report, failed_count, lemma_batch_workspaces_distinct, plan_batch, planned, result_of,
    BatchReport,
};
pub use config::{
    default_output_root, first_missing, output_root_of, resolve_jobs, ConfigError, JobConfig,
};
pub use gate::{
    after_probe, gate_action, gate_installed, gate_pending, gate_probed,
    lemma_gate_installs_at_most_once, GateAction, GateStage, TOOL_NAME,
};
pub use job::{
    lemma_job_progress, lemma_kept_archive_never_removed, lemma_missing_archive_not_extracted,
    lemma_success_removes_unless_kept, stage_action, stage_rank, tool_args_of, Action, Event,
    ExtractionResult, JobError, JobRun, Stage,
};
pub use text::{decimal, digit_char, lemma_decimal_injective, lemma_pad_injective, no_slash, pad2, pad4};
pub use timestamp::{
    clock_text, days_in_month, is_leap_year, lemma_stamp_injective, stamp_if_valid, stamp_of, stamp_text, year_text, Timestamp,
};
pub use workspace::{
    apart, batch_dir, batch_dir_path, batch_dir_step, batch_name, child, inside,
    lemma_attempts_apart, lemma_children_apart, lemma_roots_apart, lemma_runs_apart,
    lemma_stamp_no_slash, lemma_workspaces_distinct, workspace_for, workspace_path, DirDecision,
    DirEvent,
};
