use unrar_lib::{
    batch_dir, batch_dir_step, collect_report, gate_installed, gate_pending, gate_probed,
    plan_batch, resolve_jobs, stamp_if_valid, stamp_of, workspace_for, Action,
    ConfigError, DirDecision, DirEvent, Event, GateAction, GateStage, JobError, JobRun, Stage,
    Timestamp, TOOL_NAME,
};

fn inputs(paths: &[(&str, bool)]) -> Vec<(String, bool)> {
    paths.iter().map(|(p, e)| (p.to_string(), *e)).collect()
}

fn moment() -> Timestamp {
    Timestamp { year: 2024, month: 3, day: 5, hour: 7, minute: 8, second: 9 }
}

/// The first-choice batch directory under `root` for the moment `t`.
fn dir_at(root: &str, t: &Timestamp) -> String {
    batch_dir(&root.to_string(), &stamp_of(t), 0)
}

/// Drives one job with the given outcomes, recording the steps it asked for.
fn drive(run: &mut JobRun, events: Vec<Event>) -> Vec<Action> {
    let mut asked = vec![run.pending()];
    for e in events {
        assert!(run.accepts(&e));
        asked.push(run.advance(e));
    }
    asked
}

#[test]
fn two_archives_extracted_and_removed() {
    let jobs = resolve_jobs(
        &inputs(&[("a.rar", true), ("b.rar", true)]),
        Some("./out".to_string()),
        false,
        false,
    )
    .unwrap();
    let dir = dir_at("./out", &moment());
    let mut runs = plan_batch(&jobs, &dir);
    assert_eq!(runs.len(), 2);
    assert_eq!(runs[0].workspace, "./out/2024-03-05_07-08-09/0");
    assert_eq!(runs[1].workspace, "./out/2024-03-05_07-08-09/1");
    for run in runs.iter_mut() {
        let asked = drive(
            run,
            vec![
                Event::WorkspaceCreated,
                Event::ArchiveChecked(true),
                Event::ToolExited(Some(0)),
                Event::Removed,
            ],
        );
        assert_eq!(
            asked,
            vec![
                Action::CreateWorkspace,
                Action::CheckArchive,
                Action::RunTool,
                Action::RemoveArchive,
                Action::Finish
            ]
        );
    }
    let report = collect_report(runs, 12);
    assert_eq!(report.results.len(), 2);
    assert_eq!(report.results[0].archive_path, "a.rar");
    assert_eq!(report.results[1].archive_path, "b.rar");
    assert_eq!(report.failures(), 0);
    assert_eq!(report.exit_code(), 0);
    assert_eq!(report.elapsed_ms, 12);
}

#[test]
fn missing_input_refuses_batch() {
    let r = resolve_jobs(&inputs(&[("missing.rar", false)]), None, false, false);
    assert_eq!(r.unwrap_err(), ConfigError::InputNotFound("missing.rar".to_string()));
}

#[test]
fn first_missing_input_is_named() {
    let r = resolve_jobs(
        &inputs(&[("a.rar", true), ("b.rar", false), ("c.rar", false)]),
        None,
        true,
        true,
    );
    assert_eq!(r.unwrap_err(), ConfigError::InputNotFound("b.rar".to_string()));
}

#[test]
fn no_input_refuses_batch() {
    let r = resolve_jobs(&Vec::new(), None, false, false);
    assert_eq!(r.unwrap_err(), ConfigError::NoInput);
}

#[test]
fn defaults_and_flags_reach_every_job() {
    let jobs = resolve_jobs(&inputs(&[("x.rar", true), ("y.rar", true)]), None, true, true).unwrap();
    assert_eq!(jobs.len(), 2);
    for (job, name) in jobs.iter().zip(["x.rar", "y.rar"]) {
        assert_eq!(job.archive_path, name);
        assert_eq!(job.output_root, "./temp");
        assert!(job.keep_original);
        assert!(job.overwrite_existing);
    }
}

#[test]
fn one_failure_does_not_touch_the_other_job() {
    let jobs = resolve_jobs(&inputs(&[("a.rar", true), ("b.rar", true)]), None, false, false)
        .unwrap();
    let mut runs = plan_batch(&jobs, &dir_at("./temp", &moment()));
    let failed = drive(
        &mut runs[0],
        vec![Event::WorkspaceCreated, Event::ArchiveChecked(true), Event::ToolExited(Some(2))],
    );
    assert_eq!(failed.last(), Some(&Action::Finish));
    assert!(!failed.contains(&Action::RemoveArchive));
    let ok = drive(
        &mut runs[1],
        vec![
            Event::WorkspaceCreated,
            Event::ArchiveChecked(true),
            Event::ToolExited(Some(0)),
            Event::Removed,
        ],
    );
    assert!(ok.contains(&Action::RemoveArchive));
    let report = collect_report(runs, 0);
    assert_eq!(report.failures(), 1);
    assert_eq!(report.exit_code(), 1);
    assert!(!report.results[0].succeeded);
    assert_eq!(report.results[0].error, Some(JobError::ToolFailed(Some(2))));
    assert!(report.results[1].succeeded);
    assert_eq!(report.results[1].error, None);
}

#[test]
fn kept_archives_are_never_removed() {
    let jobs = resolve_jobs(&inputs(&[("a.rar", true)]), None, true, false).unwrap();
    let mut runs = plan_batch(&jobs, &dir_at("./temp", &moment()));
    let asked = drive(
        &mut runs[0],
        vec![Event::WorkspaceCreated, Event::ArchiveChecked(true), Event::ToolExited(Some(0))],
    );
    assert_eq!(asked, vec![Action::CreateWorkspace, Action::CheckArchive, Action::RunTool, Action::Finish]);
    let report = collect_report(runs, 0);
    assert_eq!(report.exit_code(), 0);
}

#[test]
fn two_kept_runs_use_distinct_workspaces() {
    let jobs = resolve_jobs(&inputs(&[("a.rar", true)]), None, true, false).unwrap();
    let first = plan_batch(&jobs, &dir_at("./temp", &moment()));
    let later = Timestamp { second: 10, ..moment() };
    let second = plan_batch(&jobs, &dir_at("./temp", &later));
    assert_eq!(first[0].workspace, "./temp/2024-03-05_07-08-09/0");
    assert_eq!(second[0].workspace, "./temp/2024-03-05_07-08-10/0");
}

#[test]
fn workspace_creation_failure() {
    let jobs = resolve_jobs(&inputs(&[("a.rar", true)]), None, false, false).unwrap();
    let mut runs = plan_batch(&jobs, &dir_at("./temp", &moment()));
    let asked = drive(&mut runs[0], vec![Event::WorkspaceFailed("denied".to_string())]);
    assert_eq!(asked, vec![Action::CreateWorkspace, Action::Finish]);
    assert_eq!(runs[0].stage, Stage::Done);
    let r = runs.pop().unwrap().into_result();
    assert_eq!(r.error, Some(JobError::WorkspaceCreate("denied".to_string())));
    assert!(!r.succeeded);
}

#[test]
fn archive_gone_before_extraction() {
    let jobs = resolve_jobs(&inputs(&[("a.rar", true)]), None, false, false).unwrap();
    let mut runs = plan_batch(&jobs, &dir_at("./temp", &moment()));
    let asked = drive(&mut runs[0], vec![Event::WorkspaceCreated, Event::ArchiveChecked(false)]);
    assert!(!asked.contains(&Action::RunTool));
    let r = runs.pop().unwrap().into_result();
    assert_eq!(r.error, Some(JobError::ArchiveMissing));
}

#[test]
fn tool_launch_failure() {
    let jobs = resolve_jobs(&inputs(&[("a.rar", true)]), None, false, false).unwrap();
    let mut runs = plan_batch(&jobs, &dir_at("./temp", &moment()));
    drive(
        &mut runs[0],
        vec![
            Event::WorkspaceCreated,
            Event::ArchiveChecked(true),
            Event::ToolLaunchFailed("not found".to_string()),
        ],
    );
    let r = runs.pop().unwrap().into_result();
    assert_eq!(r.error, Some(JobError::ToolLaunch("not found".to_string())));
}

#[test]
fn tool_killed_without_exit_code() {
    let jobs = resolve_jobs(&inputs(&[("a.rar", true)]), None, false, false).unwrap();
    let mut runs = plan_batch(&jobs, &dir_at("./temp", &moment()));
    drive(
        &mut runs[0],
        vec![Event::WorkspaceCreated, Event::ArchiveChecked(true), Event::ToolExited(None)],
    );
    let r = runs.pop().unwrap().into_result();
    assert_eq!(r.error, Some(JobError::ToolFailed(None)));
}

#[test]
fn removal_failure_is_a_warning() {
    let jobs = resolve_jobs(&inputs(&[("a.rar", true)]), None, false, false).unwrap();
    let mut runs = plan_batch(&jobs, &dir_at("./temp", &moment()));
    drive(
        &mut runs[0],
        vec![
            Event::WorkspaceCreated,
            Event::ArchiveChecked(true),
            Event::ToolExited(Some(0)),
            Event::RemoveFailed("busy".to_string()),
        ],
    );
    let report = collect_report(runs, 0);
    assert!(report.results[0].succeeded);
    assert_eq!(report.results[0].warning, Some("busy".to_string()));
    assert_eq!(report.exit_code(), 0);
}

#[test]
fn events_out_of_turn_are_refused() {
    let jobs = resolve_jobs(&inputs(&[("a.rar", true)]), None, false, false).unwrap();
    let runs = plan_batch(&jobs, &dir_at("./temp", &moment()));
    assert!(!runs[0].accepts(&Event::Removed));
    assert!(!runs[0].accepts(&Event::ToolExited(Some(0))));
    assert!(runs[0].accepts(&Event::WorkspaceCreated));
}

#[test]
fn tool_arguments() {
    let plain = resolve_jobs(&inputs(&[("a.rar", true)]), None, false, false).unwrap();
    let runs = plan_batch(&plain, &"./temp/s".to_string());
    assert_eq!(runs[0].tool_args(), vec!["a.rar", "-o", "./temp/s/0"]);
    let forced = resolve_jobs(&inputs(&[("a.rar", true)]), None, false, true).unwrap();
    let runs = plan_batch(&forced, &"./temp/s".to_string());
    assert_eq!(runs[0].tool_args(), vec!["a.rar", "-o", "./temp/s/0", "-force-overwrite"]);
    assert_eq!(TOOL_NAME, "unar");
}

#[test]
fn stamp_format() {
    assert_eq!(stamp_of(&moment()), "2024-03-05_07-08-09");
    let t = Timestamp { year: 999, month: 12, day: 31, hour: 23, minute: 59, second: 59 };
    assert_eq!(stamp_of(&t), "0999-12-31_23-59-59");
    let leap = Timestamp { year: 2000, month: 2, day: 29, hour: 0, minute: 0, second: 0 };
    assert_eq!(stamp_of(&leap), "2000-02-29_00-00-00");
    let far = Timestamp { year: 12345, month: 1, day: 1, hour: 0, minute: 0, second: 0 };
    assert_eq!(stamp_of(&far), "+12345-01-01_00-00-00");
    let early = Timestamp { year: -5, month: 1, day: 1, hour: 0, minute: 0, second: 0 };
    assert_eq!(stamp_of(&early), "-0005-01-01_00-00-00");
}

#[test]
fn stamps_of_invalid_moments() {
    assert_eq!(stamp_if_valid(&moment()), Some("2024-03-05_07-08-09".to_string()));
    let feb30 = Timestamp { month: 2, day: 30, ..moment() };
    assert!(!feb30.is_valid());
    assert_eq!(stamp_if_valid(&feb30), None);
    let feb29 = Timestamp { year: 1900, month: 2, day: 29, ..moment() };
    assert_eq!(stamp_if_valid(&feb29), None);
    let past_end = Timestamp { year: 262143, month: 1, day: 1, ..moment() };
    assert_eq!(stamp_if_valid(&past_end), None);
    let last = Timestamp { year: 262142, month: 12, day: 31, ..moment() };
    assert_eq!(stamp_if_valid(&last), Some("+262142-12-31_07-08-09".to_string()));
    let late = Timestamp { hour: 24, ..moment() };
    assert_eq!(stamp_if_valid(&late), None);
}

#[test]
fn workspace_indexes() {
    assert_eq!(workspace_for(&"r/s".to_string(), 0), "r/s/0");
    assert_eq!(workspace_for(&"r/s".to_string(), 10), "r/s/10");
    assert_eq!(workspace_for(&"r/s".to_string(), 1), "r/s/1");
    assert_eq!(workspace_for(&"r/s".to_string(), 907), "r/s/907");
}

#[test]
fn batch_directory_attempts() {
    let root = "./temp".to_string();
    let stamp = "2024-03-05_07-08-09".to_string();
    assert_eq!(batch_dir(&root, &stamp, 0), "./temp/2024-03-05_07-08-09");
    assert_eq!(batch_dir(&root, &stamp, 1), "./temp/2024-03-05_07-08-09.1");
    assert_eq!(batch_dir(&root, &stamp, 12), "./temp/2024-03-05_07-08-09.12");
}

#[test]
fn batch_directory_steps() {
    assert_eq!(batch_dir_step(0, DirEvent::Created), DirDecision::Ready);
    assert_eq!(batch_dir_step(0, DirEvent::AlreadyExists), DirDecision::Retry(1));
    assert_eq!(batch_dir_step(7, DirEvent::AlreadyExists), DirDecision::Retry(8));
    assert_eq!(batch_dir_step(u64::MAX, DirEvent::AlreadyExists), DirDecision::Exhausted);
    assert_eq!(
        batch_dir_step(3, DirEvent::Failed("denied".to_string())),
        DirDecision::Unavailable("denied".to_string())
    );
}

#[test]
fn two_batches_in_the_same_second() {
    let jobs = resolve_jobs(&inputs(&[("a.rar", true)]), None, true, false).unwrap();
    let root = "./temp".to_string();
    let stamp = stamp_of(&moment());
    let first_dir = batch_dir(&root, &stamp, 0);
    let first = plan_batch(&jobs, &first_dir);
    // The second run finds the first run's directory taken and moves on.
    let next = match batch_dir_step(0, DirEvent::AlreadyExists) {
        DirDecision::Retry(n) => n,
        other => panic!("unexpected decision {:?}", other),
    };
    let second_dir = batch_dir(&root, &stamp, next);
    assert_eq!(batch_dir_step(next, DirEvent::Created), DirDecision::Ready);
    let second = plan_batch(&jobs, &second_dir);
    assert_eq!(first[0].workspace, "./temp/2024-03-05_07-08-09/0");
    assert_eq!(second[0].workspace, "./temp/2024-03-05_07-08-09.1/0");
    assert!(!second[0].workspace.starts_with(&format!("{}/", first[0].workspace)));
    assert!(!first[0].workspace.starts_with(&format!("{}/", second[0].workspace)));
}

#[test]
fn empty_batch_report() {
    let report = collect_report(Vec::new(), 3);
    assert_eq!(report.results.len(), 0);
    assert_eq!(report.failures(), 0);
    assert_eq!(report.exit_code(), 0);
}

#[test]
fn gate_tool_present() {
    let s = GateStage::FirstProbe;
    assert_eq!(gate_pending(s), GateAction::Probe);
    let s = gate_probed(s, true);
    assert_eq!(gate_pending(s), GateAction::Proceed(true));
}

#[test]
fn gate_installs_then_rechecks() {
    let s = gate_probed(GateStage::FirstProbe, false);
    assert_eq!(gate_pending(s), GateAction::Install);
    let s = gate_installed(s, false);
    assert_eq!(gate_pending(s), GateAction::Probe);
    let s = gate_probed(s, false);
    assert_eq!(gate_pending(s), GateAction::Proceed(false));
    let s = gate_probed(gate_installed(GateStage::Installing, true), true);
    assert_eq!(gate_pending(s), GateAction::Proceed(true));
}
