use vdb_csv_export::entry::VoxelEntry;
use vdb_csv_export::job::attempt_path;
use vdb_csv_export::job::export_grid;
use vdb_csv_export::job::job_step;
use vdb_csv_export::job::sink_step;
use vdb_csv_export::job::JobEvent;
use vdb_csv_export::job::JobState;
use vdb_csv_export::job::SinkPhase;

#[test]
fn export_plans_paths_and_content() {
    let entries = vec![
        VoxelEntry::new(1, 2, 3, 1, String::from("0.5")).unwrap(),
        VoxelEntry::new(4, 5, 6, 8, String::from("2")).unwrap(),
    ];
    let g = export_grid(Some(&entries), "out/a/x.vdb", &String::from("density"), 0);
    assert_eq!(g.name, "density");
    assert_eq!(g.primary_path, "out/a/x.density.csv");
    assert_eq!(g.fallback_path, "out/a/x.0.csv");
    assert_eq!(
        g.content.as_deref(),
        Some("x,y,z,span,value\n1,2,3,1,0.5\n4,5,6,8,2\n")
    );
}

#[test]
fn unreadable_grid_has_no_content_but_keeps_paths() {
    let g = export_grid(None, "out/x.vdb", &String::from("temperature"), 3);
    assert_eq!(g.name, "temperature");
    assert_eq!(g.primary_path, "out/x.temperature.csv");
    assert_eq!(g.fallback_path, "out/x.3.csv");
    assert!(g.content.is_none());
}

#[test]
fn primary_failure_retries_fallback_then_gives_up() {
    let g = export_grid(None, "out/x.vdb", &String::from("density"), 0);

    let phase = SinkPhase::TryPrimary;
    assert_eq!(attempt_path(&g.primary_path, &g.fallback_path, phase), Some(&g.primary_path));
    assert_eq!(
        attempt_path(&g.primary_path, &g.fallback_path, phase).map(String::as_str),
        Some("out/x.density.csv")
    );

    let phase = sink_step(phase, false);
    assert!(matches!(phase, SinkPhase::TryFallback));
    assert_eq!(
        attempt_path(&g.primary_path, &g.fallback_path, phase).map(String::as_str),
        Some("out/x.0.csv")
    );

    let succeeded = sink_step(phase, true);
    assert!(matches!(succeeded, SinkPhase::Writing));
    assert_eq!(attempt_path(&g.primary_path, &g.fallback_path, succeeded), None);

    let failed = sink_step(phase, false);
    assert!(matches!(failed, SinkPhase::Abandoned));
    assert_eq!(attempt_path(&g.primary_path, &g.fallback_path, failed), None);
}

#[test]
fn job_runs_to_done_despite_grid_failures() {
    let s = job_step(JobState::Init, JobEvent::DirEnsured);
    assert!(matches!(s, JobState::DirectoryEnsured));
    let s = job_step(s, JobEvent::GridsFound);
    assert!(matches!(s, JobState::GridsListed));
    let s = job_step(s, JobEvent::AllGridsAttempted);
    assert!(matches!(s, JobState::Done));
}

#[test]
fn directory_failure_aborts_the_file() {
    let s = job_step(JobState::Init, JobEvent::DirFailed);
    assert!(matches!(s, JobState::Aborted));
}

#[test]
fn listing_failure_aborts_the_file() {
    let s = job_step(JobState::Init, JobEvent::DirEnsured);
    let s = job_step(s, JobEvent::ListingFailed);
    assert!(matches!(s, JobState::Aborted));
}

#[test]
fn unrelated_events_change_nothing() {
    let s = job_step(JobState::Done, JobEvent::DirFailed);
    assert!(matches!(s, JobState::Done));
    let s = job_step(JobState::Aborted, JobEvent::GridsFound);
    assert!(matches!(s, JobState::Aborted));
}
