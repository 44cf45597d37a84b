use cargo_cleanall::{
    cargo_projects, check_request, concurrency_limit, is_cargo_project, limit_for_cpus, marked_positions,
    needs_manifest_probe, probe_failed, projects_with_target, CleanAllError, CleanTally, DiscoveryError, EntryProbe, FileProbe, Notice, PathProbe,
    TaskOutcome,
};

fn entry(kind: PathProbe, manifest: Option<FileProbe>) -> EntryProbe {
    EntryProbe { kind, manifest }
}

#[test]
fn only_directories_get_their_manifest_inspected() {
    assert!(needs_manifest_probe(PathProbe::Dir));
    assert!(!needs_manifest_probe(PathProbe::NotDir));
    assert!(!needs_manifest_probe(PathProbe::Failed));
}

#[test]
fn project_needs_directory_and_manifest_file() {
    assert!(is_cargo_project(entry(PathProbe::Dir, Some(FileProbe::File))));
    assert!(!is_cargo_project(entry(PathProbe::Dir, Some(FileProbe::NotFile))));
    assert!(!is_cargo_project(entry(PathProbe::Dir, Some(FileProbe::Failed))));
    assert!(!is_cargo_project(entry(PathProbe::Dir, Some(FileProbe::Missing))));
    assert!(!is_cargo_project(entry(PathProbe::Dir, None)));
    assert!(!is_cargo_project(entry(PathProbe::NotDir, Some(FileProbe::File))));
    assert!(!is_cargo_project(entry(PathProbe::Failed, None)));
}

#[test]
fn fifteen_projects_are_all_found() {
    let entries: Vec<EntryProbe> = (0..15).map(|_| entry(PathProbe::Dir, Some(FileProbe::File))).collect();
    assert_eq!(cargo_projects(&entries), Ok((0..15).collect::<Vec<usize>>()));
}

#[test]
fn mixed_entries() {
    let entries = vec![
        entry(PathProbe::NotDir, None),
        entry(PathProbe::Dir, Some(FileProbe::File)),
        entry(PathProbe::Dir, Some(FileProbe::Missing)),
        entry(PathProbe::Dir, Some(FileProbe::NotFile)),
        entry(PathProbe::Dir, Some(FileProbe::File)),
    ];
    assert_eq!(cargo_projects(&entries), Ok(vec![1, 4]));
    assert_eq!(cargo_projects(&Vec::new()), Ok(Vec::<usize>::new()));
}

#[test]
fn failed_reads_are_errors() {
    let entries = vec![
        entry(PathProbe::Dir, Some(FileProbe::File)),
        entry(PathProbe::Dir, Some(FileProbe::Failed)),
        entry(PathProbe::Failed, None),
    ];
    assert_eq!(cargo_projects(&entries), Err(DiscoveryError::Manifest(1)));
    let entries = vec![entry(PathProbe::NotDir, None), entry(PathProbe::Failed, None)];
    assert_eq!(cargo_projects(&entries), Err(DiscoveryError::EntryType(1)));
    assert!(probe_failed(entry(PathProbe::Failed, None)));
    assert!(probe_failed(entry(PathProbe::Dir, Some(FileProbe::Failed))));
    assert!(!probe_failed(entry(PathProbe::Dir, Some(FileProbe::Missing))));
}

#[test]
fn search_ignores_listing_order() {
    let a = vec![
        entry(PathProbe::Dir, Some(FileProbe::File)),
        entry(PathProbe::NotDir, None),
        entry(PathProbe::Dir, Some(FileProbe::Missing)),
        entry(PathProbe::Dir, Some(FileProbe::File)),
    ];
    let perm = [3usize, 2, 0, 1];
    let b: Vec<EntryProbe> = perm.iter().map(|&i| a[i]).collect();
    let pa = cargo_projects(&a).unwrap();
    let pb = cargo_projects(&b).unwrap();
    assert_eq!(pa.len(), pb.len());
    for k in 0..b.len() {
        assert_eq!(pb.contains(&k), pa.contains(&perm[k]));
    }
}

#[test]
fn marked_positions_in_order() {
    assert_eq!(marked_positions(&vec![true, false, false, true, true]), vec![0, 3, 4]);
    assert_eq!(marked_positions(&vec![false, false]), Vec::<usize>::new());
}

#[test]
fn only_projects_with_target_dir_are_kept() {
    let targets = vec![PathProbe::Dir, PathProbe::Failed, PathProbe::NotDir, PathProbe::Dir];
    assert_eq!(projects_with_target(&targets), vec![0, 3]);
}

#[test]
fn request_checks_in_order() {
    assert_eq!(check_request(PathProbe::Failed, 0), Err(CleanAllError::RootMetadata));
    assert_eq!(check_request(PathProbe::NotDir, 0), Err(CleanAllError::RootNotADirectory));
    assert_eq!(check_request(PathProbe::Dir, 0), Err(CleanAllError::ZeroLimit));
    assert_eq!(check_request(PathProbe::Dir, 1), Ok(()));
    assert_eq!(check_request(PathProbe::Dir, 64), Ok(()));
}

#[test]
fn limit_for_cpu_counts() {
    assert_eq!(limit_for_cpus(0), 0);
    assert_eq!(limit_for_cpus(1), 1);
    assert_eq!(limit_for_cpus(2), 2);
    assert_eq!(limit_for_cpus(3), 12);
    assert_eq!(limit_for_cpus(8), 32);
    assert_eq!(limit_for_cpus(9), 36);
    assert_eq!(limit_for_cpus(32), 128);
    assert_eq!(limit_for_cpus(33), 128);
    assert_eq!(limit_for_cpus(usize::MAX), 128);
}

#[test]
fn limit_is_monotone_and_bounded() {
    let mut last = 0;
    for cpus in 1..300 {
        let l = limit_for_cpus(cpus);
        assert!(l >= last && (1..=128).contains(&l));
        last = l;
    }
}

#[test]
fn default_limit_is_accepted() {
    let l = concurrency_limit();
    assert!((1..=128).contains(&l));
    assert_eq!(check_request(PathProbe::Dir, l), Ok(()));
}

#[test]
fn tally_counts_cleaned_projects() {
    let mut t = CleanTally::new(false, 4);
    assert_eq!(t.record(TaskOutcome::Cleaned), Notice::Quiet);
    assert_eq!(t.record(TaskOutcome::Skipped), Notice::Quiet);
    assert_eq!(t.record(TaskOutcome::Failed), Notice::ReportError);
    assert_eq!(t.record(TaskOutcome::Cleaned), Notice::Quiet);
    assert_eq!((t.cleaned(), t.seen(), t.total()), (2, 4, 4));
}

#[test]
fn dry_run_tally_reports_would_clean() {
    let mut t = CleanTally::new(true, 2);
    assert_eq!(t.record(TaskOutcome::Cleaned), Notice::WouldClean);
    assert_eq!(t.record(TaskOutcome::Aborted), Notice::Abort);
    assert_eq!(t.cleaned(), 1);
}
