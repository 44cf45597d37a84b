use cargo_cleanall::{CleanAction, CleanDir, CleanError, CleanEvent, FileProbe, PathProbe, TargetProbe};

fn run(fast: bool, dry_run: bool, project: PathProbe, manifest: FileProbe, target: TargetProbe, removed: bool, cargo: Option<bool>) -> (Vec<CleanAction>, Result<bool, CleanError>) {
    let mut m = CleanDir::new(fast, dry_run);
    let mut actions = Vec::new();
    let mut action = m.pending();
    loop {
        actions.push(action);
        let event = match action {
            CleanAction::InspectProject => CleanEvent::Project(project),
            CleanAction::InspectManifest => CleanEvent::Manifest(manifest),
            CleanAction::InspectTarget => CleanEvent::Target(target),
            CleanAction::RemoveTarget => CleanEvent::Removed(removed),
            CleanAction::RunCargoClean => CleanEvent::CargoExited(cargo),
            CleanAction::Finish(r) => return (actions, r),
        };
        action = m.step(event);
    }
}

#[test]
fn clean_with_cargo_succeeds() {
    let (actions, r) = run(false, false, PathProbe::Dir, FileProbe::File, TargetProbe::Dir, false, Some(true));
    assert_eq!(r, Ok(true));
    assert_eq!(actions, vec![CleanAction::InspectProject, CleanAction::InspectManifest, CleanAction::InspectTarget, CleanAction::RunCargoClean, CleanAction::Finish(Ok(true))]);
}

#[test]
fn clean_fast_removes_target() {
    let (actions, r) = run(true, false, PathProbe::Dir, FileProbe::File, TargetProbe::Dir, true, None);
    assert_eq!(r, Ok(true));
    assert_eq!(actions, vec![CleanAction::InspectProject, CleanAction::InspectManifest, CleanAction::InspectTarget, CleanAction::RemoveTarget, CleanAction::Finish(Ok(true))]);
}

#[test]
fn dry_run_touches_nothing() {
    for fast in [false, true] {
        let (actions, r) = run(fast, true, PathProbe::Dir, FileProbe::File, TargetProbe::Dir, false, Some(false));
        assert_eq!(r, Ok(true));
        assert!(!actions.contains(&CleanAction::RemoveTarget));
        assert!(!actions.contains(&CleanAction::RunCargoClean));
    }
}

#[test]
fn missing_or_plain_target_is_not_cleaned() {
    assert_eq!(run(false, false, PathProbe::Dir, FileProbe::File, TargetProbe::Missing, true, Some(true)).1, Ok(false));
    assert_eq!(run(true, false, PathProbe::Dir, FileProbe::File, TargetProbe::NotDir, true, Some(true)).1, Ok(false));
}

#[test]
fn each_clean_error() {
    assert_eq!(run(false, false, PathProbe::Failed, FileProbe::File, TargetProbe::Dir, true, Some(true)).1, Err(CleanError::ProjectMetadata));
    assert_eq!(run(false, false, PathProbe::NotDir, FileProbe::File, TargetProbe::Dir, true, Some(true)).1, Err(CleanError::NotADirectory));
    assert_eq!(run(false, false, PathProbe::Dir, FileProbe::Failed, TargetProbe::Dir, true, Some(true)).1, Err(CleanError::ManifestMetadata));
    assert_eq!(run(false, false, PathProbe::Dir, FileProbe::File, TargetProbe::Failed, true, Some(true)).1, Err(CleanError::TargetMetadata));
    assert_eq!(run(true, false, PathProbe::Dir, FileProbe::File, TargetProbe::Dir, false, Some(true)).1, Err(CleanError::RemoveFailed));
    assert_eq!(run(false, false, PathProbe::Dir, FileProbe::File, TargetProbe::Dir, true, None).1, Err(CleanError::CommandFailed));
    assert_eq!(run(false, false, PathProbe::Dir, FileProbe::File, TargetProbe::Dir, true, Some(false)).1, Err(CleanError::CargoCleanFailed));
}

#[test]
fn unexpected_event_is_ignored() {
    let mut m = CleanDir::new(false, false);
    assert_eq!(m.step(CleanEvent::Removed(true)), CleanAction::InspectProject);
    assert_eq!(m.step(CleanEvent::Project(PathProbe::Dir)), CleanAction::InspectManifest);
    assert_eq!(m.step(CleanEvent::Project(PathProbe::Failed)), CleanAction::InspectManifest);
}

#[test]
fn finished_cleaning_stays_finished() {
    let mut m = CleanDir::new(true, false);
    m.step(CleanEvent::Project(PathProbe::NotDir));
    assert_eq!(m.pending(), CleanAction::Finish(Err(CleanError::NotADirectory)));
    assert_eq!(m.step(CleanEvent::Project(PathProbe::Dir)), CleanAction::Finish(Err(CleanError::NotADirectory)));
}

#[test]
fn project_without_manifest_is_not_cleaned() {
    for manifest in [FileProbe::Missing, FileProbe::NotFile] {
        for fast in [false, true] {
            let (actions, r) = run(fast, false, PathProbe::Dir, manifest, TargetProbe::Dir, true, Some(true));
            assert_eq!(r, Ok(false));
            assert_eq!(actions, vec![CleanAction::InspectProject, CleanAction::InspectManifest, CleanAction::Finish(Ok(false))]);
        }
    }
}

#[test]
fn cleaning_again_after_removal_finds_nothing() {
    for fast in [false, true] {
        for dry_run in [false, true] {
            let (actions, r) = run(fast, dry_run, PathProbe::Dir, FileProbe::File, TargetProbe::Missing, true, Some(true));
            assert_eq!(r, Ok(false));
            assert!(!actions.contains(&CleanAction::RemoveTarget));
            assert!(!actions.contains(&CleanAction::RunCargoClean));
        }
    }
}
