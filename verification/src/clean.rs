use vstd::prelude::*;

verus! {

/// What inspecting a path found: a directory, something else, or an error.
#[derive(Clone, Copy, Debug, PartialEq, Eq, Structural)]
pub enum PathProbe {
    Dir,
    NotDir,
    Failed,
}

/// What inspecting the `target` directory of a project found. A missing
/// entry is told apart from other errors.
#[derive(Clone, Copy, Debug, PartialEq, Eq, Structural)]
pub enum TargetProbe {
    Dir,
    NotDir,
    Missing,
    Failed,
}

/// What inspecting a file found: a regular file, something else, no entry at
/// all, or an error other than its absence.
#[derive(Clone, Copy, Debug, PartialEq, Eq, Structural)]
pub enum FileProbe {
    File,
    NotFile,
    Missing,
    Failed,
}

/// Why cleaning one project failed.
#[derive(Clone, Copy, Debug, PartialEq, Eq, Structural)]
pub enum CleanError {
    /// The project path could not be inspected.
    ProjectMetadata,
    /// The project path is not a directory.
    NotADirectory,
    /// The project's `Cargo.toml` could not be inspected for a reason other than its absence.
    ManifestMetadata,
    /// The `target` entry could not be inspected for a reason other than its absence.
    TargetMetadata,
    /// Removing the `target` directory failed.
    RemoveFailed,
    /// `cargo clean` could not be started.
    CommandFailed,
    /// `cargo clean` ran and reported failure.
    CargoCleanFailed,
}

/// The step that cleaning one project is at.
#[derive(Clone, Copy, Debug, PartialEq, Eq)]
pub enum CleanPhase {
    InspectingProject,
    InspectingManifest,
    InspectingTarget,
    Removing,
    RunningCargo,
    Done(Result<bool, CleanError>),
}

/// What the caller is asked to do next.
#[derive(Clone, Copy, Debug, PartialEq, Eq)]
pub enum CleanAction {
    /// Read the metadata of the project path.
    InspectProject,
    /// Read the metadata of `<project>/Cargo.toml`.
    InspectManifest,
    /// Read the metadata of `<project>/target`.
    InspectTarget,
    /// Remove `<project>/target` with everything in it.
    RemoveTarget,
    /// Run `cargo clean` inside the project.
    RunCargoClean,
    /// Stop: this is the result of the cleaning (`Ok(true)`: the project had
    /// a `Cargo.toml` file and a `target` directory, and that was cleaned, or
    /// would be in a dry run).
    Finish(Result<bool, CleanError>),
}

/// What the caller observed when it carried out an action.
#[derive(Clone, Copy, Debug, PartialEq, Eq, Structural)]
pub enum CleanEvent {
    Project(PathProbe),
    Manifest(FileProbe),
    Target(TargetProbe),
    /// Whether removing the `target` directory succeeded.
    Removed(bool),
    /// `None` when `cargo clean` could not be started, else whether it exited successfully.
    CargoExited(Option<bool>),
}

/// The action that a phase waits on.
pub open spec fn spec_pending(phase: CleanPhase) -> CleanAction {
    match phase {
        CleanPhase::InspectingProject => CleanAction::InspectProject,
        CleanPhase::InspectingManifest => CleanAction::InspectManifest,
        CleanPhase::InspectingTarget => CleanAction::InspectTarget,
        CleanPhase::Removing => CleanAction::RemoveTarget,
        CleanPhase::RunningCargo => CleanAction::RunCargoClean,
        CleanPhase::Done(r) => CleanAction::Finish(r),
    }
}

/// The phase after `event` in `phase`. An event that does not answer the
/// pending action leaves the phase unchanged.
pub open spec fn spec_next(fast: bool, dry_run: bool, phase: CleanPhase, event: CleanEvent) -> CleanPhase {
    match (phase, event) {
        (CleanPhase::InspectingProject, CleanEvent::Project(p)) => match p {
            PathProbe::Dir => CleanPhase::InspectingManifest,
            PathProbe::NotDir => CleanPhase::Done(Err(CleanError::NotADirectory)),
            PathProbe::Failed => CleanPhase::Done(Err(CleanError::ProjectMetadata)),
        },
        (CleanPhase::InspectingManifest, CleanEvent::Manifest(m)) => match m {
            FileProbe::File => CleanPhase::InspectingTarget,
            FileProbe::NotFile => CleanPhase::Done(Ok(false)),
            FileProbe::Missing => CleanPhase::Done(Ok(false)),
            FileProbe::Failed => CleanPhase::Done(Err(CleanError::ManifestMetadata)),
        },
        (CleanPhase::InspectingTarget, CleanEvent::Target(t)) => match t {
            TargetProbe::Dir => if dry_run {
                CleanPhase::Done(Ok(true))
            } else if fast {
                CleanPhase::Removing
            } else {
                CleanPhase::RunningCargo
            },
            TargetProbe::NotDir => CleanPhase::Done(Ok(false)),
            TargetProbe::Missing => CleanPhase::Done(Ok(false)),
            TargetProbe::Failed => CleanPhase::Done(Err(CleanError::TargetMetadata)),
        },
        (CleanPhase::Removing, CleanEvent::Removed(ok)) => if ok {
            CleanPhase::Done(Ok(true))
        } else {
            CleanPhase::Done(Err(CleanError::RemoveFailed))
        },
        (CleanPhase::RunningCargo, CleanEvent::CargoExited(status)) => match status {
            None => CleanPhase::Done(Err(CleanError::CommandFailed)),
            Some(true) => CleanPhase::Done(Ok(true)),
            Some(false) => CleanPhase::Done(Err(CleanError::CargoCleanFailed)),
        },
        _ => phase,
    }
}

/// The decisions of cleaning one project: first inspect the project path,
/// then its `Cargo.toml`, then its `target` directory, then, unless this is a dry run, either remove
/// `target` directly (`fast`) or run `cargo clean`.
pub struct CleanDir {
    fast: bool,
    dry_run: bool,
    phase: CleanPhase,
}

impl CleanDir {
    pub closed spec fn spec_fast(&self) -> bool {
        self.fast
    }

    pub closed spec fn spec_dry_run(&self) -> bool {
        self.dry_run
    }

    pub closed spec fn spec_phase(&self) -> CleanPhase {
        self.phase
    }

    /// Starts the cleaning of one project.
    pub fn new(fast: bool, dry_run: bool) -> (m: CleanDir)
        ensures
            m.spec_fast() == fast,
            m.spec_dry_run() == dry_run,
            m.spec_phase() == CleanPhase::InspectingProject,
    {
        CleanDir { fast, dry_run, phase: CleanPhase::InspectingProject }
    }

    /// The action that the cleaning waits on.
    pub fn pending(&self) -> (action: CleanAction)
        ensures
            action == spec_pending(self.spec_phase()),
    {
        match self.phase {
            CleanPhase::InspectingProject => CleanAction::InspectProject,
            CleanPhase::InspectingManifest => CleanAction::InspectManifest,
            CleanPhase::InspectingTarget => CleanAction::InspectTarget,
            CleanPhase::Removing => CleanAction::RemoveTarget,
            CleanPhase::RunningCargo => CleanAction::RunCargoClean,
            CleanPhase::Done(r) => CleanAction::Finish(r),
        }
    }

    /// Takes in what the caller observed and returns the next action.
    pub fn step(&mut self, event: CleanEvent) -> (action: CleanAction)
        ensures
            final(self).spec_fast() == old(self).spec_fast(),
            final(self).spec_dry_run() == old(self).spec_dry_run(),
            final(self).spec_phase() == spec_next(
                old(self).spec_fast(),
                old(self).spec_dry_run(),
                old(self).spec_phase(),
                event,
            ),
            action == spec_pending(final(self).spec_phase()),
    {
        let next = match (self.phase, event) {
            (CleanPhase::InspectingProject, CleanEvent::Project(p)) => match p {
                PathProbe::Dir => CleanPhase::InspectingManifest,
                PathProbe::NotDir => CleanPhase::Done(Err(CleanError::NotADirectory)),
                PathProbe::Failed => CleanPhase::Done(Err(CleanError::ProjectMetadata)),
            },
            (CleanPhase::InspectingManifest, CleanEvent::Manifest(m)) => match m {
                FileProbe::File => CleanPhase::InspectingTarget,
                FileProbe::NotFile => CleanPhase::Done(Ok(false)),
                FileProbe::Missing => CleanPhase::Done(Ok(false)),
                FileProbe::Failed => CleanPhase::Done(Err(CleanError::ManifestMetadata)),
            },
            (CleanPhase::InspectingTarget, CleanEvent::Target(t)) => match t {
                TargetProbe::Dir => if self.dry_run {
                    CleanPhase::Done(Ok(true))
                } else if self.fast {
                    CleanPhase::Removing
                } else {
                    CleanPhase::RunningCargo
                },
                TargetProbe::NotDir => CleanPhase::Done(Ok(false)),
                TargetProbe::Missing => CleanPhase::Done(Ok(false)),
                TargetProbe::Failed => CleanPhase::Done(Err(CleanError::TargetMetadata)),
            },
            (CleanPhase::Removing, CleanEvent::Removed(ok)) => if ok {
                CleanPhase::Done(Ok(true))
            } else {
                CleanPhase::Done(Err(CleanError::RemoveFailed))
            },
            (CleanPhase::RunningCargo, CleanEvent::CargoExited(status)) => match status {
                None => CleanPhase::Done(Err(CleanError::CommandFailed)),
                Some(true) => CleanPhase::Done(Ok(true)),
                Some(false) => CleanPhase::Done(Err(CleanError::CargoCleanFailed)),
            },
            (phase, _) => phase,
        };
        self.phase = next;
        self.pending()
    }
}


/// How the file system and `cargo` answer each action for one project.
#[derive(Clone, Copy, Debug, PartialEq, Eq, Structural)]
pub struct CleanWorld {
    pub project: PathProbe,
    pub manifest: FileProbe,
    pub target: TargetProbe,
    pub removal_ok: bool,
    pub cargo: Option<bool>,
}

/// The event with which `world` answers `action`; `Finish` gets no answer
/// and is answered here by an event that changes nothing.
pub open spec fn spec_answer(world: CleanWorld, action: CleanAction) -> CleanEvent {
    match action {
        CleanAction::InspectProject => CleanEvent::Project(world.project),
        CleanAction::InspectManifest => CleanEvent::Manifest(world.manifest),
        CleanAction::InspectTarget => CleanEvent::Target(world.target),
        CleanAction::RemoveTarget => CleanEvent::Removed(world.removal_ok),
        CleanAction::RunCargoClean => CleanEvent::CargoExited(world.cargo),
        CleanAction::Finish(_) => CleanEvent::Removed(world.removal_ok),
    }
}

/// The phase reached from `phase` after `steps` actions answered by `world`.
pub open spec fn spec_run(fast: bool, dry_run: bool, phase: CleanPhase, world: CleanWorld, steps: nat) -> CleanPhase
    decreases steps,
{
    if steps == 0 || phase is Done {
        phase
    } else {
        spec_run(fast, dry_run, spec_next(fast, dry_run, phase, spec_answer(world, spec_pending(phase))), world, (steps - 1) as nat)
    }
}

/// Whether `action` is asked for at some point within `steps` answered actions from `phase`.
pub open spec fn spec_asks(fast: bool, dry_run: bool, phase: CleanPhase, world: CleanWorld, steps: nat, action: CleanAction) -> bool
    decreases steps,
{
    spec_pending(phase) == action || (steps > 0 && !(phase is Done) && spec_asks(
        fast,
        dry_run,
        spec_next(fast, dry_run, phase, spec_answer(world, spec_pending(phase))),
        world,
        (steps - 1) as nat,
        action,
    ))
}

/// What cleaning a project returns in `world`: an error when the project path
/// cannot be inspected or is no directory; `false` when its `Cargo.toml` is
/// missing or no regular file; an error when `Cargo.toml` cannot be inspected;
/// `false` when it has no `target` directory; an error when `target` cannot be
/// inspected; `true` in a dry run; otherwise the outcome of removing `target`
/// (`fast`) or of `cargo clean`.
pub open spec fn spec_clean_outcome(fast: bool, dry_run: bool, world: CleanWorld) -> Result<bool, CleanError> {
    match world.project {
        PathProbe::Failed => Err(CleanError::ProjectMetadata),
        PathProbe::NotDir => Err(CleanError::NotADirectory),
        PathProbe::Dir => match world.manifest {
            FileProbe::NotFile => Ok(false),
            FileProbe::Missing => Ok(false),
            FileProbe::Failed => Err(CleanError::ManifestMetadata),
            FileProbe::File => match world.target {
            TargetProbe::Missing => Ok(false),
            TargetProbe::NotDir => Ok(false),
            TargetProbe::Failed => Err(CleanError::TargetMetadata),
            TargetProbe::Dir => if dry_run {
                Ok(true)
            } else if fast {
                if world.removal_ok {
                    Ok(true)
                } else {
                    Err(CleanError::RemoveFailed)
                }
            } else {
                match world.cargo {
                    None => Err(CleanError::CommandFailed),
                    Some(true) => Ok(true),
                    Some(false) => Err(CleanError::CargoCleanFailed),
                }
            },
            },
        },
    }
}

/// Cleaning a project finishes after at most four answered actions, with
/// the result that `spec_clean_outcome` gives, and stays finished.
pub proof fn lemma_clean_finishes(fast: bool, dry_run: bool, world: CleanWorld, steps: nat)
    requires
        steps >= 4,
    ensures
        spec_run(fast, dry_run, CleanPhase::InspectingProject, world, steps)
            == CleanPhase::Done(spec_clean_outcome(fast, dry_run, world)),
{
    reveal_with_fuel(spec_run, 5);
}

/// A dry run never removes a `target` directory and never runs `cargo clean`.
pub proof fn lemma_dry_run_changes_nothing(fast: bool, world: CleanWorld, steps: nat)
    ensures
        !spec_asks(fast, true, CleanPhase::InspectingProject, world, steps, CleanAction::RemoveTarget),
        !spec_asks(fast, true, CleanPhase::InspectingProject, world, steps, CleanAction::RunCargoClean),
{
    lemma_dry_run_changes_nothing_from(fast, CleanPhase::InspectingProject, world, steps);
}

proof fn lemma_dry_run_changes_nothing_from(fast: bool, phase: CleanPhase, world: CleanWorld, steps: nat)
    requires
        phase is InspectingProject || phase is InspectingManifest || phase is InspectingTarget || phase is Done,
    ensures
        !spec_asks(fast, true, phase, world, steps, CleanAction::RemoveTarget),
        !spec_asks(fast, true, phase, world, steps, CleanAction::RunCargoClean),
    decreases steps,
{
    if steps > 0 && !(phase is Done) {
        lemma_dry_run_changes_nothing_from(
            fast,
            spec_next(fast, true, phase, spec_answer(world, spec_pending(phase))),
            world,
            (steps - 1) as nat,
        );
    }
}


/// Cleaning reports `true` exactly when the project path is a directory with a
/// `Cargo.toml` file and a `target` directory, and either this is a dry run or
/// the removal (fast mode) or `cargo clean` succeeded; it reports `false`
/// exactly when the project path is a directory whose `Cargo.toml` is missing
/// or no regular file, or whose `Cargo.toml` is a file and whose `target` entry
/// is missing or no directory.
pub proof fn lemma_clean_result(fast: bool, dry_run: bool, world: CleanWorld)
    ensures
        spec_clean_outcome(fast, dry_run, world) == Ok::<bool, CleanError>(true) <==> {
            &&& world.project is Dir
            &&& world.manifest is File
            &&& world.target is Dir
            &&& (dry_run || (fast && world.removal_ok) || (!fast && world.cargo == Some(true)))
        },
        spec_clean_outcome(fast, dry_run, world) == Ok::<bool, CleanError>(false) <==> {
            &&& world.project is Dir
            &&& (world.manifest is Missing || world.manifest is NotFile
                || (world.manifest is File && (world.target is Missing || world.target is NotDir)))
        },
{
}

/// Whether the cleaning of a project in `world` may be at `phase`.
spec fn spec_consistent(fast: bool, dry_run: bool, phase: CleanPhase, world: CleanWorld) -> bool {
    match phase {
        CleanPhase::InspectingProject => true,
        CleanPhase::InspectingManifest => world.project is Dir,
        CleanPhase::InspectingTarget => world.project is Dir && world.manifest is File,
        CleanPhase::Removing => fast && !dry_run && spec_is_project_with_target(world),
        CleanPhase::RunningCargo => !fast && !dry_run && spec_is_project_with_target(world),
        CleanPhase::Done(_) => true,
    }
}

/// The project path is a directory with a `Cargo.toml` file and a `target`
/// directory.
pub open spec fn spec_is_project_with_target(world: CleanWorld) -> bool {
    world.project is Dir && world.manifest is File && world.target is Dir
}

/// The `target` directory is removed only in fast mode and `cargo clean` is
/// run only outside it, neither in a dry run, and either only after the
/// project path was found to be a directory with a `Cargo.toml` file and a
/// `target` directory.
pub proof fn lemma_changes_need_a_target_dir(fast: bool, dry_run: bool, world: CleanWorld, steps: nat)
    ensures
        spec_asks(fast, dry_run, CleanPhase::InspectingProject, world, steps, CleanAction::RemoveTarget)
            ==> fast && !dry_run && spec_is_project_with_target(world),
        spec_asks(fast, dry_run, CleanPhase::InspectingProject, world, steps, CleanAction::RunCargoClean)
            ==> !fast && !dry_run && spec_is_project_with_target(world),
{
    lemma_changes_need_a_target_dir_from(fast, dry_run, CleanPhase::InspectingProject, world, steps);
}

proof fn lemma_changes_need_a_target_dir_from(fast: bool, dry_run: bool, phase: CleanPhase, world: CleanWorld, steps: nat)
    requires
        spec_consistent(fast, dry_run, phase, world),
    ensures
        spec_asks(fast, dry_run, phase, world, steps, CleanAction::RemoveTarget)
            ==> fast && !dry_run && spec_is_project_with_target(world),
        spec_asks(fast, dry_run, phase, world, steps, CleanAction::RunCargoClean)
            ==> !fast && !dry_run && spec_is_project_with_target(world),
    decreases steps,
{
    if steps > 0 && !(phase is Done) {
        lemma_changes_need_a_target_dir_from(
            fast,
            dry_run,
            spec_next(fast, dry_run, phase, spec_answer(world, spec_pending(phase))),
            world,
            (steps - 1) as nat,
        );
    }
}


/// Once a project has no `target` directory (as after a successful fast
/// clean), cleaning it again reports `false` or an error, and asks neither to
/// remove anything nor to run `cargo clean`, whatever the mode.
pub proof fn lemma_clean_again_changes_nothing(fast: bool, dry_run: bool, world: CleanWorld, steps: nat)
    requires
        world.target is Missing,
    ensures
        spec_clean_outcome(fast, dry_run, world) != Ok::<bool, CleanError>(true),
        !spec_asks(fast, dry_run, CleanPhase::InspectingProject, world, steps, CleanAction::RemoveTarget),
        !spec_asks(fast, dry_run, CleanPhase::InspectingProject, world, steps, CleanAction::RunCargoClean),
{
    lemma_changes_need_a_target_dir(fast, dry_run, world, steps);
}


/// Each error of cleaning comes from exactly one cause: the project path
/// could not be inspected; it is no directory; its `Cargo.toml` could not be
/// inspected; its `target` entry could not be inspected; the removal failed
/// (fast mode); `cargo clean` could not be started, or failed.
pub proof fn lemma_clean_errors(fast: bool, dry_run: bool, world: CleanWorld)
    ensures
        spec_clean_outcome(fast, dry_run, world) == Err::<bool, CleanError>(CleanError::ProjectMetadata)
            <==> world.project is Failed,
        spec_clean_outcome(fast, dry_run, world) == Err::<bool, CleanError>(CleanError::NotADirectory)
            <==> world.project is NotDir,
        spec_clean_outcome(fast, dry_run, world) == Err::<bool, CleanError>(CleanError::ManifestMetadata)
            <==> world.project is Dir && world.manifest is Failed,
        spec_clean_outcome(fast, dry_run, world) == Err::<bool, CleanError>(CleanError::TargetMetadata)
            <==> world.project is Dir && world.manifest is File && world.target is Failed,
        spec_clean_outcome(fast, dry_run, world) == Err::<bool, CleanError>(CleanError::RemoveFailed)
            <==> spec_is_project_with_target(world) && !dry_run && fast && !world.removal_ok,
        spec_clean_outcome(fast, dry_run, world) == Err::<bool, CleanError>(CleanError::CommandFailed)
            <==> spec_is_project_with_target(world) && !dry_run && !fast && world.cargo is None,
        spec_clean_outcome(fast, dry_run, world) == Err::<bool, CleanError>(CleanError::CargoCleanFailed)
            <==> spec_is_project_with_target(world) && !dry_run && !fast && world.cargo == Some(false),
{
}

/// An event that does not answer the pending action changes nothing, and a
/// finished cleaning stays finished whatever comes.
pub proof fn lemma_unanswered_event_ignored(fast: bool, dry_run: bool, phase: CleanPhase, event: CleanEvent)
    ensures
        phase is Done ==> spec_next(fast, dry_run, phase, event) == phase,
        phase is InspectingProject && !(event is Project) ==> spec_next(fast, dry_run, phase, event) == phase,
        phase is InspectingManifest && !(event is Manifest) ==> spec_next(fast, dry_run, phase, event) == phase,
        phase is InspectingTarget && !(event is Target) ==> spec_next(fast, dry_run, phase, event) == phase,
        phase is Removing && !(event is Removed) ==> spec_next(fast, dry_run, phase, event) == phase,
        phase is RunningCargo && !(event is CargoExited) ==> spec_next(fast, dry_run, phase, event) == phase,
{
}

} // verus!
