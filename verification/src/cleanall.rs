use vstd::prelude::*;

use crate::clean::PathProbe;
use crate::limit::{lemma_limit_bounds, spec_limit_for_cpus};
use crate::select::{marked_positions, spec_picks};

verus! {

/// Why a request to clean every project under a directory is refused.
#[derive(Clone, Copy, Debug, PartialEq, Eq, Structural)]
pub enum CleanAllError {
    /// The root path could not be inspected.
    RootMetadata,
    /// The root path is not a directory.
    RootNotADirectory,
    /// The concurrency limit is zero.
    ZeroLimit,
}

/// A request is refused when the root cannot be inspected, then when it is
/// no directory, then when the concurrency limit is zero.
pub open spec fn spec_check_request(root: PathProbe, limit: usize) -> Result<(), CleanAllError> {
    match root {
        PathProbe::Failed => Err(CleanAllError::RootMetadata),
        PathProbe::NotDir => Err(CleanAllError::RootNotADirectory),
        PathProbe::Dir => if limit == 0 {
            Err(CleanAllError::ZeroLimit)
        } else {
            Ok(())
        },
    }
}

/// Checks a request to clean every project under a directory.
pub fn check_request(root: PathProbe, limit: usize) -> (r: Result<(), CleanAllError>)
    ensures
        r == spec_check_request(root, limit),
        r is Ok <==> (root is Dir && limit > 0),
        root is Failed ==> r == Err::<(), CleanAllError>(CleanAllError::RootMetadata),
        root is NotDir ==> r == Err::<(), CleanAllError>(CleanAllError::RootNotADirectory),
        root is Dir && limit == 0 ==> r == Err::<(), CleanAllError>(CleanAllError::ZeroLimit),
{
    match root {
        PathProbe::Failed => Err(CleanAllError::RootMetadata),
        PathProbe::NotDir => Err(CleanAllError::RootNotADirectory),
        PathProbe::Dir => if limit == 0 {
            Err(CleanAllError::ZeroLimit)
        } else {
            Ok(())
        },
    }
}

/// A request is accepted exactly when the root is a directory and the limit
/// is not zero; a root that cannot be inspected, or that is no directory, is
/// refused for that reason whatever the limit.
pub proof fn lemma_request_rules(root: PathProbe, limit: usize)
    ensures
        spec_check_request(root, limit) is Ok <==> (root is Dir && limit > 0),
        root is Failed ==> spec_check_request(root, limit) == Err::<(), CleanAllError>(CleanAllError::RootMetadata),
        root is NotDir ==> spec_check_request(root, limit) == Err::<(), CleanAllError>(CleanAllError::RootNotADirectory),
        root is Dir && limit == 0 ==> spec_check_request(root, limit) == Err::<(), CleanAllError>(CleanAllError::ZeroLimit),
{
}

/// Which non-zero limit is asked for never changes the answer to a request.
pub proof fn lemma_nonzero_limits_alike(root: PathProbe, one: usize, other: usize)
    requires
        one > 0,
        other > 0,
    ensures
        spec_check_request(root, one) == spec_check_request(root, other),
{
}

/// The default concurrency limit never gets a request refused: with a root
/// directory, every limit that some positive CPU count gives is accepted.
pub proof fn lemma_default_limit_accepted(cpus: int)
    requires
        cpus >= 1,
    ensures
        spec_check_request(PathProbe::Dir, spec_limit_for_cpus(cpus) as usize) == Ok::<(), CleanAllError>(()),
{
    lemma_limit_bounds(cpus);
}

/// The positions, in increasing order, of exactly those projects whose
/// `target` entry was found to be a directory; a project whose `target`
/// could not be inspected is left out.
pub fn projects_with_target(targets: &Vec<PathProbe>) -> (picked: Vec<usize>)
    ensures
        spec_picks(picked@, targets@.map_values(|t: PathProbe| t is Dir)),
{
    let mut marks: Vec<bool> = Vec::new();
    let n = targets.len();
    for i in 0..n
        invariant
            n == targets@.len(),
            marks@ =~= targets@.take(i as int).map_values(|t: PathProbe| t is Dir),
    {
        let is_dir = match targets[i] {
            PathProbe::Dir => true,
            _ => false,
        };
        marks.push(is_dir);
        assert(targets@.take(i + 1) =~= targets@.take(i as int).push(targets@[i as int]));
    }
    assert(targets@.take(n as int) =~= targets@);
    marked_positions(&marks)
}

/// How the cleaning of one project ended.
#[derive(Clone, Copy, Debug, PartialEq, Eq, Structural)]
pub enum TaskOutcome {
    /// It had a `Cargo.toml` file and a `target` directory, which was cleaned (or would be, in a dry run).
    Cleaned,
    /// It had nothing to clean.
    Skipped,
    /// The cleaning failed.
    Failed,
    /// The task that cleaned it did not complete.
    Aborted,
}

/// What to tell the user about one outcome.
#[derive(Clone, Copy, Debug, PartialEq, Eq, Structural)]
pub enum Notice {
    Quiet,
    /// Report that the project would be cleaned (dry run).
    WouldClean,
    /// Report the error of the cleaning, and go on.
    ReportError,
    /// Stop with the error of the task.
    Abort,
}

/// The notice for one outcome.
pub open spec fn spec_notice(dry_run: bool, outcome: TaskOutcome) -> Notice {
    match outcome {
        TaskOutcome::Cleaned => if dry_run {
            Notice::WouldClean
        } else {
            Notice::Quiet
        },
        TaskOutcome::Skipped => Notice::Quiet,
        TaskOutcome::Failed => Notice::ReportError,
        TaskOutcome::Aborted => Notice::Abort,
    }
}

/// A failed cleaning is reported and an aborted task stops the run whatever
/// the mode; nothing is said of a project with nothing to clean; a cleaned
/// project is announced exactly in a dry run. The mode changes only the
/// notice of a cleaned project.
pub proof fn lemma_notice_rules(dry_run: bool, outcome: TaskOutcome)
    ensures
        outcome is Failed ==> spec_notice(dry_run, outcome) == Notice::ReportError,
        outcome is Aborted ==> spec_notice(dry_run, outcome) == Notice::Abort,
        outcome is Skipped ==> spec_notice(dry_run, outcome) == Notice::Quiet,
        outcome is Cleaned ==> spec_notice(dry_run, outcome) == (if dry_run { Notice::WouldClean } else { Notice::Quiet }),
        !(outcome is Cleaned) ==> spec_notice(true, outcome) == spec_notice(false, outcome),
{
}

/// How many of the outcomes are `Cleaned`.
pub open spec fn spec_count_cleaned(outcomes: Seq<TaskOutcome>) -> nat
    decreases outcomes.len(),
{
    if outcomes.len() == 0 {
        0
    } else {
        spec_count_cleaned(outcomes.drop_last()) + if outcomes.last() is Cleaned {
            1nat
        } else {
            0nat
        }
    }
}

/// The count of cleaned projects is the number of `Cleaned` outcomes: it
/// grows by one with a `Cleaned` outcome and stays with any other.
pub proof fn lemma_count_cleaned_push(outcomes: Seq<TaskOutcome>, outcome: TaskOutcome)
    ensures
        spec_count_cleaned(outcomes.push(outcome)) == spec_count_cleaned(outcomes) + if outcome is Cleaned {
            1int
        } else {
            0int
        },
{
    assert(outcomes.push(outcome).drop_last() =~= outcomes);
}

/// The count of cleaned projects is the length of the `Cleaned` outcomes
/// picked out of all of them.
pub proof fn lemma_count_cleaned_is_filter(outcomes: Seq<TaskOutcome>)
    ensures
        spec_count_cleaned(outcomes) == outcomes.filter(|o: TaskOutcome| o is Cleaned).len(),
    decreases outcomes.len(),
{
    reveal(Seq::filter);
    if outcomes.len() > 0 {
        lemma_count_cleaned_is_filter(outcomes.drop_last());
    }
}

/// No more projects are counted as cleaned than there are outcomes.
pub proof fn lemma_count_cleaned_bounded(outcomes: Seq<TaskOutcome>)
    ensures
        spec_count_cleaned(outcomes) <= outcomes.len(),
    decreases outcomes.len(),
{
    if outcomes.len() > 0 {
        lemma_count_cleaned_bounded(outcomes.drop_last());
    }
}

/// The running count of the cleaning of `total` projects.
pub struct CleanTally {
    dry_run: bool,
    total: usize,
    seen: usize,
    cleaned: usize,
    outcomes: Ghost<Seq<TaskOutcome>>,
}

impl CleanTally {
    pub closed spec fn spec_dry_run(&self) -> bool {
        self.dry_run
    }

    pub closed spec fn spec_total(&self) -> nat {
        self.total as nat
    }

    /// The outcomes recorded so far, in the order they came.
    pub closed spec fn spec_outcomes(&self) -> Seq<TaskOutcome> {
        self.outcomes@
    }

    /// The tally agrees with the outcomes recorded, and no more than `total` were.
    pub closed spec fn wf(&self) -> bool {
        &&& self.seen == self.outcomes@.len()
        &&& self.seen <= self.total
        &&& self.cleaned == spec_count_cleaned(self.outcomes@)
    }

    /// Starts the count for `total` projects.
    pub fn new(dry_run: bool, total: usize) -> (t: CleanTally)
        ensures
            t.wf(),
            t.spec_dry_run() == dry_run,
            t.spec_total() == total,
            t.spec_outcomes() == Seq::<TaskOutcome>::empty(),
    {
        CleanTally { dry_run, total, seen: 0, cleaned: 0, outcomes: Ghost(Seq::empty()) }
    }

    /// Records the outcome of one project and says what to tell the user.
    pub fn record(&mut self, outcome: TaskOutcome) -> (notice: Notice)
        requires
            old(self).wf(),
            old(self).spec_outcomes().len() < old(self).spec_total(),
        ensures
            final(self).wf(),
            final(self).spec_dry_run() == old(self).spec_dry_run(),
            final(self).spec_total() == old(self).spec_total(),
            final(self).spec_outcomes() == old(self).spec_outcomes().push(outcome),
            notice == spec_notice(old(self).spec_dry_run(), outcome),
            outcome is Failed ==> notice == Notice::ReportError,
            outcome is Aborted ==> notice == Notice::Abort,
            outcome is Skipped ==> notice == Notice::Quiet,
            outcome is Cleaned ==> notice == (if old(self).spec_dry_run() { Notice::WouldClean } else { Notice::Quiet }),
            spec_count_cleaned(final(self).spec_outcomes()) == spec_count_cleaned(old(self).spec_outcomes())
                + if outcome is Cleaned { 1int } else { 0int },
    {
        proof {
            lemma_count_cleaned_bounded(self.outcomes@);
            assert(self.outcomes@.push(outcome).drop_last() =~= self.outcomes@);
        }
        self.seen = self.seen + 1;
        self.outcomes = Ghost(self.outcomes@.push(outcome));
        match outcome {
            TaskOutcome::Cleaned => {
                self.cleaned = self.cleaned + 1;
                if self.dry_run {
                    Notice::WouldClean
                } else {
                    Notice::Quiet
                }
            },
            TaskOutcome::Skipped => Notice::Quiet,
            TaskOutcome::Failed => Notice::ReportError,
            TaskOutcome::Aborted => Notice::Abort,
        }
    }

    /// How many outcomes were recorded.
    pub fn seen(&self) -> (n: usize)
        requires
            self.wf(),
        ensures
            n == self.spec_outcomes().len(),
    {
        self.seen
    }

    /// How many projects the count is for.
    pub fn total(&self) -> (n: usize)
        ensures
            n == self.spec_total(),
    {
        self.total
    }

    /// How many projects were cleaned (or would be, in a dry run); never more
    /// than the count is for.
    pub fn cleaned(&self) -> (n: usize)
        requires
            self.wf(),
        ensures
            n == spec_count_cleaned(self.spec_outcomes()),
            n <= self.spec_total(),
    {
        proof {
            lemma_count_cleaned_bounded(self.outcomes@);
        }
        self.cleaned
    }
}

} // verus!
