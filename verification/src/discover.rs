use vstd::prelude::*;

use crate::clean::{spec_clean_outcome, CleanError, CleanWorld, FileProbe, PathProbe};
use crate::select::{marked_positions, spec_picks};

verus! {

/// What was found about one entry of the searched directory: the type of
/// the entry, and, where it was inspected, its `Cargo.toml`.
#[derive(Clone, Copy, Debug, PartialEq, Eq, Structural)]
pub struct EntryProbe {
    pub kind: PathProbe,
    pub manifest: Option<FileProbe>,
}

/// Why searching a directory for Cargo projects failed: the type of the
/// entry at this position, or the `Cargo.toml` of the directory at this
/// position, could not be read.
#[derive(Clone, Copy, Debug, PartialEq, Eq, Structural)]
pub enum DiscoveryError {
    EntryType(usize),
    Manifest(usize),
}

/// An entry is a Cargo project when it is a directory and its `Cargo.toml`
/// is a regular file.
pub open spec fn spec_is_cargo_project(entry: EntryProbe) -> bool {
    entry.kind is Dir && entry.manifest == Some(FileProbe::File)
}

/// Reading the entry failed: its type could not be read, or it is a
/// directory whose `Cargo.toml` could not be inspected for a reason other
/// than its absence.
pub open spec fn spec_probe_failed(entry: EntryProbe) -> bool {
    entry.kind is Failed || (entry.kind is Dir && entry.manifest == Some(FileProbe::Failed))
}

/// Some entry of the list could not be read.
pub open spec fn spec_any_failed(entries: Seq<EntryProbe>) -> bool {
    exists|i: int| 0 <= i < entries.len() && #[trigger] spec_probe_failed(entries[i])
}

/// Which entries of the list are Cargo projects.
pub open spec fn spec_project_marks(entries: Seq<EntryProbe>) -> Seq<bool> {
    entries.map_values(|e: EntryProbe| spec_is_cargo_project(e))
}

/// The error for a failed read of the entry at position `i`.
pub open spec fn spec_failure_at(i: usize, entry: EntryProbe) -> DiscoveryError {
    if entry.kind is Failed {
        DiscoveryError::EntryType(i)
    } else {
        DiscoveryError::Manifest(i)
    }
}

/// Whether the `Cargo.toml` of an entry of this type is to be inspected:
/// only that of a directory is.
pub fn needs_manifest_probe(kind: PathProbe) -> (needed: bool)
    ensures
        needed == (kind is Dir),
{
    match kind {
        PathProbe::Dir => true,
        _ => false,
    }
}

/// Whether the entry is a Cargo project.
pub fn is_cargo_project(entry: EntryProbe) -> (project: bool)
    ensures
        project == spec_is_cargo_project(entry),
{
    match (entry.kind, entry.manifest) {
        (PathProbe::Dir, Some(FileProbe::File)) => true,
        _ => false,
    }
}

/// Whether reading the entry failed.
pub fn probe_failed(entry: EntryProbe) -> (failed: bool)
    ensures
        failed == spec_probe_failed(entry),
{
    match (entry.kind, entry.manifest) {
        (PathProbe::Failed, _) => true,
        (PathProbe::Dir, Some(FileProbe::Failed)) => true,
        _ => false,
    }
}

/// The positions, in increasing order, of exactly those entries of the
/// searched directory that are Cargo projects; an error naming the first
/// entry that could not be read, if any could not.
pub fn cargo_projects(entries: &Vec<EntryProbe>) -> (r: Result<Vec<usize>, DiscoveryError>)
    ensures
        r is Ok <==> !spec_any_failed(entries@),
        r matches Ok(picked) ==> spec_picks(picked@, spec_project_marks(entries@)),
        r matches Err(e) ==> exists|i: int|
            #![trigger entries@[i]]
            0 <= i < entries@.len() && spec_probe_failed(entries@[i])
                && (forall|j: int| 0 <= j < i ==> !spec_probe_failed(#[trigger] entries@[j]))
                && e == spec_failure_at(i as usize, entries@[i]),
{
    let mut marks: Vec<bool> = Vec::new();
    let n = entries.len();
    for i in 0..n
        invariant
            n == entries@.len(),
            marks@ =~= spec_project_marks(entries@.take(i as int)),
            forall|j: int| 0 <= j < i ==> !spec_probe_failed(#[trigger] entries@[j]),
    {
        let entry = entries[i];
        if probe_failed(entry) {
            let e = match entry.kind {
                PathProbe::Failed => DiscoveryError::EntryType(i),
                _ => DiscoveryError::Manifest(i),
            };
            assert(spec_any_failed(entries@));
            return Err(e);
        }
        marks.push(is_cargo_project(entry));
        assert(entries@.take(i + 1) =~= entries@.take(i as int).push(entries@[i as int]));
    }
    assert(entries@.take(n as int) =~= entries@);
    Ok(marked_positions(&marks))
}

/// The search does not depend on the order in which the entries are listed:
/// for a listing `b` that is a reordering `perm` of the listing `a`, one fails
/// exactly when the other does, and an entry is picked in one exactly when its
/// counterpart is picked in the other.
pub proof fn lemma_search_order_free(
    a: Seq<EntryProbe>,
    b: Seq<EntryProbe>,
    perm: Seq<int>,
    picked_a: Seq<usize>,
    picked_b: Seq<usize>,
)
    requires
        a.len() == b.len(),
        a.len() <= usize::MAX,
        perm.len() == b.len(),
        forall|k: int| 0 <= k < b.len() ==> 0 <= #[trigger] perm[k] < a.len() && b[k] == a[perm[k]],
        forall|i: int|
            #![trigger a[i]]
            0 <= i < a.len() ==> exists|k: int| 0 <= k < b.len() && #[trigger] perm[k] == i && b[k] == a[i],
        spec_picks(picked_a, spec_project_marks(a)),
        spec_picks(picked_b, spec_project_marks(b)),
    ensures
        spec_any_failed(a) <==> spec_any_failed(b),
        forall|k: int| 0 <= k < b.len() ==> (picked_b.contains(k as usize) <==> picked_a.contains(perm[k] as usize)),
{
    if spec_any_failed(a) {
        let i = choose|i: int| 0 <= i < a.len() && #[trigger] spec_probe_failed(a[i]);
        assert(a[i] == a[i]);
        let k = choose|k: int| 0 <= k < b.len() && #[trigger] perm[k] == i && b[k] == a[i];
        assert(spec_probe_failed(b[k]));
    }
    if spec_any_failed(b) {
        let k = choose|k: int| 0 <= k < b.len() && #[trigger] spec_probe_failed(b[k]);
        assert(spec_probe_failed(a[perm[k]]));
    }
    assert forall|k: int| 0 <= k < b.len() implies (picked_b.contains(k as usize) <==> picked_a.contains(perm[k] as usize)) by {
        let i = perm[k];
        assert(spec_project_marks(b)[k] == spec_project_marks(a)[i]);
        if picked_b.contains(k as usize) {
            let m = choose|m: int| 0 <= m < picked_b.len() && picked_b[m] == k as usize;
            assert(spec_project_marks(b)[picked_b[m] as int]);
        }
        if picked_a.contains(i as usize) {
            let m = choose|m: int| 0 <= m < picked_a.len() && picked_a[m] == i as usize;
            assert(spec_project_marks(a)[picked_a[m] as int]);
        }
    }
}


/// Searching and cleaning agree on what a project is: a directory whose
/// `Cargo.toml` is a regular file. Cleaning reports `true` only for an entry
/// that the search picks, and for a readable entry that the search does not
/// pick, cleaning reports `false` or that the path is no directory.
pub proof fn lemma_search_and_clean_agree(fast: bool, dry_run: bool, world: CleanWorld)
    ensures
        spec_is_cargo_project(EntryProbe { kind: world.project, manifest: Some(world.manifest) })
            <==> (world.project is Dir && world.manifest is File),
        spec_clean_outcome(fast, dry_run, world) == Ok::<bool, CleanError>(true)
            ==> spec_is_cargo_project(EntryProbe { kind: world.project, manifest: Some(world.manifest) }),
        !spec_probe_failed(EntryProbe { kind: world.project, manifest: Some(world.manifest) })
            && !spec_is_cargo_project(EntryProbe { kind: world.project, manifest: Some(world.manifest) })
            ==> spec_clean_outcome(fast, dry_run, world) == Ok::<bool, CleanError>(false)
                || spec_clean_outcome(fast, dry_run, world) == Err::<bool, CleanError>(CleanError::NotADirectory),
{
}

} // verus!
