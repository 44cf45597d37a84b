//! Decision logic of a tool that cleans the build output of every Cargo
//! project found directly under a directory: which entries are projects,
//! the steps of cleaning one project, the checks on a request to clean them
//! all, the running count of the results, and the default concurrency limit.

pub mod clean;
pub mod cleanall;
pub mod discover;
pub mod limit;
pub mod select;

pub use clean::{CleanAction, CleanDir, CleanError, CleanEvent, CleanPhase, CleanWorld, FileProbe, PathProbe, TargetProbe};
pub use cleanall::{check_request, projects_with_target, CleanAllError, CleanTally, Notice, TaskOutcome};
pub use discover::{cargo_projects, is_cargo_project, needs_manifest_probe, probe_failed, DiscoveryError, EntryProbe};
pub use limit::{concurrency_limit, limit_for_cpus};
pub use select::marked_positions;
