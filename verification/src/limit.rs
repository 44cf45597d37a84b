use vstd::prelude::*;

verus! {

/// The concurrency limit chosen for a machine with `cpus` CPUs: the CPU count
/// itself up to two CPUs, four tasks per CPU up to eight CPUs, and beyond that
/// four tasks per CPU capped at 128.
pub open spec fn spec_limit_for_cpus(cpus: int) -> int {
    if cpus <= 2 {
        cpus
    } else if cpus <= 8 {
        cpus * 4
    } else if cpus * 4 <= 128 {
        cpus * 4
    } else {
        128
    }
}

/// Computes the default concurrency limit for `cpus` CPUs.
pub fn limit_for_cpus(cpus: usize) -> (limit: usize)
    ensures
        limit == spec_limit_for_cpus(cpus as int),
        cpus <= 2 ==> limit == cpus,
        cpus >= 3 ==> limit == vstd::math::min(4 * cpus, 128),
{
    if cpus <= 2 {
        cpus
    } else if cpus <= 8 {
        cpus * 4
    } else if cpus <= 32 {
        cpus * 4
    } else {
        128
    }
}

/// Calls `num_cpus::get`, the number of CPUs available to this process.
/// Its documentation promises a result of at least 1; nothing more is
/// claimed, since the count depends on the machine, its scheduler affinity
/// and its cgroup quota.
#[verifier::external_body]
fn available_cpus() -> (n: usize)
    ensures
        n >= 1,
{
    num_cpus::get()
}

/// The default concurrency limit of this machine.
pub fn concurrency_limit() -> (limit: usize)
    ensures
        1 <= limit <= 128,
        exists|cpus: int| cpus >= 1 && limit == spec_limit_for_cpus(cpus),
{
    let cpus = available_cpus();
    let limit = limit_for_cpus(cpus);
    proof {
        lemma_limit_bounds(cpus as int);
        assert(limit == spec_limit_for_cpus(cpus as int));
    }
    limit
}

/// The default limit is the CPU count itself for at most two CPUs, and four
/// tasks per CPU, capped at 128, for three CPUs or more.
pub proof fn lemma_limit_formula(cpus: int)
    requires
        cpus >= 0,
    ensures
        cpus <= 2 ==> spec_limit_for_cpus(cpus) == cpus,
        cpus >= 3 ==> spec_limit_for_cpus(cpus) == vstd::math::min(4 * cpus, 128),
{
}

/// Above two CPUs, one more CPU raises the default limit by four tasks until
/// the cap of 128 is reached, and leaves it at 128 from then on.
pub proof fn lemma_limit_step(cpus: int)
    requires
        cpus >= 3,
    ensures
        4 * (cpus + 1) <= 128 ==> spec_limit_for_cpus(cpus + 1) == spec_limit_for_cpus(cpus) + 4,
        4 * cpus >= 128 ==> spec_limit_for_cpus(cpus + 1) == 128 && spec_limit_for_cpus(cpus) == 128,
{
}

/// For any positive CPU count the default limit is positive and never
/// exceeds 128.
pub proof fn lemma_limit_bounds(cpus: int)
    requires
        cpus >= 1,
    ensures
        1 <= spec_limit_for_cpus(cpus) <= 128,
{
}

/// More CPUs never give a smaller default limit.
pub proof fn lemma_limit_monotone(fewer: int, more: int)
    requires
        0 <= fewer <= more,
    ensures
        spec_limit_for_cpus(fewer) <= spec_limit_for_cpus(more),
{
}

} // verus!
