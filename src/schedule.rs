use vstd::prelude::*;

verus! {

use vstd::arithmetic::div_mod::lemma_fundamental_div_mod;

/// Relies on num_cpus::get: the number of logical cores this process may use.
/// The count depends on the machine; num_cpus documents that it is at least one.
#[verifier::external_body]
fn logical_cores() -> (r: usize)
    ensures
        r >= 1,
{
    num_cpus::get()
}

/// The number of parallel workers of a render: the count the caller asked for,
/// or one worker per logical core when none was given.
pub fn worker_count(requested: Option<usize>) -> (r: usize)
    ensures
        requested matches Some(n) ==> r == n,
        requested is None ==> r >= 1,
{
    match requested {
        Some(n) => n,
        None => logical_cores(),
    }
}

/// Number of samples per pixel that each worker renders when `total` samples
/// per pixel are split evenly over `workers` independent workers.
pub fn samples_per_worker(total: usize, workers: usize) -> (r: usize)
    requires
        workers > 0,
    ensures
        r == total / workers,
        r * workers <= total,
        total - r * workers < workers,
{
    let r = total / workers;
    proof {
        lemma_fundamental_div_mod(total as int, workers as int);
        assert(r * workers == workers * r) by (nonlinear_arith);
    }
    r
}

/// Samples per pixel in the merged image: every worker adds its own
/// `per_worker` samples to each pixel.
pub open spec fn merged_samples(per_worker: nat, workers: nat) -> nat {
    per_worker * workers
}

/// When the worker count divides the requested total, the merged image holds
/// exactly the requested number of samples per pixel, whatever the number of
/// workers; so a render split over several workers uses the same estimator on
/// the same number of samples as a render by a single worker.
pub proof fn lemma_split_keeps_total(total: usize, workers: usize)
    requires
        workers > 0,
        total % workers == 0,
    ensures
        merged_samples((total / workers) as nat, workers as nat) == total,
        merged_samples((total / workers) as nat, workers as nat) == merged_samples(
            (total / 1) as nat,
            1,
        ),
{
    lemma_fundamental_div_mod(total as int, workers as int);
    assert((total / workers) * workers == workers * (total / workers)) by (nonlinear_arith);
}

} // verus!
