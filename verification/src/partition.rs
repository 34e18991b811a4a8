use vstd::prelude::*;

verus! {

/// The share of `total` work units that the worker at index `idx` receives
/// when the units are split as evenly as possible across `threads` workers:
/// the first `total % threads` workers receive one extra unit.
pub open spec fn split_spec(total: int, threads: int, idx: int) -> int {
    total / threads + if idx < total % threads {
        1int
    } else {
        0int
    }
}

/// The sum of the shares of the first `n` workers.
pub open spec fn sum_split(total: int, threads: int, n: int) -> int
    decreases n,
{
    if n <= 0 {
        0
    } else {
        sum_split(total, threads, n - 1) + split_spec(total, threads, n - 1)
    }
}

/// Number of work units assigned to the worker at index `thread_idx` when
/// `total` units are split as evenly as possible across `threads` workers.
pub fn per_thread_amount(thread_idx: usize, total: usize, threads: usize) -> (amount: usize)
    requires
        threads >= 1,
    ensures
        amount == split_spec(total as int, threads as int, thread_idx as int),
{
    let per_thread = total / threads;
    let extras = total % threads;
    if thread_idx < extras {
        proof {
            vstd::arithmetic::div_mod::lemma_fundamental_div_mod(total as int, threads as int);
            vstd::arithmetic::mul::lemma_mul_inequality(2, threads as int, per_thread as int);
        }
        per_thread + 1
    } else {
        per_thread
    }
}

/// The per-worker starting offset and share for every worker, in order: the
/// offsets are the running sums of the shares, and the shares cover `total`
/// exactly.
pub fn thread_slices(total: usize, threads: usize) -> (slices: Vec<(usize, usize)>)
    requires
        threads >= 1,
    ensures
        slices@.len() == threads,
        forall|i: int|
            0 <= i < threads ==> (#[trigger] slices@[i]).1 == split_spec(
                total as int,
                threads as int,
                i,
            ),
        forall|i: int|
            0 <= i < threads ==> (#[trigger] slices@[i]).0 == sum_split(
                total as int,
                threads as int,
                i,
            ),
        slices@.len() > 0 ==> slices@.last().0 + slices@.last().1 == total,
{
    proof {
        lemma_partition_conservation(total as int, threads as int);
    }
    let mut slices: Vec<(usize, usize)> = Vec::new();
    let mut start: usize = 0;
    let mut i: usize = 0;
    while i < threads
        invariant
            threads >= 1,
            i <= threads,
            slices@.len() == i,
            start == sum_split(total as int, threads as int, i as int),
            start <= total,
            sum_split(total as int, threads as int, threads as int) == total,
            forall|k: int|
                0 <= k < i ==> (#[trigger] slices@[k]).1 == split_spec(
                    total as int,
                    threads as int,
                    k,
                ),
            forall|k: int|
                0 <= k < i ==> (#[trigger] slices@[k]).0 == sum_split(
                    total as int,
                    threads as int,
                    k,
                ),
        decreases threads - i,
    {
        let amount = per_thread_amount(i, total, threads);
        proof {
            lemma_sum_split_bounds(total as int, threads as int, i as int + 1, threads as int);
        }
        slices.push((start, amount));
        start += amount;
        i += 1;
    }
    slices
}

/// Conservation of work across a whole configuration.  The per-thread idea
/// shares sum to the configured idea count and the per-thread package shares
/// to the configured package count, so exactly that much work is emitted.
/// Each idea generator also emits one termination signal per student in its
/// share of the student count, so the signals emitted across all generators
/// total the student count exactly: every consumer has one signal to dequeue,
/// and the events enqueued over a whole run total
/// `num_ideas + num_packages + num_students`.
pub proof fn lemma_work_conservation(
    num_ideas: int,
    num_idea_generators: int,
    num_packages: int,
    num_package_downloaders: int,
    num_students: int,
)
    requires
        num_ideas >= 0,
        num_packages >= 0,
        num_students >= 0,
        num_idea_generators >= 1,
        num_package_downloaders >= 1,
    ensures
        sum_split(num_ideas, num_idea_generators, num_idea_generators) == num_ideas,
        sum_split(num_packages, num_package_downloaders, num_package_downloaders) == num_packages,
        sum_split(num_students, num_idea_generators, num_idea_generators) == num_students,
        sum_split(num_ideas, num_idea_generators, num_idea_generators) + sum_split(
            num_packages,
            num_package_downloaders,
            num_package_downloaders,
        ) + sum_split(num_students, num_idea_generators, num_idea_generators) == num_ideas
            + num_packages + num_students,
{
    lemma_partition_conservation(num_ideas, num_idea_generators);
    lemma_partition_conservation(num_packages, num_package_downloaders);
    lemma_partition_conservation(num_students, num_idea_generators);
}

/// Partial sums of the shares never exceed the full sum: each share is
/// non-negative.
proof fn lemma_sum_split_bounds(total: int, threads: int, n: int, m: int)
    requires
        total >= 0,
        threads >= 1,
        0 <= n <= m,
    ensures
        sum_split(total, threads, n) <= sum_split(total, threads, m),
    decreases m - n,
{
    if n < m {
        lemma_sum_split_bounds(total, threads, n, m - 1);
        vstd::arithmetic::div_mod::lemma_div_pos_is_pos(total, threads);
    }
}

/// The sum of the first `n` shares: `n` quotients plus one extra unit for each
/// of the first `total % threads` workers among them.
proof fn lemma_sum_split_partial(total: int, threads: int, n: int)
    requires
        total >= 0,
        threads >= 1,
        0 <= n <= threads,
    ensures
        sum_split(total, threads, n) == n * (total / threads) + if n <= total % threads {
            n
        } else {
            total % threads
        },
    decreases n,
{
    if n > 0 {
        lemma_sum_split_partial(total, threads, n - 1);
        assert(n * (total / threads) == (n - 1) * (total / threads) + total / threads)
            by (nonlinear_arith);
    } else {
        assert(n * (total / threads) == 0) by (nonlinear_arith)
            requires
                n == 0,
        ;
    }
}

/// Partition conservation: the shares of all `threads` workers sum to `total`
/// exactly, and any two shares differ by at most one.
pub proof fn lemma_partition_conservation(total: int, threads: int)
    requires
        total >= 0,
        threads >= 1,
    ensures
        sum_split(total, threads, threads) == total,
        forall|i: int, j: int|
            0 <= i < threads && 0 <= j < threads ==> split_spec(total, threads, i) - split_spec(
                total,
                threads,
                j,
            ) <= 1,
{
    lemma_sum_split_partial(total, threads, threads);
    vstd::arithmetic::div_mod::lemma_fundamental_div_mod(total, threads);
}

} // verus!
