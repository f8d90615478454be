use vstd::prelude::*;

verus! {

/// The supported batch sizes, largest first.
pub const TEN: u32 = 10;
pub const FIVE: u32 = 5;
pub const ONE: u32 = 1;

/// The greedy plan for `n`: how many batches of ten, five and one.
pub open spec fn plan_of(n: int) -> (int, int, int) {
    (n / 10, (n % 10) / 5, n % 5)
}

/// The quantity a plan of `(tens, fives, singles)` batches covers.
pub open spec fn plan_total(tens: int, fives: int, singles: int) -> int {
    10 * tens + 5 * fives + singles
}

/// Splits `n` greedily into batches of ten, then five, then one.
pub fn decompose(n: u64) -> (r: (u64, u64, u64))
    ensures
        r.0 == plan_of(n as int).0,
        r.1 == plan_of(n as int).1,
        r.2 == plan_of(n as int).2,
        plan_total(r.0 as int, r.1 as int, r.2 as int) == n,
        r.1 < 2,
        r.2 < 5,
{
    let tens = n / 10;
    let fives = (n % 10) / 5;
    let singles = n % 5;
    (tens, fives, singles)
}

/// Every non-negative quantity is covered exactly by its greedy plan, with
/// fewer than two batches of five and fewer than five single batches.
pub proof fn lemma_plan_is_exact(n: int)
    requires
        n >= 0,
    ensures
        plan_of(n).0 >= 0,
        plan_of(n).1 >= 0,
        plan_of(n).2 >= 0,
        plan_of(n).1 < 2,
        plan_of(n).2 < 5,
        plan_total(plan_of(n).0, plan_of(n).1, plan_of(n).2) == n,
{
}

} // verus!
