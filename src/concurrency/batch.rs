//! What a batch of workers amounts to once every one of them has been joined.
use vstd::prelude::*;
use crate::concurrency::counter::{count_step, CounterError};

verus! {

/// The first failure among the workers' reports, in the order they were
/// joined.
pub open spec fn first_failure(reports: Seq<Result<i32, CounterError>>) -> Option<CounterError>
    decreases reports.len(),
{
    if reports.len() == 0 {
        None
    } else {
        match reports[0] {
            Err(e) => Some(e),
            Ok(_) => first_failure(reports.drop_first()),
        }
    }
}

/// The counter after `n` increments made one after another from `start`,
/// each inside its own critical section.
pub open spec fn after_increments(start: i32, n: nat) -> Result<i32, CounterError>
    decreases n,
{
    if n == 0 {
        Ok(start)
    } else {
        match after_increments(start, (n - 1) as nat) {
            Ok(c) => count_step(c),
            Err(e) => Err(e),
        }
    }
}

/// The result of joining a batch: the first failure that a worker reported,
/// if any, since a lock that went bad leaves the count untrusted; else what
/// the final read of the counter gave.
pub fn join_outcome(reports: &Vec<Result<i32, CounterError>>, final_read: Result<i32, CounterError>) -> (r: Result<i32, CounterError>)
    ensures
        r == match first_failure(reports@) {
            Some(e) => Err(e),
            None => final_read,
        },
{
    let mut i: usize = 0;
    assert(reports@.subrange(0, reports@.len() as int) =~= reports@);
    while i < reports.len()
        invariant
            i <= reports@.len(),
            first_failure(reports@) == first_failure(reports@.subrange(i as int, reports@.len() as int)),
        decreases reports.len() - i,
    {
        proof {
            let rest = reports@.subrange(i as int, reports@.len() as int);
            assert(rest.drop_first() =~= reports@.subrange(i + 1, reports@.len() as int));
        }
        match reports[i] {
            Err(e) => {
                return Err(e);
            },
            Ok(_) => {},
        }
        i = i + 1;
    }
    assert(reports@.subrange(i as int, reports@.len() as int) =~= Seq::<Result<i32, CounterError>>::empty());
    final_read
}

/// In the model where a batch's critical sections run one after another,
/// each applying `count_step` (the step that `next_count` takes), `n` of them
/// from zero leave exactly `n`, for every `n` that an `i32` can hold. That the
/// lock does run them one at a time is what the mutex provides, and is not
/// proved here.
pub proof fn batch_counts_its_workers(n: nat)
    requires
        n <= i32::MAX,
    ensures
        after_increments(0, n) == Ok::<i32, CounterError>(n as i32),
    decreases n,
{
    if n > 0 {
        batch_counts_its_workers((n - 1) as nat);
    }
}

} // verus!
