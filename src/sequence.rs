use vstd::prelude::*;
use crate::error::AppError;

verus! {

/// The persisted state of one named sequence: the last value it issued.
#[derive(Debug, Clone)]
pub struct Counter {
    pub id: String,
    pub counter: i64,
}

/// The writes one allocation performs, in order, and the identifier it hands out:
/// `create` (when the sequence had no record yet) then `update`.
#[derive(Debug, Clone)]
pub struct Allocation {
    pub create: Option<Counter>,
    pub update: Counter,
    pub id: i64,
}

/// Value the sequence issues next, given its stored value (none when the
/// sequence has never been used).
pub open spec fn next_value(stored: Option<int>) -> int {
    match stored {
        Some(c) => c + 1,
        None => 1,
    }
}

/// Stored value after `n` allocations, one after another, on a fresh sequence.
pub open spec fn stored_after(n: nat) -> Option<int>
    decreases n,
{
    if n == 0 {
        None
    } else {
        Some(next_value(stored_after((n - 1) as nat)))
    }
}

/// Identifiers handed out by `n` allocations, one after another, on a fresh sequence.
pub open spec fn issued(n: nat) -> Seq<int> {
    Seq::new(n, |k: int| next_value(stored_after(k as nat)))
}

impl Counter {
    /// The record of a sequence that has issued nothing yet.
    pub fn fresh(id: String) -> (r: Counter)
        ensures
            r.id@ == id@,
            r.counter == 0,
    {
        Counter { id, counter: 0 }
    }
}

/// Decides one allocation on the sequence `name` from the outcome of looking
/// its record up. A storage failure is passed on; a missing record is created
/// at zero; the value is then advanced by one and written back. A sequence
/// already at the largest value fails rather than wrap.
pub fn allocate(name: String, lookup: Result<Counter, AppError>) -> (r: Result<Allocation, AppError>)
    ensures
        match lookup {
            Err(AppError::InternalServerError) => r == Err::<Allocation, AppError>(
                AppError::InternalServerError,
            ),
            Err(_) => r is Ok && r->Ok_0.id == next_value(None) && r->Ok_0.create is Some
                && r->Ok_0.create->Some_0.id@ == name@ && r->Ok_0.create->Some_0.counter == 0
                && r->Ok_0.update.id@ == name@ && r->Ok_0.update.counter == r->Ok_0.id,
            Ok(c) => if c.counter < i64::MAX {
                r is Ok && r->Ok_0.id == next_value(Some(c.counter as int))
                    && r->Ok_0.create is None && r->Ok_0.update.id@ == c.id@
                    && r->Ok_0.update.counter == r->Ok_0.id
            } else {
                r == Err::<Allocation, AppError>(AppError::InternalServerError)
            },
        },
{
    match lookup {
        Err(AppError::InternalServerError) => Err(AppError::InternalServerError),
        Err(_) => {
            let created = Counter::fresh(name.clone());
            let update = Counter { id: name, counter: 1 };
            Ok(Allocation { create: Some(created), update, id: 1 })
        },
        Ok(c) => {
            if c.counter < i64::MAX {
                let next = c.counter + 1;
                Ok(Allocation { create: None, update: Counter { id: c.id, counter: next }, id: next })
            } else {
                Err(AppError::InternalServerError)
            }
        },
    }
}

/// Allocations applied one after another to a fresh sequence (as an atomic
/// increment-and-return, or a lock per sequence, makes them) hand out exactly
/// 1, 2, ..., n: no value twice and none skipped.
pub proof fn lemma_fresh_sequence_issues_one_to_n(n: nat)
    ensures
        issued(n) =~= Seq::new(n, |k: int| k + 1),
        forall|i: int, j: int| 0 <= i < j < n ==> issued(n)[i] != issued(n)[j],
        forall|v: int| issued(n).contains(v) <==> 1 <= v <= n,
{
    assert forall|k: int| 0 <= k < n implies #[trigger] issued(n)[k] == k + 1 by {
        lemma_stored_after(k as nat);
    }
    assert forall|v: int| 1 <= v <= n implies #[trigger] issued(n).contains(v) by {
        assert(issued(n)[v - 1] == v);
    }
}

proof fn lemma_stored_after(k: nat)
    ensures
        next_value(stored_after(k)) == k + 1,
    decreases k,
{
    if k > 0 {
        lemma_stored_after((k - 1) as nat);
    }
}

} // verus!
