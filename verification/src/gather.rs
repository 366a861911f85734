//! Collecting the outcomes of a batch: all of them where none failed, else
//! the first failure.

use vstd::prelude::*;

verus! {

/// `i` is the place of the first failure among `outcomes`.
pub open spec fn is_first_failure<T, E>(outcomes: Seq<Result<T, E>>, i: int) -> bool {
    &&& 0 <= i < outcomes.len()
    &&& outcomes[i] is Err
    &&& forall|j: int| 0 <= j < i ==> (#[trigger] outcomes[j]) is Ok
}

/// The values of all `outcomes` in order where none of them failed, else
/// the error of the first that did.
pub open spec fn gather<T, E>(outcomes: Seq<Result<T, E>>) -> Result<Seq<T>, E> {
    if exists|i: int| is_first_failure(outcomes, i) {
        Err(outcomes[choose|i: int| is_first_failure(outcomes, i)]->Err_0)
    } else {
        Ok(Seq::new(outcomes.len(), |i: int| outcomes[i]->Ok_0))
    }
}

/// A batch has at most one first failure.
pub proof fn lemma_first_failure_unique<T, E>(outcomes: Seq<Result<T, E>>, i: int, j: int)
    requires
        is_first_failure(outcomes, i),
        is_first_failure(outcomes, j),
    ensures
        i == j,
{
    if i < j {
        assert(outcomes[i] is Ok);
    } else if j < i {
        assert(outcomes[j] is Ok);
    }
}

/// A batch with a failure has a first failure at or before it.
pub proof fn lemma_first_failure_exists<T, E>(outcomes: Seq<Result<T, E>>, k: int)
    requires
        0 <= k < outcomes.len(),
        outcomes[k] is Err,
    ensures
        exists|i: int| is_first_failure(outcomes, i) && i <= k,
    decreases k,
{
    if forall|j: int| 0 <= j < k ==> (#[trigger] outcomes[j]) is Ok {
        assert(is_first_failure(outcomes, k));
    } else {
        let j = choose|j: int| 0 <= j < k && !((#[trigger] outcomes[j]) is Ok);
        lemma_first_failure_exists(outcomes, j);
    }
}

/// The batch fails with the error of its first failure.
pub proof fn lemma_gather_failure<T, E>(outcomes: Seq<Result<T, E>>, i: int)
    requires
        is_first_failure(outcomes, i),
    ensures
        gather(outcomes) == Err::<Seq<T>, E>(outcomes[i]->Err_0),
{
    let chosen = choose|k: int| is_first_failure(outcomes, k);
    lemma_first_failure_unique(outcomes, i, chosen);
}

/// A batch without a failure yields the values of all its outcomes.
pub proof fn lemma_gather_success<T, E>(outcomes: Seq<Result<T, E>>, values: Seq<T>)
    requires
        values.len() == outcomes.len(),
        forall|i: int| 0 <= i < outcomes.len() ==> (#[trigger] outcomes[i]) == Ok::<T, E>(values[i]),
    ensures
        gather(outcomes) == Ok::<Seq<T>, E>(values),
{
    assert forall|i: int| !is_first_failure(outcomes, i) by {
        if 0 <= i < outcomes.len() {
            assert(outcomes[i] is Ok);
        }
    }
    assert(Seq::new(outcomes.len(), |i: int| outcomes[i]->Ok_0) =~= values);
}

/// Where the batch succeeds, every outcome did, and the values are theirs
/// in order.
pub proof fn lemma_gather_success_inverse<T, E>(outcomes: Seq<Result<T, E>>)
    requires
        gather(outcomes) is Ok,
    ensures
        gather(outcomes)->Ok_0.len() == outcomes.len(),
        forall|i: int|
            0 <= i < outcomes.len() ==> (#[trigger] outcomes[i]) == Ok::<T, E>(
                gather(outcomes)->Ok_0[i],
            ),
{
    assert forall|i: int| 0 <= i < outcomes.len() implies (#[trigger] outcomes[i]) == Ok::<T, E>(
        gather(outcomes)->Ok_0[i],
    ) by {
        if outcomes[i] is Err {
            lemma_first_failure_exists(outcomes, i);
        }
    }
}

/// Where the batch fails, its error is that of an outcome before which
/// none failed.
pub proof fn lemma_gather_failure_inverse<T, E>(outcomes: Seq<Result<T, E>>) -> (i: int)
    requires
        gather(outcomes) is Err,
    ensures
        is_first_failure(outcomes, i),
        gather(outcomes) == Err::<Seq<T>, E>(outcomes[i]->Err_0),
{
    choose|i: int| is_first_failure(outcomes, i)
}

} // verus!
