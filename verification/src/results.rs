//! Sequences of results, of which the first error counts.

use vstd::prelude::*;

verus! {

/// The values of the results, or the first error among them.
pub open spec fn collected<T, E>(results: Seq<Result<T, E>>) -> Result<Seq<T>, E>
    decreases results.len(),
{
    if results.len() == 0 {
        Ok(Seq::empty())
    } else {
        match collected(results.drop_last()) {
            Err(err) => Err(err),
            Ok(values) => match results.last() {
                Err(err) => Err(err),
                Ok(value) => Ok(values.push(value)),
            },
        }
    }
}

/// Collecting succeeds where every result is a success, and then gives their values in order.
/// Otherwise it gives the error of the first result that is one.
pub proof fn law_collected<T, E>(results: Seq<Result<T, E>>)
    ensures
        collected(results) is Ok <==> forall|i: int|
            0 <= i < results.len() ==> #[trigger] results[i] is Ok,
        collected(results) matches Ok(values) ==> values.len() == results.len() && forall|i: int|
            0 <= i < results.len() ==> #[trigger] results[i] == Ok::<T, E>(values[i]),
        collected(results) matches Err(err) ==> exists|i: int|
            {
                &&& 0 <= i < results.len()
                &&& #[trigger] results[i] == Err::<T, E>(err)
                &&& forall|j: int| 0 <= j < i ==> #[trigger] results[j] is Ok
            },
    decreases results.len(),
{
    if results.len() > 0 {
        let front = results.drop_last();
        law_collected(front);
        assert(forall|i: int| 0 <= i < front.len() ==> front[i] == results[i]);
        if collected(front) is Err {
            let err = collected(front)->Err_0;
            let i = choose|i: int|
                {
                    &&& 0 <= i < front.len()
                    &&& #[trigger] front[i] == Err::<T, E>(err)
                    &&& forall|j: int| 0 <= j < i ==> #[trigger] front[j] is Ok
                };
            assert(results[i] == Err::<T, E>(err));
            assert forall|j: int| 0 <= j < i implies #[trigger] results[j] is Ok by {
                assert(front[j] is Ok);
            }
        } else {
            assert forall|j: int| 0 <= j < results.len() - 1 implies #[trigger] results[j] is Ok by {
                assert(front[j] is Ok);
            }
            if results.last() is Err {
                assert(results[results.len() - 1] == Err::<T, E>(results.last()->Err_0));
            } else {
                let values = collected(results)->Ok_0;
                assert forall|i: int| 0 <= i < results.len() implies #[trigger] results[i] == Ok::<
                    T,
                    E,
                >(values[i]) by {
                    if i < front.len() {
                        assert(front[i] == Ok::<T, E>(collected(front)->Ok_0[i]));
                    }
                }
            }
        }
    }
}

/// Collecting one result more.
pub proof fn lemma_collected_push<T, E>(results: Seq<Result<T, E>>, next: Result<T, E>)
    ensures
        collected(results.push(next)) == (match collected(results) {
            Err(err) => Err(err),
            Ok(values) => match next {
                Err(err) => Err(err),
                Ok(value) => Ok(values.push(value)),
            },
        }),
{
    assert(results.push(next).drop_last() =~= results);
}

/// Collecting stops at the first error.
pub proof fn lemma_collected_prefix_err<T, E>(results: Seq<Result<T, E>>, n: int)
    requires
        0 <= n <= results.len(),
        collected(results.take(n)) is Err,
    ensures
        collected(results) == collected(results.take(n)),
    decreases results.len() - n,
{
    if n < results.len() {
        lemma_collected_push(results.take(n), results[n]);
        assert(results.take(n + 1) =~= results.take(n).push(results[n]));
        lemma_collected_prefix_err(results, n + 1);
    } else {
        assert(results.take(n) =~= results);
    }
}

} // verus!
