//! Failing on the first violation in declaration order.

use crate::analyzer::err::AnalysisError;
use vstd::prelude::*;

verus! {

/// The first failure among the results, in order; success if there is none.
pub open spec fn first_failure(results: Seq<Result<(), AnalysisError>>) -> Result<
    (),
    AnalysisError,
>
    decreases results.len(),
{
    if results.len() == 0 {
        Ok(())
    } else if results[0] is Err {
        results[0]
    } else {
        first_failure(results.drop_first())
    }
}

/// Skipping a successful result does not change the first failure.
pub proof fn lemma_first_failure_step(results: Seq<Result<(), AnalysisError>>, i: int)
    requires
        0 <= i < results.len(),
        results[i] is Ok,
    ensures
        first_failure(results.skip(i)) == first_failure(results.skip(i + 1)),
{
    assert(results.skip(i)[0] == results[i]);
    assert(results.skip(i).drop_first() == results.skip(i + 1));
}

/// A failure at the front is the first failure.
pub proof fn lemma_first_failure_hit(results: Seq<Result<(), AnalysisError>>, i: int)
    requires
        0 <= i < results.len(),
        results[i] is Err,
    ensures
        first_failure(results.skip(i)) == results[i],
{
    assert(results.skip(i)[0] == results[i]);
}

/// There is no failure exactly when every result is a success.
pub proof fn lemma_first_failure_ok(results: Seq<Result<(), AnalysisError>>)
    ensures
        first_failure(results) is Ok <==> forall|i: int|
            0 <= i < results.len() ==> (#[trigger] results[i]) is Ok,
    decreases results.len(),
{
    if results.len() > 0 {
        let rest = results.drop_first();
        lemma_first_failure_ok(rest);
        assert(forall|i: int| 0 <= i < rest.len() ==> rest[i] == results[i + 1]);
        if first_failure(results) is Ok {
            assert forall|i: int| 0 <= i < results.len() implies (#[trigger] results[i]) is Ok by {
                if i > 0 {
                    assert(rest[i - 1] is Ok);
                }
            }
        } else if results[0] is Ok {
            let i = choose|i: int| 0 <= i < rest.len() && !((#[trigger] rest[i]) is Ok);
            assert(!(results[i + 1] is Ok));
        }
    }
}

/// The first failure is the result at some position that only successes
/// precede.
pub proof fn lemma_first_failure_err(results: Seq<Result<(), AnalysisError>>) -> (k: int)
    requires
        first_failure(results) is Err,
    ensures
        0 <= k < results.len(),
        results[k] == first_failure(results),
        forall|j: int| 0 <= j < k ==> (#[trigger] results[j]) is Ok,
    decreases results.len(),
{
    if results[0] is Err {
        0
    } else {
        let rest = results.drop_first();
        let k = lemma_first_failure_err(rest);
        assert(forall|i: int| 0 <= i < rest.len() ==> rest[i] == results[i + 1]);
        assert forall|j: int| 0 <= j < k + 1 implies (#[trigger] results[j]) is Ok by {
            if j > 0 {
                assert(rest[j - 1] is Ok);
            }
        }
        k + 1
    }
}

/// A failure that only successes precede is the first failure.
pub proof fn lemma_first_failure_at(results: Seq<Result<(), AnalysisError>>, k: int)
    requires
        0 <= k < results.len(),
        results[k] is Err,
        forall|j: int| 0 <= j < k ==> (#[trigger] results[j]) is Ok,
    ensures
        first_failure(results) == results[k],
    decreases results.len(),
{
    if k > 0 {
        let rest = results.drop_first();
        assert(forall|i: int| 0 <= i < rest.len() ==> rest[i] == results[i + 1]);
        assert(results[0] is Ok);
        lemma_first_failure_at(rest, k - 1);
    }
}

} // verus!
