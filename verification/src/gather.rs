//! Many outcomes made into one.

use vstd::prelude::*;

verus! {

/// Whether `i` is the first place at which `outcomes` holds an error.
pub open spec fn first_error_at<T, E>(outcomes: Seq<Result<T, E>>, i: int) -> bool {
    &&& 0 <= i < outcomes.len()
    &&& outcomes[i] is Err
    &&& forall|j: int| 0 <= j < i ==> (#[trigger] outcomes[j]) is Ok
}

/// Whether `gathered` is what `outcomes` come to: every value, in order, or else the first
/// error.
pub open spec fn gathers<T, E>(
    outcomes: Seq<Result<T, E>>,
    gathered: Result<Seq<T>, E>,
) -> bool {
    match gathered {
        Ok(values) => {
            &&& values.len() == outcomes.len()
            &&& forall|i: int|
                #![trigger outcomes[i]]
                0 <= i < outcomes.len() ==> outcomes[i] == Ok::<T, E>(values[i])
        },
        Err(error) => exists|i: int| #[trigger]
            first_error_at(outcomes, i) && outcomes[i] == Err::<T, E>(error),
    }
}

/// The values of a vector that came out of [`gather`], or the error.
pub open spec fn gathered_view<T, E>(gathered: Result<Vec<T>, E>) -> Result<Seq<T>, E> {
    match gathered {
        Ok(values) => Ok(values@),
        Err(error) => Err(error),
    }
}

/// Every value of `outcomes`, in order, or else the first error.
pub fn gather<T, E>(outcomes: Vec<Result<T, E>>) -> (gathered: Result<Vec<T>, E>)
    ensures
        gathers(outcomes@, gathered_view(gathered)),
{
    let mut values: Vec<T> = Vec::new();
    let ghost all = outcomes@;
    for outcome in iter: outcomes
        invariant
            iter.seq() == all,
            values@.len() == iter.index(),
            forall|i: int|
                #![trigger all[i]]
                0 <= i < iter.index() ==> all[i] == Ok::<T, E>(values@[i]),
    {
        match outcome {
            Ok(value) => {
                values.push(value);
            },
            Err(error) => {
                assert(first_error_at(all, iter.index() as int));
                return Err(error);
            },
        }
    }
    Ok(values)
}

/// Outcomes come to one result only.
pub proof fn law_one_gathered_result<T, E>(
    outcomes: Seq<Result<T, E>>,
    a: Result<Seq<T>, E>,
    b: Result<Seq<T>, E>,
)
    requires
        gathers(outcomes, a),
        gathers(outcomes, b),
    ensures
        a == b,
{
    match (a, b) {
        (Ok(x), Ok(y)) => {
            assert forall|i: int| 0 <= i < x.len() implies x[i] == y[i] by {
                assert(outcomes[i] == Ok::<T, E>(x[i]));
            }
            assert(x =~= y);
        },
        (Err(_), Err(_)) => {},
        _ => {},
    }
}

/// Outcomes come to an error exactly when there is an error among them.
pub proof fn law_gathering_fails_on_an_error<T, E>(
    outcomes: Seq<Result<T, E>>,
    gathered: Result<Seq<T>, E>,
)
    requires
        gathers(outcomes, gathered),
    ensures
        gathered is Err <==> exists|i: int|
            0 <= i < outcomes.len() && (#[trigger] outcomes[i]) is Err,
{
    if gathered is Err {
        let i = choose|i: int| #[trigger]
            first_error_at(outcomes, i) && outcomes[i] == Err::<T, E>(gathered->Err_0);
        assert(outcomes[i] is Err);
    }
}

} // verus!
