//! States that advance by themselves.

use std::convert::Infallible;
use vstd::prelude::*;

verus! {

/// A state which contains all its transitions, failures among them.
pub trait TryState: Sized {
    type ErrorVariant;

    /// The state, or the failure that it stands for.
    fn into_result(self) -> Result<Self, Self::ErrorVariant>;
}

/// A result that can become a state, whether it is a success or a failure.
pub trait IntoTryState<S> where S: TryState {
    /// The state that the result becomes.
    fn into_try_state(self) -> Result<S, Infallible>;
}

impl<S, F, E> IntoTryState<S> for Result<F, E> where S: TryState + From<F> + From<E> {
    /// A success becomes a state by one conversion, a failure by the other. Neither is lost.
    fn into_try_state(self) -> (r: Result<S, Infallible>)
        ensures
            r is Ok,
            match self {
                Ok(success) => call_ensures(<S as From<F>>::from, (success,), r->Ok_0),
                Err(failure) => call_ensures(<S as From<E>>::from, (failure,), r->Ok_0),
            },
    {
        match self {
            Ok(success) => Ok(<S as From<F>>::from(success)),
            Err(failure) => Ok(<S as From<E>>::from(failure)),
        }
    }
}

/// What a stream of states gives out next and what it goes on with, given the outcome of the state
/// that follows the last: a copy of that state and the state itself. A failure is the last thing
/// that it gives out.
pub fn yield_outcome<S: Clone, E>(outcome: Result<S, E>) -> (r: Result<(S, S), E>)
    ensures
        match (outcome, r) {
            (Ok(state), Ok((given, kept))) => kept == state && cloned(state, given),
            (Err(e), Err(f)) => e == f,
            _ => false,
        },
{
    match outcome {
        Ok(state) => Ok((state.clone(), state)),
        Err(e) => Err(e),
    }
}

/// What a stream of states gives out next and what it goes on with, given the state that follows
/// the last.
pub fn yield_state<S: TryState + Clone>(next: S) -> (r: Result<(S, S), S::ErrorVariant>)
    ensures
        exists|outcome: Result<S, S::ErrorVariant>| #[trigger]
            call_ensures(S::into_result, (next,), outcome) && match (outcome, r) {
                (Ok(state), Ok((given, kept))) => kept == state && cloned(state, given),
                (Err(e), Err(f)) => e == f,
                _ => false,
            },
{
    yield_outcome(next.into_result())
}

/// The first `n` things that a stream of states gives out after `s`, where `next` tells the outcome
/// of the state that follows another.
pub open spec fn stream<S, E>(next: spec_fn(S) -> Result<S, E>, s: S, n: nat) -> Seq<Result<S, E>>
    decreases n,
{
    if n == 0 {
        Seq::empty()
    } else {
        match next(s) {
            Ok(state) => seq![Ok::<S, E>(state)] + stream(next, state, (n - 1) as nat),
            Err(e) => seq![Err::<S, E>(e)],
        }
    }
}

/// A stream of states ends with the first failure, and does not end before.
pub proof fn law_stream_ends_with_failure<S, E>(next: spec_fn(S) -> Result<S, E>, s: S, n: nat)
    ensures
        forall|i: int|
            0 <= i < stream(next, s, n).len() - 1 ==> (#[trigger] stream(next, s, n)[i]) is Ok,
        stream(next, s, n).len() < n ==> stream(next, s, n).len() > 0 && stream(
            next,
            s,
            n,
        ).last() is Err,
        stream(next, s, n).len() <= n,
    decreases n,
{
    if n > 0 {
        match next(s) {
            Ok(state) => {
                law_stream_ends_with_failure(next, state, (n - 1) as nat);
                let rest = stream(next, state, (n - 1) as nat);
                let all = stream(next, s, n);
                assert forall|i: int| 0 <= i < all.len() - 1 implies (#[trigger] all[i]) is Ok by {
                    if i > 0 {
                        assert(all[i] == rest[i - 1]);
                    }
                }
            },
            Err(_) => {},
        }
    }
}

/// Everything that a stream gives out is the outcome of what follows the state before it.
pub proof fn law_stream_follows_transitions<S, E>(
    next: spec_fn(S) -> Result<S, E>,
    s: S,
    n: nat,
    i: int,
)
    requires
        0 <= i < stream(next, s, n).len(),
    ensures
        stream(next, s, n)[i] == (if i == 0 {
            next(s)
        } else {
            next(stream(next, s, n)[i - 1]->Ok_0)
        }),
    decreases n,
{
    match next(s) {
        Ok(state) => {
            let rest = stream(next, state, (n - 1) as nat);
            if i > 0 {
                law_stream_follows_transitions(next, state, (n - 1) as nat, i - 1);
                assert(stream(next, s, n)[i] == rest[i - 1]);
                if i > 1 {
                    assert(stream(next, s, n)[i - 1] == rest[i - 2]);
                }
            }
        },
        Err(_) => {},
    }
}

} // verus!
