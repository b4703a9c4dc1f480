use vstd::prelude::*;

verus! {

/// The outcome of racing two tasks: which one finished first, and its value.
#[derive(Clone, Copy, Debug, PartialEq, Eq)]
pub enum Either<A, B> {
    First(A),
    Second(B),
}

/// The result of whichever of two raced tasks finished first.
pub fn either_into_result<T, E>(either: Either<Result<T, E>, Result<T, E>>) -> (r: Result<T, E>)
    ensures
        r == (match either {
            Either::First(r) => r,
            Either::Second(r) => r,
        }),
{
    match either {
        Either::First(r) => r,
        Either::Second(r) => r,
    }
}

} // verus!
